use judge_core::admission::Admission;
use judge_core::capture::{decode_stream, CaptureBuffer};
use judge_core::classify::{classify, ExecutionPhase};
use judge_core::evaluate::ExecutionReport;
use judge_core::identity::fresh_instance_id;
use judge_core::invoker::{
    read_stream, EndCause, Invocation, InvokerAction, InvokerEvent, InvokerPhase, ProcessExit,
};
use judge_core::json::{bool_literal, decimal, digit, quote_all, render_array};
use judge_core::render::{
    lay_out_mapping, lay_out_mount, lay_out_namespace, quote_capabilities, quote_mount,
};
use judge_core::runtime_spec::{
    bind_read_only, build_spec, default_env, memory_ceiling_bytes, mount_point,
    sandbox_mapping, sandbox_mounts, sandbox_namespaces, CapabilitySets, IdMapping, NamespaceKind,
    CEILING_MAX, DEFAULT_MAX_PROCESSES, UNPRIVILEGED_HOST_ID,
};
use judge_core::sandbox::{
    command_output, is_clean_skeleton, is_listed, skeleton_names, skeleton_tree_names,
    CommandError, ContainerSandbox, RUNTIME_PROGRAM,
};
use judge_core::status::JudgeStatus;
use judge_core::text::ComparisonPolicy;
use judge_core::texts::duplicate_texts;
use serde_json::Value;

fn strings(items: &[&str]) -> Vec<String> {
    items.iter().map(|s| s.to_string()).collect()
}

fn render_strings(items: &[String]) -> String {
    render_array(&quote_all(&items.to_vec()))
}

#[test]
fn decimal_digits() {
    assert_eq!(digit(0), "0");
    assert_eq!(digit(9), "9");
    assert_eq!(decimal(0), "0");
    assert_eq!(decimal(7), "7");
    assert_eq!(decimal(10), "10");
    assert_eq!(decimal(1000), "1000");
    assert_eq!(decimal(1048576), "1048576");
    assert_eq!(decimal(u64::MAX), "18446744073709551615");
    assert_eq!(bool_literal(true), "true");
    assert_eq!(bool_literal(false), "false");
}

#[test]
fn arrays_join_their_parts_with_commas() {
    assert_eq!(render_array(&strings(&[])), "[]");
    assert_eq!(render_array(&strings(&["1"])), "[1]");
    assert_eq!(render_array(&strings(&["1", "{}", "\"x\""])), "[1,{},\"x\"]");
}

#[test]
fn strings_are_quoted_and_escaped() {
    assert_eq!(render_strings(&strings(&[])), "[]");
    assert_eq!(render_strings(&strings(&["a"])), "[\"a\"]");
    assert_eq!(
        render_strings(&strings(&["say \"hi\"", "back\\slash", "line\nbreak", "tab\t"])),
        "[\"say \\\"hi\\\"\",\"back\\\\slash\",\"line\\nbreak\",\"tab\\t\"]"
    );
    assert_eq!(quote_all(&strings(&["x", ""])), strings(&["\"x\"", "\"\""]));
    assert_eq!(render_strings(&strings(&["\u{1}"])), "[\"\\u0001\"]");
    assert_eq!(render_strings(&strings(&["héllo"])), "[\"héllo\"]");
}

#[test]
fn mounts_namespaces_and_mappings_render_as_objects() {
    let proc_mount = quote_mount(&mount_point("/proc", "proc", "proc", vec![]));
    assert_eq!(proc_mount.destination, "\"/proc\"");
    assert_eq!(
        lay_out_mount(&proc_mount),
        "{\"destination\":\"/proc\",\"type\":\"proc\",\"source\":\"proc\"}"
    );
    let bind = quote_mount(&bind_read_only("/lib", "/lib"));
    assert_eq!(
        lay_out_mount(&bind),
        "{\"destination\":\"/lib\",\"type\":\"bind\",\"source\":\"/lib\",\"options\":[\"rbind\",\"ro\",\"nosuid\",\"nodev\"]}"
    );
    assert_eq!(lay_out_namespace(NamespaceKind::Network), "{\"type\":\"network\"}");
    assert_eq!(
        lay_out_mapping(IdMapping { container_id: 0, host_id: 1000, size: 1 }),
        "{\"containerID\":0,\"hostID\":1000,\"size\":1}"
    );
    let mut sets = CapabilitySets::none();
    sets.bounding.push("CAP_KILL".to_string());
    assert_eq!(quote_capabilities(&sets).bounding, strings(&["\"CAP_KILL\""]));
}

#[test]
fn layout_sets_strings_as_they_are() {
    // The layout does no quoting of its own: what it is given is what it writes.
    let raw = mount_point("D", "K", "S", strings(&["o1", "o2"]));
    assert_eq!(
        lay_out_mount(&raw),
        "{\"destination\":D,\"type\":K,\"source\":S,\"options\":[o1,o2]}"
    );
    let spec = build_spec("R", "C", &vec![], &strings(&["E"]), "W", 1, 2);
    let text = spec.lay_out();
    assert!(text.starts_with("{\"ociVersion\":1.0.0,\"process\":{\"terminal\":false,\"user\":{\"uid\":0,\"gid\":0},\"args\":[C],\"env\":[E],\"cwd\":W,"));
    let quoted = spec.quoted();
    assert_eq!(quoted.root_path, "\"R\"");
    assert_eq!(quoted.process.args, strings(&["\"C\""]));
    assert_eq!(quoted.namespaces, spec.namespaces);
    assert_eq!(quoted.uid_mappings, spec.uid_mappings);
    assert_eq!(quoted.resources.memory_limit_bytes, 1024);
    assert_eq!(quoted.lay_out(), spec.to_json());
}

#[test]
fn memory_ceiling_is_in_bytes_and_bounded() {
    assert_eq!(memory_ceiling_bytes(0), 0);
    assert_eq!(memory_ceiling_bytes(1), 1024);
    assert_eq!(memory_ceiling_bytes(65536), 67108864);
    assert_eq!(CEILING_MAX, i64::MAX as u64);
    assert_eq!(memory_ceiling_bytes(CEILING_MAX / 1024), (CEILING_MAX / 1024) * 1024);
    assert_eq!(memory_ceiling_bytes(CEILING_MAX / 1024 + 1), CEILING_MAX);
    assert_eq!(memory_ceiling_bytes(u64::MAX), CEILING_MAX);
}

#[test]
fn standard_parts_of_every_sandbox() {
    assert_eq!(
        default_env(),
        strings(&["PATH=/bin:/usr/bin:/usr/local/bin", "HOME=/root", "TERM=xterm"])
    );
    assert_eq!(
        sandbox_namespaces(),
        vec![
            NamespaceKind::Pid,
            NamespaceKind::Network,
            NamespaceKind::Ipc,
            NamespaceKind::Uts,
            NamespaceKind::Mount,
            NamespaceKind::User,
        ]
    );
    assert_eq!(UNPRIVILEGED_HOST_ID, 1000);
    assert_eq!(
        sandbox_mapping(),
        vec![IdMapping { container_id: 0, host_id: 1000, size: 1 }]
    );
    let mounts = sandbox_mounts();
    let destinations: Vec<&str> = mounts.iter().map(|m| m.destination.as_str()).collect();
    assert_eq!(
        destinations,
        vec![
            "/proc",
            "/dev",
            "/bin",
            "/usr/bin",
            "/lib",
            "/lib64",
            "/usr/lib",
            "/usr/lib64",
            "/workspace"
        ]
    );
    assert_eq!(mounts[1].options, strings(&["nosuid", "strictatime", "mode=755", "size=65536k"]));
    assert_eq!(mounts[2].source, "/usr/bin");
    assert_eq!(mounts[8].options, strings(&["rw", "nosuid", "nodev", "size=1048576k"]));
    for mount in &mounts[2..8] {
        assert_eq!(mount.kind, "bind");
        assert_eq!(mount.options, strings(&["rbind", "ro", "nosuid", "nodev"]));
    }
    let none = CapabilitySets::none();
    assert!(none.bounding.is_empty() && none.effective.is_empty());
    assert!(none.inheritable.is_empty() && none.permitted.is_empty() && none.ambient.is_empty());
    assert_eq!(duplicate_texts(&strings(&["a", "b"])), strings(&["a", "b"]));
}

#[test]
fn built_spec_holds_what_was_asked() {
    let spec = build_spec(
        "/tmp/box",
        "/bin/ls",
        &strings(&["-la", "/"]),
        &strings(&["A=1"]),
        "/workspace",
        65536,
        DEFAULT_MAX_PROCESSES,
    );
    assert_eq!(spec.oci_version, "1.0.0");
    assert!(!spec.process.terminal);
    assert_eq!((spec.process.uid, spec.process.gid), (0, 0));
    assert_eq!(spec.process.args, strings(&["/bin/ls", "-la", "/"]));
    assert_eq!(spec.process.env, strings(&["A=1"]));
    assert_eq!(spec.process.cwd, "/workspace");
    assert_eq!(spec.process.capabilities, CapabilitySets::none());
    assert_eq!(spec.root_path, "/tmp/box");
    assert!(!spec.root_readonly);
    assert_eq!(spec.hostname, "sandbox");
    assert_eq!(spec.mounts, sandbox_mounts());
    assert!(!spec.resources.devices_allowed);
    assert_eq!(spec.resources.device_access, "rwm");
    assert_eq!(spec.resources.memory_limit_bytes, 65536 * 1024);
    assert_eq!(spec.resources.pids_limit, 64);
    assert_eq!(spec.namespaces, sandbox_namespaces());
    assert_eq!(spec.uid_mappings, sandbox_mapping());
    assert_eq!(spec.gid_mappings, sandbox_mapping());
    let huge = build_spec("/r", "x", &vec![], &vec![], "/", u64::MAX, u64::MAX);
    assert_eq!(huge.resources.memory_limit_bytes, CEILING_MAX);
    assert_eq!(huge.resources.pids_limit, CEILING_MAX);
    assert_eq!(huge.process.args, strings(&["x"]));
}

#[test]
fn document_is_json_in_the_runtime_schema() {
    let sandbox = ContainerSandbox::new("test_sandbox", "/tmp/sandbox_rootfs");
    let text = sandbox.container_config("/bin/echo", &strings(&["a \"b\"", "c\\d"]), 2048, 16);
    let doc: Value = serde_json::from_str(&text).unwrap();
    assert_eq!(doc["ociVersion"], "1.0.0");
    let process = &doc["process"];
    assert_eq!(process["terminal"], false);
    assert_eq!(process["user"]["uid"], 0);
    assert_eq!(process["user"]["gid"], 0);
    assert_eq!(process["args"][0], "/bin/echo");
    assert_eq!(process["args"][1], "a \"b\"");
    assert_eq!(process["args"][2], "c\\d");
    assert_eq!(process["args"].as_array().unwrap().len(), 3);
    assert_eq!(process["env"][0], "PATH=/bin:/usr/bin:/usr/local/bin");
    assert_eq!(process["env"][1], "HOME=/root");
    assert_eq!(process["env"][2], "TERM=xterm");
    assert_eq!(process["cwd"], "/workspace");
    for set in ["bounding", "effective", "inheritable", "permitted", "ambient"] {
        assert_eq!(process["capabilities"][set].as_array().unwrap().len(), 0);
    }
    assert_eq!(doc["root"]["path"], "/tmp/sandbox_rootfs");
    assert_eq!(doc["root"]["readonly"], false);
    assert_eq!(doc["hostname"], "sandbox");
    let mounts = doc["mounts"].as_array().unwrap();
    assert_eq!(mounts.len(), 9);
    assert_eq!(mounts[0]["destination"], "/proc");
    assert_eq!(mounts[0]["type"], "proc");
    assert_eq!(mounts[0]["source"], "proc");
    assert!(mounts[0].get("options").is_none());
    assert_eq!(mounts[1]["options"][3], "size=65536k");
    assert_eq!(mounts[7]["destination"], "/usr/lib64");
    assert_eq!(mounts[7]["options"][1], "ro");
    assert_eq!(mounts[8]["destination"], "/workspace");
    assert_eq!(mounts[8]["type"], "tmpfs");
    assert_eq!(mounts[8]["options"][0], "rw");
    let linux = &doc["linux"];
    let devices = linux["resources"]["devices"].as_array().unwrap();
    assert_eq!(devices.len(), 1);
    assert_eq!(devices[0]["allow"], false);
    assert_eq!(devices[0]["access"], "rwm");
    assert_eq!(linux["resources"]["memory"]["limit"], 2048 * 1024);
    assert_eq!(linux["resources"]["pids"]["limit"], 16);
    let kinds: Vec<&str> = linux["namespaces"]
        .as_array()
        .unwrap()
        .iter()
        .map(|n| n["type"].as_str().unwrap())
        .collect();
    assert_eq!(kinds, vec!["pid", "network", "ipc", "uts", "mount", "user"]);
    for mapping in ["uidMappings", "gidMappings"] {
        let entries = linux[mapping].as_array().unwrap();
        assert_eq!(entries.len(), 1);
        assert_eq!(entries[0]["containerID"], 0);
        assert_eq!(entries[0]["hostID"], 1000);
        assert_eq!(entries[0]["size"], 1);
    }
}

#[test]
fn document_text_is_compact_and_starts_with_the_version() {
    let spec = build_spec("/r", "x", &vec![], &vec![], "/", 1, 1);
    let text = spec.to_json();
    assert!(text.starts_with(
        "{\"ociVersion\":\"1.0.0\",\"process\":{\"terminal\":false,\"user\":{\"uid\":0,\"gid\":0},\"args\":[\"x\"],\"env\":[],\"cwd\":\"/\",\"capabilities\":{\"bounding\":[],\"effective\":[],\"inheritable\":[],\"permitted\":[],\"ambient\":[]}},\"root\":{\"path\":\"/r\",\"readonly\":false},\"hostname\":\"sandbox\",\"mounts\":["
    ));
    assert!(text.ends_with(
        "\"linux\":{\"resources\":{\"devices\":[{\"allow\":false,\"access\":\"rwm\"}],\"memory\":{\"limit\":1024},\"pids\":{\"limit\":1}},\"namespaces\":[{\"type\":\"pid\"},{\"type\":\"network\"},{\"type\":\"ipc\"},{\"type\":\"uts\"},{\"type\":\"mount\"},{\"type\":\"user\"}],\"uidMappings\":[{\"containerID\":0,\"hostID\":1000,\"size\":1}],\"gidMappings\":[{\"containerID\":0,\"hostID\":1000,\"size\":1}]}}"
    ));
    assert!(!text.contains(' '));
}

#[test]
fn sandbox_plans_its_paths_and_commands() {
    let sandbox = ContainerSandbox::new("test_sandbox", "/tmp/sandbox_rootfs");
    assert_eq!(sandbox.container_id(), "test_sandbox");
    assert_eq!(sandbox.rootfs(), "/tmp/sandbox_rootfs");
    assert_eq!(
        sandbox.skeleton(),
        strings(&[
            "/tmp/sandbox_rootfs",
            "/tmp/sandbox_rootfs/bin",
            "/tmp/sandbox_rootfs/usr/bin",
            "/tmp/sandbox_rootfs/lib",
            "/tmp/sandbox_rootfs/lib64",
            "/tmp/sandbox_rootfs/etc",
            "/tmp/sandbox_rootfs/proc",
            "/tmp/sandbox_rootfs/sys",
            "/tmp/sandbox_rootfs/dev",
            "/tmp/sandbox_rootfs/dev/pts",
            "/tmp/sandbox_rootfs/dev/shm",
            "/tmp/sandbox_rootfs/workspace",
        ])
    );
    assert_eq!(sandbox.host_path("workspace/main.c"), "/tmp/sandbox_rootfs/workspace/main.c");
    assert_eq!(sandbox.config_path(), "/tmp/sandbox_rootfs/config.json");
    assert_eq!(RUNTIME_PROGRAM, "runc");
    assert_eq!(
        sandbox.run_arguments(),
        strings(&["run", "--bundle", "/tmp/sandbox_rootfs", "test_sandbox"])
    );
    assert_eq!(sandbox.kill_arguments(), strings(&["kill", "--all", "test_sandbox", "KILL"]));
    assert_eq!(sandbox.delete_arguments(), strings(&["delete", "test_sandbox"]));
    let spec = sandbox.container_spec("/bin/uname", &strings(&["-a"]), 1024, 8);
    assert_eq!(spec.process.args, strings(&["/bin/uname", "-a"]));
    assert_eq!(spec.root_path, "/tmp/sandbox_rootfs");
    assert_eq!(spec.process.env, default_env());
}

#[test]
fn instances_with_distinct_identities_share_nothing() {
    let one = ContainerSandbox::for_instance("/var/judge", "aaaa");
    let two = ContainerSandbox::for_instance("/var/judge", "aaab");
    assert_eq!(one.container_id(), "judge-aaaa");
    assert_eq!(one.rootfs(), "/var/judge/judge-aaaa");
    assert_ne!(one.container_id(), two.container_id());
    assert_ne!(one.rootfs(), two.rootfs());
    assert_ne!(one.config_path(), two.config_path());
    assert_ne!(one.host_path("workspace"), two.host_path("workspace"));

    let first = ContainerSandbox::fresh("/var/judge");
    let second = ContainerSandbox::fresh("/var/judge");
    assert_ne!(first.container_id(), second.container_id());
    assert_ne!(first.rootfs(), second.rootfs());
    assert!(first.container_id().starts_with("judge-"));
    assert_eq!(first.rootfs(), format!("/var/judge/{}", first.container_id()));
}

#[test]
fn fresh_identities_are_hyphenated_and_new_each_time() {
    let a = fresh_instance_id();
    let b = fresh_instance_id();
    assert_eq!(a.len(), 36);
    assert_eq!(a.chars().filter(|c| *c == '-').count(), 4);
    for (i, c) in a.chars().enumerate() {
        if [8, 13, 18, 23].contains(&i) {
            assert_eq!(c, '-');
        } else {
            assert!(c.is_ascii_digit() || ('a'..='f').contains(&c));
        }
    }
    let fresh = ContainerSandbox::fresh("/base");
    assert_eq!(fresh.container_id().len(), 42);
    assert!(!fresh.container_id().contains('/'));
    assert!(uuid::Uuid::parse_str(&a).is_ok());
    assert_ne!(a, b);
}

#[test]
fn a_second_provisioning_of_an_empty_skeleton_is_allowed() {
    // Every directory that the plan creates, and every directory above one,
    // as a path below the root: the listing after one provisioning.
    let sandbox = ContainerSandbox::new("again", "/tmp/again");
    let root = sandbox.rootfs().to_string();
    let mut found: Vec<String> = Vec::new();
    for path in sandbox.skeleton() {
        let mut below = path[root.len()..].to_string();
        while !below.is_empty() {
            if !found.contains(&below) {
                found.push(below.clone());
            }
            let cut = below.rfind('/').unwrap();
            below.truncate(cut);
        }
    }
    assert_eq!(found.len(), 12);
    assert!(found.contains(&"/usr".to_string()));
    assert!(is_clean_skeleton(&found));
    found.push("/workspace/a.out".to_string());
    assert!(!is_clean_skeleton(&found));
}

#[test]
fn provisioning_is_refused_over_leftovers() {
    assert!(is_clean_skeleton(&strings(&[])));
    assert!(is_clean_skeleton(&skeleton_names()));
    // What a provisioned root holds, as a walk of the tree lists it.
    let provisioned = strings(&[
        "/bin",
        "/usr",
        "/usr/bin",
        "/lib",
        "/lib64",
        "/etc",
        "/proc",
        "/sys",
        "/dev",
        "/dev/pts",
        "/dev/shm",
        "/workspace",
    ]);
    assert!(is_clean_skeleton(&provisioned));
    let mut sorted = provisioned.clone();
    sorted.sort();
    assert!(is_clean_skeleton(&sorted));
    let mut tree = skeleton_tree_names();
    tree.sort();
    assert_eq!(tree, sorted);
    assert!(is_clean_skeleton(&strings(&["/usr"])));
    assert!(!is_clean_skeleton(&strings(&["/usr", "/usr/lib"])));
    assert!(!is_clean_skeleton(&strings(&["/usr/bin/sh"])));
    assert!(!is_clean_skeleton(&strings(&["/dev/null"])));
    assert!(is_clean_skeleton(&strings(&["/dev", "/dev/pts", "/workspace"])));
    assert!(!is_clean_skeleton(&strings(&["/config.json"])));
    assert!(!is_clean_skeleton(&strings(&["/bin", "/workspace/main.c"])));
    assert!(!is_clean_skeleton(&strings(&["bin"])));
    assert!(is_listed("/etc", &skeleton_names()));
    assert!(!is_listed("/etc/", &skeleton_names()));
    assert!(!is_listed("", &skeleton_names()));
    assert_eq!(skeleton_names().len(), 11);
}

#[test]
fn command_output_follows_the_exit_status() {
    assert_eq!(command_output(true, b"hello\n".to_vec(), b"warn".to_vec()), Ok("hello\n".to_string()));
    let failed = command_output(false, b"partial".to_vec(), b"no such file".to_vec());
    assert_eq!(failed, Err(CommandError::Failed("no such file".to_string())));
    assert_eq!(failed.unwrap_err().to_string(), "Command failed: no such file");
    assert_eq!(command_output(true, vec![0xff, 0xfe], vec![]), Err(CommandError::NotUtf8));
    assert_eq!(command_output(false, vec![], vec![0xc0]), Err(CommandError::NotUtf8));
    assert_eq!(command_output(true, vec![], vec![0xff]), Ok(String::new()));
    assert_eq!(
        CommandError::NotUtf8.to_string(),
        "invalid utf-8 sequence in the output of the command"
    );
}

#[test]
fn streams_decode_only_when_valid() {
    assert_eq!(decode_stream(b"plain".to_vec()), Some("plain".to_string()));
    assert_eq!(decode_stream("h\u{e9}llo \u{20ac}".as_bytes().to_vec()), Some("héllo €".to_string()));
    assert_eq!(decode_stream(vec![]), Some(String::new()));
    assert_eq!(decode_stream(vec![0x80]), None);
    assert_eq!(decode_stream(vec![b'a', 0xe2, 0x82]), None);
    assert_eq!(read_stream(b"ok".to_vec()), ("ok".to_string(), true));
    assert_eq!(read_stream(vec![0xff]), (String::new(), false));
}

#[test]
fn capture_keeps_no_more_than_its_cap() {
    let mut buffer = CaptureBuffer::new(5);
    assert!(buffer.push(b"ab"));
    assert_eq!(buffer.len(), 2);
    assert!(buffer.push(b"cde"));
    assert_eq!(buffer.data, b"abcde".to_vec());
    assert!(!buffer.overflowed);
    assert!(buffer.push(b""));
    assert!(!buffer.push(b"f"));
    assert!(buffer.overflowed);
    assert_eq!(buffer.data, b"abcde".to_vec());
    assert!(!buffer.push(b""));
    assert_eq!(buffer.len(), 5);

    let mut small = CaptureBuffer::new(3);
    assert!(!small.push(b"0123456789"));
    assert_eq!(small.data, b"012".to_vec());
    let mut none = CaptureBuffer::new(0);
    assert!(none.push(b""));
    assert!(!none.push(b"x"));
    assert!(none.data.is_empty());
}

#[test]
fn admission_never_exceeds_capacity() {
    let mut admission = Admission::new(2);
    assert_eq!(admission.available(), 2);
    assert!(admission.try_acquire());
    assert!(admission.try_acquire());
    assert!(!admission.try_acquire());
    assert_eq!(admission.live, 2);
    assert_eq!(admission.available(), 0);
    admission.release();
    assert_eq!(admission.available(), 1);
    assert!(admission.try_acquire());
    admission.release();
    admission.release();
    admission.release();
    assert_eq!(admission.live, 0);
    let mut closed = Admission::new(0);
    assert!(!closed.try_acquire());
    assert_eq!(closed.live, 0);
}

fn exit_with(code: Option<i32>, signal: Option<i32>, stdout: &[u8]) -> ProcessExit {
    ProcessExit {
        exit_code: code,
        signal,
        wall_time_ms: 42,
        peak_memory_kb: 512,
        stdout: stdout.to_vec(),
        stderr: b"err".to_vec(),
    }
}

fn launched(time_limit_ms: u64, grace_ms: u64) -> Invocation {
    let (mut invocation, first) = Invocation::start(time_limit_ms, grace_ms);
    assert_eq!(first, InvokerAction::Provision);
    assert_eq!(invocation.step(InvokerEvent::Done), InvokerAction::WriteSpec);
    assert_eq!(invocation.step(InvokerEvent::Done), InvokerAction::Launch);
    let wait = invocation.step(InvokerEvent::Done);
    assert_eq!(wait, InvokerAction::Wait { deadline_ms: invocation.deadline_ms });
    invocation
}

fn clean_up(invocation: &mut Invocation) {
    assert_eq!(invocation.phase, InvokerPhase::Deleting);
    assert!(invocation.delete_issued);
    // Cleanup goes on even where an action of it fails.
    assert_eq!(
        invocation.step(InvokerEvent::Failed("container does not exist".to_string())),
        InvokerAction::RemoveRootfs
    );
    assert!(invocation.remove_issued);
    assert_eq!(
        invocation.step(InvokerEvent::Failed("directory not empty".to_string())),
        InvokerAction::Report
    );
    assert_eq!(invocation.phase, InvokerPhase::Finished);
    assert_eq!(invocation.step(InvokerEvent::Done), InvokerAction::Report);
}

#[test]
fn a_normal_run_is_reported_after_cleanup() {
    let mut invocation = launched(1000, 500);
    assert_eq!(invocation.deadline_ms, 1500);
    assert_eq!(invocation.clone().report(), None);
    assert_eq!(
        invocation.step(InvokerEvent::Exited(exit_with(Some(0), None, b"4\n"))),
        InvokerAction::DeleteRegistration
    );
    clean_up(&mut invocation);
    assert_eq!(invocation.failure, None);
    match invocation.report() {
        Some(ExecutionReport::Completed(outcome)) => {
            assert_eq!(outcome.exit_code, Some(0));
            assert_eq!(outcome.signal, None);
            assert!(!outcome.timed_out);
            assert!(!outcome.output_capped);
            assert_eq!(outcome.wall_time_ms, 42);
            assert_eq!(outcome.peak_memory_kb, 512);
            assert_eq!(outcome.stdout, "4\n");
            assert_eq!(outcome.stderr, "err");
        }
        other => panic!("unexpected report: {:?}", other),
    }
}

#[test]
fn a_crash_is_reported_with_its_signal() {
    let mut invocation = launched(1000, 500);
    invocation.step(InvokerEvent::Exited(exit_with(None, Some(11), b"partial")));
    clean_up(&mut invocation);
    match invocation.report() {
        Some(ExecutionReport::Completed(outcome)) => {
            assert_eq!(outcome.signal, Some(11));
            assert_eq!(outcome.exit_code, None);
            assert_eq!(outcome.stdout, "partial");
        }
        other => panic!("unexpected report: {:?}", other),
    }
}

#[test]
fn the_deadline_is_the_limit_plus_grace() {
    assert_eq!(Invocation::start(100, 500).0.deadline_ms, 600);
    assert_eq!(Invocation::start(0, 0).0.deadline_ms, 0);
    assert_eq!(Invocation::start(u64::MAX, 1).0.deadline_ms, u64::MAX);
    assert_eq!(Invocation::start(u64::MAX - 5, 5).0.deadline_ms, u64::MAX);
    assert_eq!(Invocation::start(5, u64::MAX).0.deadline_ms, u64::MAX);
}

#[test]
fn a_run_past_its_deadline_is_terminated_and_times_out() {
    let mut invocation = launched(100, 500);
    assert_eq!(invocation.deadline_ms, 600);
    assert_eq!(invocation.step(InvokerEvent::DeadlineElapsed), InvokerAction::Terminate);
    assert_eq!(invocation.cause, EndCause::Deadline);
    let mut killed = exit_with(None, Some(9), b"zzz");
    killed.wall_time_ms = 600;
    assert_eq!(invocation.step(InvokerEvent::Exited(killed)), InvokerAction::DeleteRegistration);
    clean_up(&mut invocation);
    let report = invocation.report().unwrap();
    let outcome = match report {
        ExecutionReport::Completed(outcome) => outcome,
        other => panic!("unexpected report: {:?}", other),
    };
    assert!(outcome.timed_out);
    assert_eq!(outcome.wall_time_ms, 600);
    let verdict =
        classify(&outcome, 65536, ExecutionPhase::Run, "zzz", ComparisonPolicy::Exact, 1024);
    assert_eq!(verdict.status, JudgeStatus::TimeLimitExceeded);
}

#[test]
fn a_timeout_is_reported_even_if_nothing_is_known_of_the_process() {
    let mut invocation = launched(100, 50);
    invocation.step(InvokerEvent::DeadlineElapsed);
    assert_eq!(
        invocation.step(InvokerEvent::Failed("kill failed".to_string())),
        InvokerAction::DeleteRegistration
    );
    clean_up(&mut invocation);
    match invocation.report() {
        Some(ExecutionReport::Completed(outcome)) => {
            assert!(outcome.timed_out);
            assert_eq!(outcome.exit_code, None);
            assert_eq!(outcome.wall_time_ms, 150);
            assert_eq!(outcome.peak_memory_kb, 0);
            assert_eq!(outcome.stdout, "");
        }
        other => panic!("unexpected report: {:?}", other),
    }
}

#[test]
fn output_over_the_cap_ends_the_run() {
    let mut invocation = launched(1000, 0);
    assert_eq!(invocation.step(InvokerEvent::OutputCapExceeded), InvokerAction::Terminate);
    // The cut may have split a character: the stream is then left out.
    invocation.step(InvokerEvent::Exited(exit_with(None, Some(9), &[b'a', 0xe2, 0x82])));
    clean_up(&mut invocation);
    let outcome = match invocation.report() {
        Some(ExecutionReport::Completed(outcome)) => outcome,
        other => panic!("unexpected report: {:?}", other),
    };
    assert!(outcome.output_capped);
    assert!(!outcome.timed_out);
    assert_eq!(outcome.stdout, "");
    assert_eq!(outcome.stderr, "err");
    let verdict = classify(&outcome, 65536, ExecutionPhase::Run, "", ComparisonPolicy::Exact, 16);
    assert_eq!(verdict.status, JudgeStatus::OutputLimitExceeded);
}

#[test]
fn cancellation_is_cleaned_up_like_a_timeout() {
    let mut invocation = launched(1000, 0);
    assert_eq!(invocation.step(InvokerEvent::CancelRequested), InvokerAction::Terminate);
    invocation.step(InvokerEvent::Exited(exit_with(None, Some(9), b"")));
    clean_up(&mut invocation);
    assert_eq!(invocation.report(), Some(ExecutionReport::Cancelled));

    let (mut early, _) = Invocation::start(1000, 0);
    assert_eq!(early.step(InvokerEvent::CancelRequested), InvokerAction::DeleteRegistration);
    clean_up(&mut early);
    assert_eq!(early.report(), Some(ExecutionReport::Cancelled));
}

#[test]
fn environment_failures_are_reported_after_cleanup() {
    let (mut invocation, _) = Invocation::start(1000, 0);
    assert_eq!(
        invocation.step(InvokerEvent::Failed("mkdir: permission denied".to_string())),
        InvokerAction::DeleteRegistration
    );
    clean_up(&mut invocation);
    assert_eq!(
        invocation.report(),
        Some(ExecutionReport::BackendFailure("mkdir: permission denied".to_string()))
    );

    let (mut at_launch, _) = Invocation::start(1000, 0);
    at_launch.step(InvokerEvent::Done);
    at_launch.step(InvokerEvent::Done);
    assert_eq!(
        at_launch.step(InvokerEvent::Failed("runc: not found".to_string())),
        InvokerAction::DeleteRegistration
    );
    clean_up(&mut at_launch);
    assert_eq!(
        at_launch.report(),
        Some(ExecutionReport::BackendFailure("runc: not found".to_string()))
    );

    let mut lost = launched(1000, 0);
    assert_eq!(
        lost.step(InvokerEvent::Failed("wait: no child".to_string())),
        InvokerAction::Terminate
    );
    lost.step(InvokerEvent::Done);
    clean_up(&mut lost);
    assert_eq!(
        lost.report(),
        Some(ExecutionReport::BackendFailure("wait: no child".to_string()))
    );
}

#[test]
fn a_refused_provisioning_is_reported_and_removes_nothing() {
    let (mut invocation, first) = Invocation::start(1000, 0);
    assert_eq!(first, InvokerAction::Provision);
    assert_eq!(
        invocation.step(InvokerEvent::Refused("/tmp/box holds another environment".to_string())),
        InvokerAction::Report
    );
    assert_eq!(invocation.phase, InvokerPhase::Finished);
    assert!(invocation.refused);
    assert!(!invocation.delete_issued);
    assert!(!invocation.remove_issued);
    assert_eq!(invocation.step(InvokerEvent::Done), InvokerAction::Report);
    assert!(!invocation.remove_issued);
    assert_eq!(
        invocation.report(),
        Some(ExecutionReport::BackendFailure("/tmp/box holds another environment".to_string()))
    );
}

#[test]
fn a_refusal_after_provisioning_is_out_of_turn() {
    let (mut invocation, _) = Invocation::start(1000, 0);
    invocation.step(InvokerEvent::Done);
    assert_eq!(
        invocation.step(InvokerEvent::Refused("late".to_string())),
        InvokerAction::DeleteRegistration
    );
    assert!(!invocation.refused);
    clean_up(&mut invocation);
    assert_eq!(invocation.report(), Some(ExecutionReport::BackendFailure("late".to_string())));

    let mut waiting = launched(1000, 0);
    assert_eq!(waiting.step(InvokerEvent::Refused("later".to_string())), InvokerAction::Terminate);
    waiting.step(InvokerEvent::Done);
    clean_up(&mut waiting);
    assert_eq!(waiting.report(), Some(ExecutionReport::BackendFailure("later".to_string())));
}

#[test]
fn events_out_of_turn_are_failures() {
    let (mut invocation, _) = Invocation::start(1000, 0);
    assert_eq!(invocation.step(InvokerEvent::DeadlineElapsed), InvokerAction::DeleteRegistration);
    clean_up(&mut invocation);
    assert_eq!(
        invocation.report(),
        Some(ExecutionReport::BackendFailure(
            "the isolation backend answered out of turn".to_string()
        ))
    );
}

#[test]
fn output_that_is_not_text_is_a_failure() {
    let mut invocation = launched(1000, 0);
    invocation.step(InvokerEvent::Exited(exit_with(Some(0), None, &[0xff])));
    clean_up(&mut invocation);
    assert_eq!(
        invocation.report(),
        Some(ExecutionReport::BackendFailure(
            "the output of the process is not valid UTF-8".to_string()
        ))
    );
}

#[test]
fn every_path_finishes_within_seven_events() {
    let events = [
        InvokerEvent::Done,
        InvokerEvent::Failed("x".to_string()),
        InvokerEvent::DeadlineElapsed,
        InvokerEvent::OutputCapExceeded,
        InvokerEvent::CancelRequested,
        InvokerEvent::Exited(exit_with(Some(0), None, b"")),
        InvokerEvent::Refused("r".to_string()),
    ];
    for first in &events {
        for rest in &events {
            let (mut invocation, _) = Invocation::start(10, 10);
            let mut action = invocation.step(first.clone());
            let mut steps = 1;
            while action != InvokerAction::Report {
                action = invocation.step(rest.clone());
                steps += 1;
                assert!(steps <= 7);
            }
            let refused = matches!(first, InvokerEvent::Refused(_));
            assert_eq!(invocation.refused, refused);
            assert_eq!(invocation.delete_issued, !refused);
            assert_eq!(invocation.remove_issued, !refused);
            assert!(invocation.report().is_some());
        }
    }
}
