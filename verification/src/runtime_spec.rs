//! The isolation document: what a container runtime is told about the
//! process it is to run.
//!
//! The document gives the process no privilege at all: every capability set
//! is empty, every device is denied, and the root of the new environment is
//! mapped to one unprivileged host identity. It puts the process in fresh
//! namespaces of every kind, shows it the host's system directories
//! read-only and a private scratch directory of bounded size, and caps its
//! memory and the number of its processes. The time limit is not part of
//! the document: the invoker enforces it.

use vstd::prelude::*;
use vstd::string::*;
use crate::texts::{duplicate_texts, text_views};

verus! {

/// The host identity that the root of the new environment is mapped to.
pub const UNPRIVILEGED_HOST_ID: u32 = 1000;

/// The largest number that a resource ceiling can hold in the document,
/// whose numbers are signed and 64 bits wide.
pub const CEILING_MAX: u64 = 0x7fff_ffff_ffff_ffff;

/// The number of processes and threads that a sandbox may hold where the
/// deployment names no other.
pub const DEFAULT_MAX_PROCESSES: u64 = 64;

/// A kind of namespace that the process gets afresh.
#[derive(Debug, Clone, Copy, PartialEq, Eq, Structural)]
pub enum NamespaceKind {
    Pid,
    Network,
    Ipc,
    Uts,
    Mount,
    User,
}

/// A range of identities inside the new environment mapped to identities
/// of the host.
#[derive(Debug, Clone, Copy, PartialEq, Eq, Structural)]
pub struct IdMapping {
    /// The first identity inside
    pub container_id: u32,
    /// The first identity on the host
    pub host_id: u32,
    /// The number of identities mapped
    pub size: u32,
}

/// One mount of the new environment.
#[derive(Debug, Clone, PartialEq, Eq)]
pub struct MountPoint {
    /// Where it is mounted, inside
    pub destination: String,
    /// The type of the file system
    pub kind: String,
    /// What is mounted
    pub source: String,
    /// The mount options; none are written where the list is empty
    pub options: Vec<String>,
}

/// The mathematical content of a [`MountPoint`].
pub struct MountView {
    pub destination: Seq<char>,
    pub kind: Seq<char>,
    pub source: Seq<char>,
    pub options: Seq<Seq<char>>,
}

impl View for MountPoint {
    type V = MountView;

    open spec fn view(&self) -> MountView {
        MountView {
            destination: self.destination@,
            kind: self.kind@,
            source: self.source@,
            options: text_views(self.options@),
        }
    }
}

/// The five capability sets of a process.
#[derive(Debug, Clone, PartialEq, Eq)]
pub struct CapabilitySets {
    pub bounding: Vec<String>,
    pub effective: Vec<String>,
    pub inheritable: Vec<String>,
    pub permitted: Vec<String>,
    pub ambient: Vec<String>,
}

/// The process to run.
#[derive(Debug, Clone, PartialEq, Eq)]
pub struct ProcessSpec {
    /// Whether the process gets a terminal
    pub terminal: bool,
    /// The user inside the new environment
    pub uid: u32,
    /// The group inside the new environment
    pub gid: u32,
    /// The command and its arguments
    pub args: Vec<String>,
    /// The environment variables, each as `NAME=value`
    pub env: Vec<String>,
    /// The working directory
    pub cwd: String,
    /// The capability sets
    pub capabilities: CapabilitySets,
}

/// The resources that the process may use.
#[derive(Debug, Clone, PartialEq, Eq)]
pub struct ResourceLimits {
    /// Whether the one device rule allows or denies
    pub devices_allowed: bool,
    /// The kinds of access that the device rule speaks of
    pub device_access: String,
    /// The memory ceiling in bytes
    pub memory_limit_bytes: u64,
    /// The ceiling on the number of processes and threads
    pub pids_limit: u64,
}

/// The whole isolation document.
#[derive(Debug, Clone, PartialEq, Eq)]
pub struct RuntimeSpec {
    /// The version of the document's schema
    pub oci_version: String,
    /// The process to run
    pub process: ProcessSpec,
    /// The root of the new environment on the host
    pub root_path: String,
    /// Whether that root is read-only
    pub root_readonly: bool,
    /// The host name inside
    pub hostname: String,
    /// The mounts, in the order in which they are made
    pub mounts: Vec<MountPoint>,
    /// The resource limits
    pub resources: ResourceLimits,
    /// The namespaces that are made afresh
    pub namespaces: Vec<NamespaceKind>,
    /// The mapping of user identities
    pub uid_mappings: Vec<IdMapping>,
    /// The mapping of group identities
    pub gid_mappings: Vec<IdMapping>,
}

/// The views of a sequence of mounts, element by element.
pub open spec fn mount_views(mounts: Seq<MountPoint>) -> Seq<MountView> {
    Seq::new(mounts.len(), |i: int| mounts[i]@)
}

/// The mathematical content of [`CapabilitySets`].
pub struct CapabilityView {
    pub bounding: Seq<Seq<char>>,
    pub effective: Seq<Seq<char>>,
    pub inheritable: Seq<Seq<char>>,
    pub permitted: Seq<Seq<char>>,
    pub ambient: Seq<Seq<char>>,
}

impl View for CapabilitySets {
    type V = CapabilityView;

    open spec fn view(&self) -> CapabilityView {
        CapabilityView {
            bounding: text_views(self.bounding@),
            effective: text_views(self.effective@),
            inheritable: text_views(self.inheritable@),
            permitted: text_views(self.permitted@),
            ambient: text_views(self.ambient@),
        }
    }
}

/// The mathematical content of a [`ProcessSpec`].
pub struct ProcessView {
    pub terminal: bool,
    pub uid: u32,
    pub gid: u32,
    pub args: Seq<Seq<char>>,
    pub env: Seq<Seq<char>>,
    pub cwd: Seq<char>,
    pub capabilities: CapabilityView,
}

impl View for ProcessSpec {
    type V = ProcessView;

    open spec fn view(&self) -> ProcessView {
        ProcessView {
            terminal: self.terminal,
            uid: self.uid,
            gid: self.gid,
            args: text_views(self.args@),
            env: text_views(self.env@),
            cwd: self.cwd@,
            capabilities: self.capabilities@,
        }
    }
}

/// The mathematical content of [`ResourceLimits`].
pub struct ResourceView {
    pub devices_allowed: bool,
    pub device_access: Seq<char>,
    pub memory_limit_bytes: u64,
    pub pids_limit: u64,
}

impl View for ResourceLimits {
    type V = ResourceView;

    open spec fn view(&self) -> ResourceView {
        ResourceView {
            devices_allowed: self.devices_allowed,
            device_access: self.device_access@,
            memory_limit_bytes: self.memory_limit_bytes,
            pids_limit: self.pids_limit,
        }
    }
}

/// The mathematical content of a [`RuntimeSpec`].
pub struct RuntimeSpecView {
    pub oci_version: Seq<char>,
    pub process: ProcessView,
    pub root_path: Seq<char>,
    pub root_readonly: bool,
    pub hostname: Seq<char>,
    pub mounts: Seq<MountView>,
    pub resources: ResourceView,
    pub namespaces: Seq<NamespaceKind>,
    pub uid_mappings: Seq<IdMapping>,
    pub gid_mappings: Seq<IdMapping>,
}

impl View for RuntimeSpec {
    type V = RuntimeSpecView;

    open spec fn view(&self) -> RuntimeSpecView {
        RuntimeSpecView {
            oci_version: self.oci_version@,
            process: self.process@,
            root_path: self.root_path@,
            root_readonly: self.root_readonly,
            hostname: self.hostname@,
            mounts: mount_views(self.mounts@),
            resources: self.resources@,
            namespaces: self.namespaces@,
            uid_mappings: self.uid_mappings@,
            gid_mappings: self.gid_mappings@,
        }
    }
}

/// The document for running `command` with `args` in the environment `env`
/// and the working directory `cwd`, in the sandbox rooted at `rootfs`,
/// under a memory limit in kilobytes and a ceiling on the number of
/// processes.
pub open spec fn sandbox_document(
    rootfs: Seq<char>,
    command: Seq<char>,
    args: Seq<Seq<char>>,
    env: Seq<Seq<char>>,
    cwd: Seq<char>,
    memory_limit_kb: u64,
    max_processes: u64,
) -> RuntimeSpecView {
    RuntimeSpecView {
        oci_version: "1.0.0"@,
        process: ProcessView {
            terminal: false,
            uid: 0,
            gid: 0,
            args: seq![command] + args,
            env,
            cwd,
            capabilities: CapabilityView {
                bounding: Seq::empty(),
                effective: Seq::empty(),
                inheritable: Seq::empty(),
                permitted: Seq::empty(),
                ambient: Seq::empty(),
            },
        },
        root_path: rootfs,
        root_readonly: false,
        hostname: "sandbox"@,
        mounts: standard_mounts(),
        resources: ResourceView {
            devices_allowed: false,
            device_access: "rwm"@,
            memory_limit_bytes: memory_ceiling(memory_limit_kb),
            pids_limit: process_ceiling(max_processes),
        },
        namespaces: standard_namespaces(),
        uid_mappings: standard_mapping(),
        gid_mappings: standard_mapping(),
    }
}

/// The options of a read-only bind mount of a host directory.
pub open spec fn read_only_bind_options() -> Seq<Seq<char>> {
    seq!["rbind"@, "ro"@, "nosuid"@, "nodev"@]
}

/// A read-only bind mount of the host directory `source` at `destination`.
pub open spec fn read_only_bind(destination: Seq<char>, source: Seq<char>) -> MountView {
    MountView { destination, kind: "bind"@, source, options: read_only_bind_options() }
}

/// The mounts of every sandbox: `proc`, a small `/dev`, the host's system
/// directories read-only, and the scratch directory.
pub open spec fn standard_mounts() -> Seq<MountView> {
    seq![
        MountView { destination: "/proc"@, kind: "proc"@, source: "proc"@, options: Seq::empty() },
        MountView {
            destination: "/dev"@,
            kind: "tmpfs"@,
            source: "tmpfs"@,
            options: seq!["nosuid"@, "strictatime"@, "mode=755"@, "size=65536k"@],
        },
        read_only_bind("/bin"@, "/usr/bin"@),
        read_only_bind("/usr/bin"@, "/usr/bin"@),
        read_only_bind("/lib"@, "/lib"@),
        read_only_bind("/lib64"@, "/lib64"@),
        read_only_bind("/usr/lib"@, "/usr/lib"@),
        read_only_bind("/usr/lib64"@, "/usr/lib64"@),
        MountView {
            destination: "/workspace"@,
            kind: "tmpfs"@,
            source: "tmpfs"@,
            options: seq!["rw"@, "nosuid"@, "nodev"@, "size=1048576k"@],
        },
    ]
}

/// The namespaces of every sandbox.
pub open spec fn standard_namespaces() -> Seq<NamespaceKind> {
    seq![
        NamespaceKind::Pid,
        NamespaceKind::Network,
        NamespaceKind::Ipc,
        NamespaceKind::Uts,
        NamespaceKind::Mount,
        NamespaceKind::User,
    ]
}

/// The identity mapping of every sandbox: the root inside is one
/// unprivileged identity of the host, and nothing else is mapped.
pub open spec fn standard_mapping() -> Seq<IdMapping> {
    seq![IdMapping { container_id: 0, host_id: UNPRIVILEGED_HOST_ID, size: 1 }]
}

/// The environment of a sandboxed process where the caller names no other.
pub open spec fn standard_env() -> Seq<Seq<char>> {
    seq!["PATH=/bin:/usr/bin:/usr/local/bin"@, "HOME=/root"@, "TERM=xterm"@]
}

/// The memory ceiling in bytes for a limit in kilobytes, held to the
/// largest number the document can carry.
pub open spec fn memory_ceiling(memory_limit_kb: u64) -> u64 {
    if memory_limit_kb as int * 1024 > CEILING_MAX as int {
        CEILING_MAX
    } else {
        (memory_limit_kb as int * 1024) as u64
    }
}

/// The ceiling on the number of processes, held to the largest number the
/// document can carry.
pub open spec fn process_ceiling(max_processes: u64) -> u64 {
    if max_processes > CEILING_MAX {
        CEILING_MAX
    } else {
        max_processes
    }
}

impl CapabilitySets {
    /// No set holds any capability.
    pub open spec fn all_empty(&self) -> bool {
        &&& self.bounding@.len() == 0
        &&& self.effective@.len() == 0
        &&& self.inheritable@.len() == 0
        &&& self.permitted@.len() == 0
        &&& self.ambient@.len() == 0
    }

    /// Returns capability sets that are all empty.
    pub fn none() -> (sets: CapabilitySets)
        ensures
            sets.all_empty(),
            sets@ == (CapabilityView {
                bounding: Seq::empty(),
                effective: Seq::empty(),
                inheritable: Seq::empty(),
                permitted: Seq::empty(),
                ambient: Seq::empty(),
            }),
    {
        let sets = CapabilitySets {
            bounding: Vec::new(),
            effective: Vec::new(),
            inheritable: Vec::new(),
            permitted: Vec::new(),
            ambient: Vec::new(),
        };
        assert(text_views(Seq::<String>::empty()) =~= Seq::<Seq<char>>::empty());
        sets
    }
}

impl NamespaceKind {
    /// The name of the namespace kind in the document.
    pub open spec fn spec_as_str(self) -> Seq<char> {
        match self {
            NamespaceKind::Pid => "pid"@,
            NamespaceKind::Network => "network"@,
            NamespaceKind::Ipc => "ipc"@,
            NamespaceKind::Uts => "uts"@,
            NamespaceKind::Mount => "mount"@,
            NamespaceKind::User => "user"@,
        }
    }

    /// Returns the name of the namespace kind in the document.
    pub fn as_str(&self) -> (name: &'static str)
        ensures
            name@ == self.spec_as_str(),
    {
        match self {
            NamespaceKind::Pid => "pid",
            NamespaceKind::Network => "network",
            NamespaceKind::Ipc => "ipc",
            NamespaceKind::Uts => "uts",
            NamespaceKind::Mount => "mount",
            NamespaceKind::User => "user",
        }
    }
}

impl RuntimeSpec {
    /// The document is the one for running `command` with `args` in the
    /// environment `env` and the working directory `cwd`, in the sandbox
    /// rooted at `rootfs`, under a memory limit in kilobytes and a ceiling
    /// on the number of processes.
    pub open spec fn describes(
        &self,
        rootfs: Seq<char>,
        command: Seq<char>,
        args: Seq<Seq<char>>,
        env: Seq<Seq<char>>,
        cwd: Seq<char>,
        memory_limit_kb: u64,
        max_processes: u64,
    ) -> bool {
        self@ == sandbox_document(rootfs, command, args, env, cwd, memory_limit_kb, max_processes)
    }
}

/// Returns a mount with the given options.
pub fn mount_point(destination: &str, kind: &str, source: &str, options: Vec<String>) -> (mount:
    MountPoint)
    ensures
        mount@ == (MountView {
            destination: destination@,
            kind: kind@,
            source: source@,
            options: text_views(options@),
        }),
{
    MountPoint {
        destination: destination.to_string(),
        kind: kind.to_string(),
        source: source.to_string(),
        options,
    }
}

/// Returns a read-only bind mount of the host directory `source` at
/// `destination`.
pub fn bind_read_only(destination: &str, source: &str) -> (mount: MountPoint)
    ensures
        mount@ == read_only_bind(destination@, source@),
{
    let mut options: Vec<String> = Vec::new();
    options.push("rbind".to_string());
    options.push("ro".to_string());
    options.push("nosuid".to_string());
    options.push("nodev".to_string());
    assert(text_views(options@) =~= read_only_bind_options());
    mount_point(destination, "bind", source, options)
}

/// Returns the mounts of every sandbox, in the order in which they are made.
pub fn sandbox_mounts() -> (mounts: Vec<MountPoint>)
    ensures
        mount_views(mounts@) == standard_mounts(),
{
    let mut mounts: Vec<MountPoint> = Vec::new();
    mounts.push(mount_point("/proc", "proc", "proc", Vec::new()));
    assert(text_views(Seq::<String>::empty()) =~= Seq::<Seq<char>>::empty());

    let mut dev: Vec<String> = Vec::new();
    dev.push("nosuid".to_string());
    dev.push("strictatime".to_string());
    dev.push("mode=755".to_string());
    dev.push("size=65536k".to_string());
    assert(text_views(dev@) =~= seq!["nosuid"@, "strictatime"@, "mode=755"@, "size=65536k"@]);
    mounts.push(mount_point("/dev", "tmpfs", "tmpfs", dev));

    mounts.push(bind_read_only("/bin", "/usr/bin"));
    mounts.push(bind_read_only("/usr/bin", "/usr/bin"));
    mounts.push(bind_read_only("/lib", "/lib"));
    mounts.push(bind_read_only("/lib64", "/lib64"));
    mounts.push(bind_read_only("/usr/lib", "/usr/lib"));
    mounts.push(bind_read_only("/usr/lib64", "/usr/lib64"));

    let mut scratch: Vec<String> = Vec::new();
    scratch.push("rw".to_string());
    scratch.push("nosuid".to_string());
    scratch.push("nodev".to_string());
    scratch.push("size=1048576k".to_string());
    assert(text_views(scratch@) =~= seq!["rw"@, "nosuid"@, "nodev"@, "size=1048576k"@]);
    mounts.push(mount_point("/workspace", "tmpfs", "tmpfs", scratch));

    assert(mount_views(mounts@) =~= standard_mounts());
    mounts
}

/// Returns the namespaces of every sandbox.
pub fn sandbox_namespaces() -> (kinds: Vec<NamespaceKind>)
    ensures
        kinds@ == standard_namespaces(),
{
    let mut kinds: Vec<NamespaceKind> = Vec::new();
    kinds.push(NamespaceKind::Pid);
    kinds.push(NamespaceKind::Network);
    kinds.push(NamespaceKind::Ipc);
    kinds.push(NamespaceKind::Uts);
    kinds.push(NamespaceKind::Mount);
    kinds.push(NamespaceKind::User);
    assert(kinds@ =~= standard_namespaces());
    kinds
}

/// Returns the identity mapping of every sandbox.
pub fn sandbox_mapping() -> (mapping: Vec<IdMapping>)
    ensures
        mapping@ == standard_mapping(),
{
    let mut mapping: Vec<IdMapping> = Vec::new();
    mapping.push(IdMapping { container_id: 0, host_id: UNPRIVILEGED_HOST_ID, size: 1 });
    assert(mapping@ =~= standard_mapping());
    mapping
}

/// Returns the environment of a sandboxed process where the caller names
/// no other.
pub fn default_env() -> (env: Vec<String>)
    ensures
        text_views(env@) == standard_env(),
{
    let mut env: Vec<String> = Vec::new();
    env.push("PATH=/bin:/usr/bin:/usr/local/bin".to_string());
    env.push("HOME=/root".to_string());
    env.push("TERM=xterm".to_string());
    assert(text_views(env@) =~= standard_env());
    env
}

/// Returns the memory ceiling in bytes for a limit in kilobytes.
pub fn memory_ceiling_bytes(memory_limit_kb: u64) -> (bytes: u64)
    ensures
        bytes == memory_ceiling(memory_limit_kb),
        bytes <= CEILING_MAX,
{
    if memory_limit_kb > CEILING_MAX / 1024 {
        CEILING_MAX
    } else {
        memory_limit_kb * 1024
    }
}

/// Builds the isolation document for running `command` with `args` in the
/// sandbox rooted at `rootfs`.
pub fn build_spec(
    rootfs: &str,
    command: &str,
    args: &Vec<String>,
    env: &Vec<String>,
    cwd: &str,
    memory_limit_kb: u64,
    max_processes: u64,
) -> (spec: RuntimeSpec)
    ensures
        spec.describes(
            rootfs@,
            command@,
            text_views(args@),
            text_views(env@),
            cwd@,
            memory_limit_kb,
            max_processes,
        ),
{
    let mut full_args: Vec<String> = Vec::new();
    full_args.push(command.to_string());
    let mut i: usize = 0;
    while i < args.len()
        invariant
            i <= args@.len(),
            full_args@.len() == i + 1,
            full_args@[0]@ == command@,
            forall|k: int| 1 <= k <= i ==> #[trigger] full_args@[k] == args@[k - 1],
        decreases args@.len() - i,
    {
        full_args.push(args[i].clone());
        i = i + 1;
    }
    assert(text_views(full_args@) =~= seq![command@] + text_views(args@));
    let env_copy = duplicate_texts(env);
    let pids_limit = if max_processes > CEILING_MAX {
        CEILING_MAX
    } else {
        max_processes
    };
    RuntimeSpec {
        oci_version: "1.0.0".to_string(),
        process: ProcessSpec {
            terminal: false,
            uid: 0,
            gid: 0,
            args: full_args,
            env: env_copy,
            cwd: cwd.to_string(),
            capabilities: CapabilitySets::none(),
        },
        root_path: rootfs.to_string(),
        root_readonly: false,
        hostname: "sandbox".to_string(),
        mounts: sandbox_mounts(),
        resources: ResourceLimits {
            devices_allowed: false,
            device_access: "rwm".to_string(),
            memory_limit_bytes: memory_ceiling_bytes(memory_limit_kb),
            pids_limit,
        },
        namespaces: sandbox_namespaces(),
        uid_mappings: sandbox_mapping(),
        gid_mappings: sandbox_mapping(),
    }
}

/// Every sandbox document confines its process, whatever is run and under
/// whatever limits. The process holds no capability and gets no terminal;
/// every device is denied; memory and the number of processes have a
/// ceiling, the memory ceiling being the limit itself wherever the document
/// can carry it; a namespace of every kind is made afresh; the root inside
/// is mapped to one host identity, which is not the host's root; and every
/// directory of the host that is shown inside is shown read-only.
pub proof fn lemma_sandbox_is_confined(
    rootfs: Seq<char>,
    command: Seq<char>,
    args: Seq<Seq<char>>,
    env: Seq<Seq<char>>,
    cwd: Seq<char>,
    memory_limit_kb: u64,
    max_processes: u64,
)
    ensures
        ({
            let doc = sandbox_document(
                rootfs,
                command,
                args,
                env,
                cwd,
                memory_limit_kb,
                max_processes,
            );
            &&& doc.process.capabilities.bounding.len() == 0
            &&& doc.process.capabilities.effective.len() == 0
            &&& doc.process.capabilities.inheritable.len() == 0
            &&& doc.process.capabilities.permitted.len() == 0
            &&& doc.process.capabilities.ambient.len() == 0
            &&& !doc.process.terminal
            &&& !doc.resources.devices_allowed
            &&& doc.resources.memory_limit_bytes <= CEILING_MAX
            &&& memory_limit_kb * 1024 <= CEILING_MAX ==> doc.resources.memory_limit_bytes
                == memory_limit_kb * 1024
            &&& doc.resources.pids_limit <= max_processes
            &&& doc.resources.pids_limit <= CEILING_MAX
            &&& forall|kind: NamespaceKind| doc.namespaces.contains(kind)
            &&& doc.uid_mappings == doc.gid_mappings
            &&& doc.uid_mappings.len() == 1
            &&& doc.uid_mappings[0].container_id == 0
            &&& doc.uid_mappings[0].size == 1
            &&& doc.uid_mappings[0].host_id != 0
            &&& forall|i: int|
                0 <= i < doc.mounts.len() && (#[trigger] doc.mounts[i]).kind == "bind"@
                    ==> doc.mounts[i].options.contains("ro"@)
        }),
{
    let doc = sandbox_document(rootfs, command, args, env, cwd, memory_limit_kb, max_processes);
    assert forall|kind: NamespaceKind| doc.namespaces.contains(kind) by {
        let all = standard_namespaces();
        match kind {
            NamespaceKind::Pid => assert(all[0] == kind),
            NamespaceKind::Network => assert(all[1] == kind),
            NamespaceKind::Ipc => assert(all[2] == kind),
            NamespaceKind::Uts => assert(all[3] == kind),
            NamespaceKind::Mount => assert(all[4] == kind),
            NamespaceKind::User => assert(all[5] == kind),
        }
    }
    assert forall|i: int|
        0 <= i < doc.mounts.len() && (#[trigger] doc.mounts[i]).kind
            == "bind"@ implies doc.mounts[i].options.contains("ro"@) by {
        reveal_strlit("bind");
        reveal_strlit("proc");
        reveal_strlit("tmpfs");
        assert("proc"@[0] != "bind"@[0]);
        assert("tmpfs"@.len() != "bind"@.len());
        assert(read_only_bind_options()[1] == "ro"@);
    }
}

} // verus!
