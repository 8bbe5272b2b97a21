//! A sandbox instance and the plan for running one command in it.
//!
//! The library decides what is to be done: which directories make up the
//! root file system, where the isolation document is written and what it
//! says, and with which arguments the container runtime is called. Doing
//! it, on the file system and with the runtime, is the caller's part.

use vstd::prelude::*;
use vstd::string::*;
use crate::capture::decode_stream;
use crate::identity::{fresh_instance_id, is_hyphenated_id};
use crate::texts::text_views;
use crate::render::document_json;
use crate::runtime_spec::{build_spec, default_env, sandbox_document, standard_env, RuntimeSpec};
use crate::text::{outputs_match, ComparisonPolicy};
use vstd::utf8::*;

verus! {

/// The program that is called to run a container.
pub const RUNTIME_PROGRAM: &'static str = "runc";

/// An ephemeral execution environment: an identity under which the
/// container runtime knows it, and a private root file system.
#[derive(Debug, Clone, PartialEq, Eq)]
pub struct ContainerSandbox {
    container_id: String,
    rootfs: String,
}

/// Why a command in a sandbox gave no output to return.
#[derive(Debug, Clone, PartialEq, Eq)]
pub enum CommandError {
    /// The command did not succeed; the text is what it wrote to standard
    /// error.
    Failed(String),
    /// A stream of the command was not valid UTF-8.
    NotUtf8,
}

/// The directories that are created below the root to make the skeleton of
/// a root file system, in the order of their creation. Creating one creates
/// the directories above it too.
pub open spec fn skeleton_dirs() -> Seq<Seq<char>> {
    seq![
        "/bin"@,
        "/usr/bin"@,
        "/lib"@,
        "/lib64"@,
        "/etc"@,
        "/proc"@,
        "/sys"@,
        "/dev"@,
        "/dev/pts"@,
        "/dev/shm"@,
        "/workspace"@,
    ]
}

/// Every directory that a provisioned root file system holds below its
/// root: the directories of the skeleton, and `/usr`, the one directory
/// that lies above one of them without being one itself.
pub open spec fn skeleton_tree() -> Seq<Seq<char>> {
    skeleton_dirs().push("/usr"@)
}

/// `above` is a directory above `path`: `path` is `above`, a slash, and
/// more.
pub open spec fn is_above(above: Seq<char>, path: Seq<char>) -> bool {
    &&& 0 < above.len() < path.len()
    &&& path.take(above.len() as int) == above
    &&& path[above.len() as int] == '/'
}

/// The directories to create for a root file system at `rootfs`: the root
/// itself, then each directory of the skeleton below it.
pub open spec fn skeleton_paths(rootfs: Seq<char>) -> Seq<Seq<char>> {
    seq![rootfs] + Seq::new(skeleton_dirs().len(), |i: int| rootfs + skeleton_dirs()[i])
}

/// The identity under which the container runtime knows the sandbox
/// instance with the token `instance_id`.
pub open spec fn instance_container_id(instance_id: Seq<char>) -> Seq<char> {
    "judge-"@ + instance_id
}

/// The root file system of the sandbox instance with the token
/// `instance_id`, below the directory `base`.
pub open spec fn instance_rootfs(base: Seq<char>, instance_id: Seq<char>) -> Seq<char> {
    base + "/"@ + instance_container_id(instance_id)
}

/// The message of a command that did not succeed.
pub open spec fn failure_message(stderr: Seq<char>) -> Seq<char> {
    "Command failed: "@ + stderr
}

/// What a command's run comes to: its standard output where it succeeded,
/// and an error where it failed or where the stream that is read was not
/// valid UTF-8.
pub open spec fn command_outcome(success: bool, stdout: Seq<u8>, stderr: Seq<u8>) -> Result<
    Seq<char>,
    Option<Seq<char>>,
> {
    if success {
        if valid_utf8(stdout) {
            Ok(decode_utf8(stdout))
        } else {
            Err(None)
        }
    } else {
        if valid_utf8(stderr) {
            Err(Some(decode_utf8(stderr)))
        } else {
            Err(None)
        }
    }
}

impl CommandError {
    /// The text of the error.
    pub open spec fn spec_message(&self) -> Seq<char> {
        match self {
            CommandError::Failed(stderr) => failure_message(stderr@),
            CommandError::NotUtf8 => "invalid utf-8 sequence in the output of the command"@,
        }
    }

    /// Returns the text of the error.
    pub fn to_string(&self) -> (text: String)
        ensures
            text@ == self.spec_message(),
    {
        match self {
            CommandError::Failed(stderr) => {
                let mut text = "Command failed: ".to_string();
                text.append(stderr.as_str());
                text
            },
            CommandError::NotUtf8 => "invalid utf-8 sequence in the output of the command"
                .to_string(),
        }
    }
}

impl ContainerSandbox {
    /// The identity under which the container runtime knows the sandbox.
    pub closed spec fn spec_container_id(&self) -> Seq<char> {
        self.container_id@
    }

    /// The path of the root file system, which is also the bundle that the
    /// container runtime is pointed at.
    pub closed spec fn spec_rootfs(&self) -> Seq<char> {
        self.rootfs@
    }

    /// Describes a sandbox with the given identity and root file system.
    /// Nothing is created yet: [`ContainerSandbox::skeleton`] lists the
    /// directories to create.
    pub fn new(container_id: &str, rootfs: &str) -> (sandbox: ContainerSandbox)
        ensures
            sandbox.spec_container_id() == container_id@,
            sandbox.spec_rootfs() == rootfs@,
    {
        ContainerSandbox { container_id: container_id.to_string(), rootfs: rootfs.to_string() }
    }

    /// Describes the sandbox instance with the token `instance_id`, whose
    /// root file system lies below the directory `base`.
    pub fn for_instance(base: &str, instance_id: &str) -> (sandbox: ContainerSandbox)
        ensures
            sandbox.spec_container_id() == instance_container_id(instance_id@),
            sandbox.spec_rootfs() == instance_rootfs(base@, instance_id@),
    {
        let mut container_id = "judge-".to_string();
        container_id.append(instance_id);
        let mut rootfs = base.to_string();
        rootfs.append("/");
        rootfs.append(container_id.as_str());
        ContainerSandbox { container_id, rootfs }
    }

    /// Describes a sandbox instance with a fresh identity, whose root file
    /// system lies below the directory `base`. The identity is drawn at
    /// random for this one invocation.
    pub fn fresh(base: &str) -> (sandbox: ContainerSandbox)
        ensures
            exists|instance_id: Seq<char>|
                is_hyphenated_id(instance_id) && sandbox.spec_container_id()
                    == instance_container_id(instance_id) && sandbox.spec_rootfs()
                    == instance_rootfs(base@, instance_id),
    {
        let token = fresh_instance_id();
        let sandbox = ContainerSandbox::for_instance(base, token.as_str());
        assert(is_hyphenated_id(token@) && sandbox.spec_container_id() == instance_container_id(
            token@,
        ) && sandbox.spec_rootfs() == instance_rootfs(base@, token@));
        sandbox
    }

    /// Returns the identity under which the container runtime knows the
    /// sandbox.
    pub fn container_id(&self) -> (id: &str)
        ensures
            id@ == self.spec_container_id(),
    {
        self.container_id.as_str()
    }

    /// Returns the path of the root file system.
    pub fn rootfs(&self) -> (path: &str)
        ensures
            path@ == self.spec_rootfs(),
    {
        self.rootfs.as_str()
    }

    /// Returns the path of `below`, a path with a leading slash, under the
    /// root file system.
    fn under_root(&self, below: &str) -> (path: String)
        ensures
            path@ == self.spec_rootfs() + below@,
    {
        let mut path = self.rootfs.clone();
        path.append(below);
        path
    }

    /// Returns the directories to create, in this order, so that the root
    /// file system has its skeleton.
    pub fn skeleton(&self) -> (paths: Vec<String>)
        ensures
            text_views(paths@) == skeleton_paths(self.spec_rootfs()),
    {
        let mut paths: Vec<String> = Vec::new();
        paths.push(self.rootfs.clone());
        paths.push(self.under_root("/bin"));
        paths.push(self.under_root("/usr/bin"));
        paths.push(self.under_root("/lib"));
        paths.push(self.under_root("/lib64"));
        paths.push(self.under_root("/etc"));
        paths.push(self.under_root("/proc"));
        paths.push(self.under_root("/sys"));
        paths.push(self.under_root("/dev"));
        paths.push(self.under_root("/dev/pts"));
        paths.push(self.under_root("/dev/shm"));
        paths.push(self.under_root("/workspace"));
        assert(text_views(paths@) =~= skeleton_paths(self.spec_rootfs()));
        paths
    }

    /// Returns the path on the host of a file that is at `inside` in the
    /// sandbox: the root, a slash, and `inside`.
    pub fn host_path(&self, inside: &str) -> (path: String)
        ensures
            path@ == self.spec_rootfs() + "/"@ + inside@,
    {
        let mut path = self.under_root("/");
        path.append(inside);
        path
    }

    /// Returns the path at which the isolation document is written.
    pub fn config_path(&self) -> (path: String)
        ensures
            path@ == self.spec_rootfs() + "/config.json"@,
    {
        self.under_root("/config.json")
    }

    /// Returns the isolation document for running `command` with `args` in
    /// this sandbox, in the standard environment and the scratch directory,
    /// under a memory limit in kilobytes and a ceiling on processes.
    pub fn container_spec(
        &self,
        command: &str,
        args: &Vec<String>,
        memory_limit_kb: u64,
        max_processes: u64,
    ) -> (spec: RuntimeSpec)
        ensures
            spec.describes(
                self.spec_rootfs(),
                command@,
                text_views(args@),
                standard_env(),
                "/workspace"@,
                memory_limit_kb,
                max_processes,
            ),
    {
        let env = default_env();
        build_spec(
            self.rootfs.as_str(),
            command,
            args,
            &env,
            "/workspace",
            memory_limit_kb,
            max_processes,
        )
    }

    /// Returns the text of the isolation document for running `command`
    /// with `args` in this sandbox.
    pub fn container_config(
        &self,
        command: &str,
        args: &Vec<String>,
        memory_limit_kb: u64,
        max_processes: u64,
    ) -> (text: String)
        ensures
            text@ == document_json(
                sandbox_document(
                    self.spec_rootfs(),
                    command@,
                    text_views(args@),
                    standard_env(),
                    "/workspace"@,
                    memory_limit_kb,
                    max_processes,
                ),
            ),
    {
        self.container_spec(command, args, memory_limit_kb, max_processes).to_json()
    }

    /// Returns the arguments with which the container runtime runs the
    /// sandbox: `run`, `--bundle`, the root, the identity.
    pub fn run_arguments(&self) -> (arguments: Vec<String>)
        ensures
            text_views(arguments@) == seq![
                "run"@,
                "--bundle"@,
                self.spec_rootfs(),
                self.spec_container_id(),
            ],
    {
        let mut arguments: Vec<String> = Vec::new();
        arguments.push("run".to_string());
        arguments.push("--bundle".to_string());
        arguments.push(self.rootfs.clone());
        arguments.push(self.container_id.clone());
        assert(text_views(arguments@) =~= seq![
            "run"@,
            "--bundle"@,
            self.spec_rootfs(),
            self.spec_container_id(),
        ]);
        arguments
    }

    /// Returns the arguments with which the container runtime terminates
    /// every process of the sandbox: `kill`, `--all`, the identity, `KILL`.
    pub fn kill_arguments(&self) -> (arguments: Vec<String>)
        ensures
            text_views(arguments@) == seq![
                "kill"@,
                "--all"@,
                self.spec_container_id(),
                "KILL"@,
            ],
    {
        let mut arguments: Vec<String> = Vec::new();
        arguments.push("kill".to_string());
        arguments.push("--all".to_string());
        arguments.push(self.container_id.clone());
        arguments.push("KILL".to_string());
        assert(text_views(arguments@) =~= seq![
            "kill"@,
            "--all"@,
            self.spec_container_id(),
            "KILL"@,
        ]);
        arguments
    }

    /// Returns the arguments with which the container runtime forgets the
    /// sandbox: `delete`, the identity.
    pub fn delete_arguments(&self) -> (arguments: Vec<String>)
        ensures
            text_views(arguments@) == seq!["delete"@, self.spec_container_id()],
    {
        let mut arguments: Vec<String> = Vec::new();
        arguments.push("delete".to_string());
        arguments.push(self.container_id.clone());
        assert(text_views(arguments@) =~= seq!["delete"@, self.spec_container_id()]);
        arguments
    }
}

/// Returns the directories of the skeleton, as paths below the root.
pub fn skeleton_names() -> (names: Vec<String>)
    ensures
        text_views(names@) == skeleton_dirs(),
{
    let mut names: Vec<String> = Vec::new();
    names.push("/bin".to_string());
    names.push("/usr/bin".to_string());
    names.push("/lib".to_string());
    names.push("/lib64".to_string());
    names.push("/etc".to_string());
    names.push("/proc".to_string());
    names.push("/sys".to_string());
    names.push("/dev".to_string());
    names.push("/dev/pts".to_string());
    names.push("/dev/shm".to_string());
    names.push("/workspace".to_string());
    assert(text_views(names@) =~= skeleton_dirs());
    names
}

/// Returns whether `name` is among `names`.
pub fn is_listed(name: &str, names: &Vec<String>) -> (listed: bool)
    ensures
        listed == text_views(names@).contains(name@),
{
    let ghost all = text_views(names@);
    let mut j: usize = 0;
    while j < names.len()
        invariant
            j <= names@.len(),
            all == text_views(names@),
            forall|k: int| 0 <= k < j ==> all[k] != name@,
        decreases names@.len() - j,
    {
        if outputs_match(name, names[j].as_str(), ComparisonPolicy::Exact) {
            assert(all[j as int] == name@);
            return true;
        }
        j = j + 1;
    }
    false
}

/// Returns every directory that a provisioned root file system holds, as
/// paths below the root.
pub fn skeleton_tree_names() -> (names: Vec<String>)
    ensures
        text_views(names@) == skeleton_tree(),
{
    let mut names = skeleton_names();
    let ghost dirs = text_views(names@);
    names.push("/usr".to_string());
    assert(text_views(names@) =~= dirs.push("/usr"@));
    names
}

/// Returns whether a root file system may be provisioned where `found`
/// lists what is there already, as paths below the root. It may where the
/// place is empty or holds nothing but directories of a provisioned
/// skeleton, as it does after an earlier provisioning that nothing was
/// added to. Anything else is what an earlier environment left behind, and
/// provisioning over it would merge the two.
pub fn is_clean_skeleton(found: &Vec<String>) -> (clean: bool)
    ensures
        clean == forall|i: int|
            0 <= i < found@.len() ==> skeleton_tree().contains(#[trigger] found@[i]@),
{
    let names = skeleton_tree_names();
    let mut i: usize = 0;
    while i < found.len()
        invariant
            i <= found@.len(),
            text_views(names@) == skeleton_tree(),
            forall|k: int| 0 <= k < i ==> skeleton_tree().contains(#[trigger] found@[k]@),
        decreases found@.len() - i,
    {
        if !is_listed(found[i].as_str(), &names) {
            return false;
        }
        i = i + 1;
    }
    true
}

/// Returns what a command's run comes to: its standard output as text
/// where the runtime reported success, and an error that carries its
/// standard error where not.
pub fn command_output(success: bool, stdout: Vec<u8>, stderr: Vec<u8>) -> (output: Result<
    String,
    CommandError,
>)
    ensures
        match command_outcome(success, stdout@, stderr@) {
            Ok(text) => output is Ok && output->Ok_0@ == text,
            Err(Some(text)) => output is Err && output->Err_0 is Failed
                && output->Err_0->Failed_0@ == text,
            Err(None) => output is Err && output->Err_0 is NotUtf8,
        },
{
    if success {
        match decode_stream(stdout) {
            Some(text) => Ok(text),
            None => Err(CommandError::NotUtf8),
        }
    } else {
        match decode_stream(stderr) {
            Some(text) => Err(CommandError::Failed(text)),
            None => Err(CommandError::NotUtf8),
        }
    }
}

/// The tree of a provisioned skeleton is whole and no more: it holds every
/// directory that provisioning creates, and with each of its directories
/// every directory above it, and nothing that is neither. So the listing of
/// a root file system that was provisioned, and to which nothing was added,
/// names directories of the tree only.
pub proof fn lemma_skeleton_tree_is_whole()
    ensures
        forall|i: int|
            0 <= i < skeleton_dirs().len() ==> skeleton_tree().contains(
                #[trigger] skeleton_dirs()[i],
            ),
        forall|i: int, above: Seq<char>|
            0 <= i < skeleton_tree().len() && is_above(above, #[trigger] skeleton_tree()[i])
                ==> #[trigger] skeleton_tree().contains(above),
        forall|j: int|
            0 <= j < skeleton_tree().len() ==> skeleton_dirs().contains(
                #[trigger] skeleton_tree()[j],
            ) || is_above(skeleton_tree()[j], skeleton_dirs()[1]),
{
    let tree = skeleton_tree();
    assert forall|j: int| 0 <= j < tree.len() implies skeleton_dirs().contains(#[trigger] tree[j])
        || is_above(tree[j], skeleton_dirs()[1]) by {
        if j < 11 {
            assert(skeleton_dirs()[j] == tree[j]);
        } else {
            reveal_strlit("/usr");
            reveal_strlit("/usr/bin");
            assert("/usr/bin"@.take(4) =~= "/usr"@);
        }
    }
    assert forall|i: int| 0 <= i < skeleton_dirs().len() implies tree.contains(
        #[trigger] skeleton_dirs()[i],
    ) by {
        assert(tree[i] == skeleton_dirs()[i]);
    }
    assert forall|i: int, above: Seq<char>|
        0 <= i < tree.len() && is_above(above, #[trigger] tree[i]) implies #[trigger] tree.contains(
        above,
    ) by {
        reveal_strlit("/bin");
        reveal_strlit("/usr/bin");
        reveal_strlit("/lib");
        reveal_strlit("/lib64");
        reveal_strlit("/etc");
        reveal_strlit("/proc");
        reveal_strlit("/sys");
        reveal_strlit("/dev");
        reveal_strlit("/dev/pts");
        reveal_strlit("/dev/shm");
        reveal_strlit("/workspace");
        reveal_strlit("/usr");
        let path = tree[i];
        let cut = above.len() as int;
        assert(path[cut] == '/');
        assert(cut == 4 && (i == 1 || i == 8 || i == 9));
        if i == 1 {
            assert(path.take(4) =~= "/usr"@);
            assert(tree[11] == above);
        } else {
            assert(path.take(4) =~= "/dev"@);
            assert(tree[7] == above);
        }
    }
}

/// The container identity of an instance with a hyphenated token holds no
/// slash, so the root file system of the instance is a directory directly
/// below the base and nowhere else.
pub proof fn lemma_instance_is_one_directory(instance_id: Seq<char>)
    requires
        is_hyphenated_id(instance_id),
    ensures
        instance_container_id(instance_id).len() == 42,
        forall|k: int|
            0 <= k < 42 ==> #[trigger] instance_container_id(instance_id)[k] != '/',
{
    reveal_strlit("judge-");
    let name = instance_container_id(instance_id);
    assert forall|k: int| 0 <= k < 42 implies #[trigger] name[k] != '/' by {
        if k >= 6 {
            assert(name[k] == instance_id[k - 6]);
        }
    }
}

/// Two texts that begin alike and are the same text end alike.
pub proof fn lemma_same_prefix_same_rest(prefix: Seq<char>, a: Seq<char>, b: Seq<char>)
    requires
        prefix + a == prefix + b,
    ensures
        a == b,
{
    let whole_a = prefix + a;
    let whole_b = prefix + b;
    assert(whole_a.subrange(prefix.len() as int, whole_a.len() as int) =~= a);
    assert(whole_b.subrange(prefix.len() as int, whole_b.len() as int) =~= b);
}

/// Two sandbox instances with different tokens share nothing by which the
/// container runtime or the file system knows them: their container
/// identities differ, and below the same directory their root file systems
/// differ, and with them the places of their isolation documents.
pub proof fn lemma_distinct_instances(base: Seq<char>, first: Seq<char>, second: Seq<char>)
    requires
        first != second,
    ensures
        instance_container_id(first) != instance_container_id(second),
        instance_rootfs(base, first) != instance_rootfs(base, second),
        instance_rootfs(base, first) + "/config.json"@ != instance_rootfs(base, second)
            + "/config.json"@,
{
    if instance_container_id(first) == instance_container_id(second) {
        lemma_same_prefix_same_rest("judge-"@, first, second);
    }
    if instance_rootfs(base, first) == instance_rootfs(base, second) {
        lemma_same_prefix_same_rest(
            base + "/"@,
            instance_container_id(first),
            instance_container_id(second),
        );
    }
    let tail = "/config.json"@;
    let one = instance_rootfs(base, first);
    let two = instance_rootfs(base, second);
    if one + tail == two + tail {
        assert(one.len() == two.len()) by {
            assert((one + tail).len() == one.len() + tail.len());
            assert((two + tail).len() == two.len() + tail.len());
        }
        assert((one + tail).subrange(0, one.len() as int) =~= one);
        assert((two + tail).subrange(0, two.len() as int) =~= two);
    }
}

} // verus!
