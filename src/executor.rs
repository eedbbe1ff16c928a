//! How each child of a test case is started: its program, arguments, environment and
//! standard input, and how its end is classified.
use vstd::prelude::*;

use crate::base64::{args_of, texts, Base64Input};
use crate::description::{description_json, encode_description, RegionDescription};
use crate::oracle::ExitClass;

verus! {

/// How long a child may run before it is killed, in seconds.
pub const EXEC_TIMEOUT_SECS: u64 = 30;

/// The environment variable that names the library loaded into each child.
pub open spec fn preload_variable() -> Seq<char> {
    "LD_PRELOAD"@
}

/// The bridge library loaded into each child.
pub open spec fn bridge_library() -> Seq<char> {
    "./target/release/libsetup_guard_redirection.so"@
}

/// The scratch file that feeds standard input to the children of one worker.
pub open spec fn scratch_path_of(id: Seq<char>) -> Seq<char> {
    "/dev/shm/temp"@ + id
}

/// The scratch file of the worker with the given identifier.
pub fn scratch_path(id: &str) -> (r: String)
    ensures
        r@ == scratch_path_of(id@),
{
    let mut s = String::from_str("/dev/shm/temp");
    s.append(id);
    s
}

/// Workers with different identifiers write different scratch files.
pub proof fn lemma_scratch_paths_distinct(a: Seq<char>, b: Seq<char>)
    requires
        a != b,
    ensures
        scratch_path_of(a) != scratch_path_of(b),
{
    let p = "/dev/shm/temp"@;
    if scratch_path_of(a) == scratch_path_of(b) {
        assert(a =~= scratch_path_of(a).subrange(p.len() as int, scratch_path_of(a).len() as int));
        assert(b =~= scratch_path_of(b).subrange(p.len() as int, scratch_path_of(b).len() as int));
    }
}

/// A child to start.
#[derive(Clone, Debug)]
pub struct ChildCommand {
    pub program: String,
    pub args: Vec<String>,
    /// The library to load into the child, if any.
    pub preload: Option<String>,
    /// The file whose contents are fed on standard input.
    pub stdin_path: String,
    /// Whether standard output and standard error are captured, else discarded.
    pub capture_output: bool,
}

/// Classifies how a child ended: killed for running too long, ended by a signal, or
/// exited.
pub fn classify_exit(timed_out: bool, signal: Option<i32>) -> (r: ExitClass)
    ensures
        timed_out ==> r == ExitClass::TimedOut,
        !timed_out && signal is Some ==> r == ExitClass::Crashed,
        !timed_out && signal is None ==> r == ExitClass::Normal,
{
    if timed_out {
        ExitClass::TimedOut
    } else if signal.is_some() {
        ExitClass::Crashed
    } else {
        ExitClass::Normal
    }
}

/// A child started with a test case's arguments and then the description, and the bridge
/// having removed its last argument, the wrapped program sees its name and the test
/// case's arguments: one argument fewer than it was given.
pub proof fn lemma_bridge_hides_only_the_description(
    argv: Seq<String>,
    case_args: Seq<Seq<char>>,
    description: Seq<char>,
)
    requires
        argv.len() > 0,
        texts(argv.drop_first()) == case_args.push(description),
    ensures
        texts(argv.drop_last()) == seq![argv[0]@] + case_args,
        argv.drop_last().len() == argv.len() - 1,
{
    let rest = argv.drop_first();
    assert(texts(rest).len() == case_args.len() + 1);
    assert forall|i: int| 0 <= i < case_args.len() implies texts(argv.drop_last())[i + 1]
        == case_args[i] by {
        assert(texts(rest)[i] == case_args.push(description)[i]);
        assert(rest[i] == argv[i + 1]);
    }
    assert(texts(argv.drop_last()) =~= seq![argv[0]@] + case_args);
}

/// Starts one instrumented target per test case, with its region's description as
/// the last argument.
#[derive(Debug)]
pub struct CoverageCommandExecutor {
    shmem_coverage_description: String,
    temp_file_stdin_path: String,
    util: String,
}

impl CoverageCommandExecutor {
    /// The text of the region's description.
    pub closed spec fn spec_description(&self) -> Seq<char> {
        self.shmem_coverage_description@
    }

    /// The scratch file for standard input.
    pub closed spec fn spec_stdin_path(&self) -> Seq<char> {
        self.temp_file_stdin_path@
    }

    /// The target's path.
    pub closed spec fn spec_util(&self) -> Seq<char> {
        self.util@
    }

    /// An executor for the target at `util`, writing coverage to the described region,
    /// for the worker `id`.
    pub fn new(description: &RegionDescription, util: &str, id: &str) -> (r: Self)
        ensures
            r.spec_description() == description_json(description.handle@, description.length),
            r.spec_stdin_path() == scratch_path_of(id@),
            r.spec_util() == util@,
    {
        CoverageCommandExecutor {
            shmem_coverage_description: encode_description(description),
            temp_file_stdin_path: scratch_path(id),
            util: String::from_str(util),
        }
    }

    /// The child that runs a test case: the test case's arguments, then the
    /// description; the bridge preloaded; output captured.
    pub fn spawn_child(&self, input: &Base64Input) -> (r: ChildCommand)
        ensures
            r.program@ == self.spec_util(),
            texts(r.args@) == args_of(input.decode, input.ignore_garbage, input.wrap).push(
                self.spec_description(),
            ),
            r.preload matches Some(p) && p@ == bridge_library(),
            r.stdin_path@ == self.spec_stdin_path(),
            r.capture_output,
    {
        let mut args = input.get_args();
        let ghost before = args@;
        args.push(self.shmem_coverage_description.clone());
        assert(texts(args@) =~= texts(before).push(self.spec_description()));
        ChildCommand {
            program: self.util.clone(),
            args,
            preload: Some(String::from_str("./target/release/libsetup_guard_redirection.so")),
            stdin_path: self.temp_file_stdin_path.clone(),
            capture_output: true,
        }
    }

    /// How long a child may run, in seconds.
    pub fn exec_timeout_secs(&self) -> (r: u64)
        ensures
            r == EXEC_TIMEOUT_SECS,
    {
        EXEC_TIMEOUT_SECS
    }
}

} // verus!
