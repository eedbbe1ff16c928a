//! Small verdict contributors: fixed answers, the timeout filter, the corpus log line,
//! and the coverage run of an extra build.
use vstd::prelude::*;

use crate::base64::{args_of, texts, Base64Input};
use crate::executor::{scratch_path, scratch_path_of, ChildCommand};
use crate::oracle::ExitClass;
use crate::text::{decimal, push_decimal};

verus! {

/// The line logged when a test case enters the corpus.
pub open spec fn corpus_entry_text(len: nat) -> Seq<char> {
    "New corpus entry with len "@ + decimal(len)
}

/// Formats the line logged when a test case of `len` bytes enters the corpus.
pub fn corpus_entry_message(len: usize) -> (r: String)
    ensures
        r@ == corpus_entry_text(len as nat),
{
    let mut s = String::from_str("New corpus entry with len ");
    push_decimal(&mut s, len as u64);
    s
}

/// Never makes a test case interesting; logs each one that enters the corpus.
pub struct AlwaysFeedback;

impl AlwaysFeedback {
    /// The feedback's name.
    pub fn name(&self) -> (r: &'static str)
        ensures
            r@ == "AlwaysFeedback"@,
    {
        "AlwaysFeedback"
    }

    /// Never interesting by itself.
    pub fn is_interesting(&self) -> (r: bool)
        ensures
            !r,
    {
        false
    }

    /// The log line for a test case that enters the corpus.
    pub fn append_metadata(&self, input: &Base64Input) -> (r: String)
        ensures
            r@ == corpus_entry_text(input.input@.len()),
    {
        corpus_entry_message(input.len())
    }
}

/// Never makes a test case interesting; logs each one that enters the corpus.
pub struct NewCorpusEntryLogFeedback;

impl NewCorpusEntryLogFeedback {
    /// The feedback's name.
    pub fn name(&self) -> (r: &'static str)
        ensures
            r@ == "NewCorpusEntryLogFeedback"@,
    {
        "NewCorpusEntryLogFeedback"
    }

    /// Never interesting by itself.
    pub fn is_interesting(&self) -> (r: bool)
        ensures
            !r,
    {
        false
    }

    /// The log line for a test case that enters the corpus.
    pub fn append_metadata(&self, input: &Base64Input) -> (r: String)
        ensures
            r@ == corpus_entry_text(input.input@.len()),
    {
        corpus_entry_message(input.len())
    }
}

/// Holds back test cases in which either side timed out.
pub struct AnyTimeoutFeedback;

impl AnyTimeoutFeedback {
    /// The feedback's name.
    pub fn name(&self) -> (r: &'static str)
        ensures
            r@ == "AnyTimeoutFeedback"@,
    {
        "AnyTimeoutFeedback"
    }

    /// True unless one of the two sides timed out.
    pub fn is_interesting(&self, a: ExitClass, b: ExitClass) -> (r: bool)
        ensures
            r == (a != ExitClass::TimedOut && b != ExitClass::TimedOut),
    {
        match (a, b) {
            (ExitClass::TimedOut, _) => false,
            (_, ExitClass::TimedOut) => false,
            _ => true,
        }
    }
}

/// Answers with a fixed verdict and, for a test case that enters the corpus, runs a
/// coverage build of the target on it.
pub struct CovFeedback {
    is_interesting: bool,
    gcov_path: String,
    temp_file_stdin_path: String,
}

impl CovFeedback {
    /// The fixed verdict.
    pub closed spec fn spec_is_interesting(&self) -> bool {
        self.is_interesting
    }

    /// The coverage build's path.
    pub closed spec fn spec_gcov_path(&self) -> Seq<char> {
        self.gcov_path@
    }

    /// The scratch file for standard input.
    pub closed spec fn spec_stdin_path(&self) -> Seq<char> {
        self.temp_file_stdin_path@
    }

    /// A feedback with a fixed verdict, the coverage build at `gcov_path`, and the
    /// scratch file named by `temp_file_stdin_path`.
    pub fn new(is_interesting: bool, gcov_path: String, temp_file_stdin_path: String) -> (r: Self)
        ensures
            r.spec_is_interesting() == is_interesting,
            r.spec_gcov_path() == gcov_path@,
            r.spec_stdin_path() == scratch_path_of(temp_file_stdin_path@),
    {
        CovFeedback {
            is_interesting,
            gcov_path,
            temp_file_stdin_path: scratch_path(temp_file_stdin_path.as_str()),
        }
    }

    /// The feedback's name.
    pub fn name(&self) -> (r: &'static str)
        ensures
            r@ == "CovFeedback"@,
    {
        "CovFeedback"
    }

    /// The fixed verdict.
    pub fn is_interesting(&self) -> (r: bool)
        ensures
            r == self.spec_is_interesting(),
    {
        self.is_interesting
    }

    /// The coverage run for a test case that enters the corpus: the coverage build with
    /// the test case's arguments and input, its output discarded.
    pub fn append_metadata(&self, input: &Base64Input) -> (r: ChildCommand)
        ensures
            r.program@ == self.spec_gcov_path(),
            texts(r.args@) == args_of(input.decode, input.ignore_garbage, input.wrap),
            r.preload is None,
            r.stdin_path@ == self.spec_stdin_path(),
            !r.capture_output,
    {
        ChildCommand {
            program: self.gcov_path.clone(),
            args: input.get_args(),
            preload: None,
            stdin_path: self.temp_file_stdin_path.clone(),
            capture_output: false,
        }
    }
}

} // verus!
