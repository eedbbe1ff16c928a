//! The differential oracle: reduces two executions of one test case to a verdict.
use vstd::prelude::*;

use crate::capture::{capture_text, opt_bytes, vec_string_mapper};

verus! {

/// How a child process ended.
#[derive(Clone, Copy, Debug, PartialEq, Eq, Structural)]
pub enum ExitClass {
    Normal,
    Crashed,
    TimedOut,
}

/// What one child did on one test case.
#[derive(Clone, Debug)]
pub struct Observation {
    pub exit: ExitClass,
    /// Captured standard output; `None` when nothing was captured.
    pub stdout: Option<Vec<u8>>,
    /// Captured standard error; `None` when nothing was captured.
    pub stderr: Option<Vec<u8>>,
    /// Wall-clock time of the run, in milliseconds.
    pub elapsed_ms: u64,
}

/// True when the two exit classifications differ.
pub open spec fn exit_divergence(a: Observation, b: Observation) -> bool {
    a.exit != b.exit
}

/// True when either side crashed.
pub open spec fn any_crash(a: Observation, b: Observation) -> bool {
    a.exit == ExitClass::Crashed || b.exit == ExitClass::Crashed
}

/// True when either side timed out.
pub open spec fn any_timeout(a: Observation, b: Observation) -> bool {
    a.exit == ExitClass::TimedOut || b.exit == ExitClass::TimedOut
}

/// True when both sides' standard error was captured and both are empty.
pub open spec fn both_silent(a: Observation, b: Observation) -> bool {
    &&& a.stderr is Some
    &&& b.stderr is Some
    &&& opt_bytes(a.stderr).unwrap().len() == 0
    &&& opt_bytes(b.stderr).unwrap().len() == 0
}

/// True when the captured standard output differs.
pub open spec fn stdout_divergence(a: Observation, b: Observation) -> bool {
    opt_bytes(a.stdout) != opt_bytes(b.stdout)
}

/// True when one of the cheap signals alone decides the objective.
pub open spec fn cheap_objective(a: Observation, b: Observation) -> bool {
    exit_divergence(a, b) || any_crash(a, b) || any_timeout(a, b)
}

/// True when the byte-level comparison of standard output has to run.
pub open spec fn needs_stdout_comparison(a: Observation, b: Observation) -> bool {
    !cheap_objective(a, b) && both_silent(a, b)
}

/// A confirmed divergence between the two sides.
pub open spec fn objective(a: Observation, b: Observation) -> bool {
    cheap_objective(a, b) || (both_silent(a, b) && stdout_divergence(a, b))
}

/// True when the hits hold a location, nonzero, that the history has not seen.
pub open spec fn has_novel(seen: Seq<bool>, hits: Seq<u8>) -> bool {
    exists|i: int| 0 <= i < hits.len() && hits[i] != 0 && !seen[i]
}

/// The history after the hits: every location seen before or hit now.
pub open spec fn merged(seen: Seq<bool>, hits: Seq<u8>) -> Seq<bool> {
    Seq::new(seen.len(), |i: int| seen[i] || hits[i] != 0)
}

/// The name of an exit classification in reports.
pub open spec fn exit_name(c: ExitClass) -> Seq<char> {
    match c {
        ExitClass::Normal => "Ok"@,
        ExitClass::Crashed => "Crash"@,
        ExitClass::TimedOut => "Timeout"@,
    }
}

/// How the pair of exits is reported: one name when both agree.
pub open spec fn exit_kind_text(a: ExitClass, b: ExitClass) -> Seq<char> {
    if a == b {
        exit_name(a)
    } else {
        "Diff { primary: "@ + exit_name(a) + ", secondary: "@ + exit_name(b) + " }"@
    }
}

/// The locations hit so far over the concatenated coverage maps of both sides.
pub struct CoverageHistory {
    seen: Vec<bool>,
}

impl View for CoverageHistory {
    type V = Seq<bool>;

    closed spec fn view(&self) -> Seq<bool> {
        self.seen@
    }
}

impl CoverageHistory {
    /// A history of `len` locations, none of them seen.
    pub fn new(len: usize) -> (r: Self)
        ensures
            r@ == Seq::new(len as nat, |i: int| false),
    {
        let mut seen: Vec<bool> = Vec::new();
        let mut i: usize = 0;
        while i < len
            invariant
                i <= len,
                seen@ == Seq::new(i as nat, |j: int| false),
            decreases len - i,
        {
            seen.push(false);
            i = i + 1;
            assert(seen@ =~= Seq::new(i as nat, |j: int| false));
        }
        CoverageHistory { seen }
    }

    /// The number of locations.
    pub fn len(&self) -> (r: usize)
        ensures
            r == self@.len(),
    {
        self.seen.len()
    }

    /// Whether the location was seen.
    pub fn was_seen(&self, i: usize) -> (r: bool)
        requires
            i < self@.len(),
        ensures
            r == self@[i as int],
    {
        self.seen[i]
    }

    /// Records the hits of both sides, the first side's map first. Returns whether any
    /// location was hit that no earlier test case hit; `None`, with the history kept,
    /// when the maps together do not have the history's length.
    pub fn observe(&mut self, first: &[u8], second: &[u8]) -> (r: Option<bool>)
        ensures
            old(self)@.len() == first@.len() + second@.len() ==> {
                &&& r == Some(has_novel(old(self)@, first@ + second@))
                &&& final(self)@ == merged(old(self)@, first@ + second@)
            },
            old(self)@.len() != first@.len() + second@.len() ==> {
                &&& r is None
                &&& final(self)@ == old(self)@
            },
    {
        if first.len() > self.seen.len() || self.seen.len() - first.len() != second.len() {
            return None;
        }
        let ghost hits = first@ + second@;
        let ghost start = self@;
        let mut novel = false;
        let mut i: usize = 0;
        let n = self.seen.len();
        while i < n
            invariant
                n == start.len(),
                n == hits.len(),
                hits == first@ + second@,
                i <= n,
                self@.len() == n,
                forall|j: int| 0 <= j < i ==> self@[j] == (start[j] || hits[j] != 0),
                forall|j: int| i <= j < n ==> self@[j] == start[j],
                novel == exists|j: int| 0 <= j < i && hits[j] != 0 && !start[j],
            decreases n - i,
        {
            let hit = if i < first.len() {
                first[i]
            } else {
                second[i - first.len()]
            };
            assert(hit == hits[i as int]);
            let before = self.seen[i];
            if hit != 0 {
                if !before {
                    novel = true;
                }
                self.seen.set(i, true);
            }
            assert(novel == exists|j: int| 0 <= j < i + 1 && hits[j] != 0 && !start[j]) by {
                if novel && !(exists|j: int| 0 <= j < i && hits[j] != 0 && !start[j]) {
                    assert(hits[i as int] != 0 && !start[i as int]);
                }
            }
            i = i + 1;
        }
        assert(self@ =~= merged(start, hits));
        Some(novel)
    }
}

/// Compares two byte sequences.
fn bytes_equal(a: &[u8], b: &[u8]) -> (r: bool)
    ensures
        r == (a@ == b@),
{
    if a.len() != b.len() {
        return false;
    }
    let mut i: usize = 0;
    while i < a.len()
        invariant
            a@.len() == b@.len(),
            i <= a@.len(),
            a@.subrange(0, i as int) == b@.subrange(0, i as int),
        decreases a@.len() - i,
    {
        if a[i] != b[i] {
            assert(a@[i as int] != b@[i as int]);
            return false;
        }
        assert(a@.subrange(0, i + 1) =~= a@.subrange(0, i as int).push(a@[i as int]));
        assert(b@.subrange(0, i + 1) =~= b@.subrange(0, i as int).push(b@[i as int]));
        i = i + 1;
    }
    assert(a@ =~= a@.subrange(0, i as int));
    assert(b@ =~= b@.subrange(0, i as int));
    true
}

/// The byte-level comparison of two captures.
pub fn stdout_differs(a: &Option<Vec<u8>>, b: &Option<Vec<u8>>) -> (r: bool)
    ensures
        r == (opt_bytes(*a) != opt_bytes(*b)),
{
    match (a, b) {
        (None, None) => false,
        (Some(x), Some(y)) => !bytes_equal(x.as_slice(), y.as_slice()),
        _ => true,
    }
}

/// Whether a capture was taken and is empty.
fn is_silent(o: &Option<Vec<u8>>) -> (r: bool)
    ensures
        r == (o is Some && opt_bytes(*o).unwrap().len() == 0),
{
    match o {
        None => false,
        Some(e) => e.len() == 0,
    }
}

/// The objective of one test case, and whether the standard output comparison ran.
#[derive(Clone, Copy, Debug, PartialEq, Eq, Structural)]
pub struct ObjectiveCheck {
    pub objective: bool,
    pub stdout_compared: bool,
}

/// Decides the objective: exit divergence, then a crash on either side, then a
/// timeout on either side, then both sides silent on standard error with differing
/// standard output. The byte-level comparison runs only when nothing before decides.
pub fn check_objective(a: &Observation, b: &Observation) -> (r: ObjectiveCheck)
    ensures
        r.objective == objective(*a, *b),
        r.stdout_compared == needs_stdout_comparison(*a, *b),
{
    if a.exit != b.exit {
        return ObjectiveCheck { objective: true, stdout_compared: false };
    }
    if a.exit == ExitClass::Crashed || b.exit == ExitClass::Crashed {
        return ObjectiveCheck { objective: true, stdout_compared: false };
    }
    if a.exit == ExitClass::TimedOut || b.exit == ExitClass::TimedOut {
        return ObjectiveCheck { objective: true, stdout_compared: false };
    }
    if !(is_silent(&a.stderr) && is_silent(&b.stderr)) {
        return ObjectiveCheck { objective: false, stdout_compared: false };
    }
    ObjectiveCheck { objective: stdout_differs(&a.stdout, &b.stdout), stdout_compared: true }
}

/// Appends the report name of an exit classification.
fn push_exit_name(s: &mut String, c: ExitClass)
    ensures
        final(s)@ == old(s)@ + exit_name(c),
{
    match c {
        ExitClass::Normal => s.append("Ok"),
        ExitClass::Crashed => s.append("Crash"),
        ExitClass::TimedOut => s.append("Timeout"),
    }
}

/// The report text of a pair of exits.
pub fn exit_kind_string(a: ExitClass, b: ExitClass) -> (r: String)
    ensures
        r@ == exit_kind_text(a, b),
{
    let mut s = String::new();
    if a == b {
        push_exit_name(&mut s, a);
        assert(s@ =~= exit_kind_text(a, b));
    } else {
        s.append("Diff { primary: ");
        push_exit_name(&mut s, a);
        s.append(", secondary: ");
        push_exit_name(&mut s, b);
        s.append(" }");
        assert(s@ =~= exit_kind_text(a, b));
    }
    s
}

/// What is kept with an interesting test case: both targets, their captures as text,
/// the exits, and the time each side took.
#[derive(Clone, Debug)]
pub struct DiffStdIOMetadata {
    pub input: Option<String>,
    pub name1: String,
    pub name2: String,
    pub exit_kind: String,
    pub stderr_observer1: String,
    pub stderr_observer2: String,
    pub stdout_observer1: String,
    pub stdout_observer2: String,
    pub elapsed1_ms: u64,
    pub elapsed2_ms: u64,
}

/// The optional text of an optional string.
pub open spec fn opt_text(v: Option<String>) -> Option<Seq<char>> {
    match v {
        None => None,
        Some(s) => Some(s@),
    }
}

/// The metadata that belongs to two observations.
pub open spec fn metadata_matches(
    m: DiffStdIOMetadata,
    input: Option<Seq<char>>,
    name1: Seq<char>,
    name2: Seq<char>,
    exit_kind: Seq<char>,
    a: Observation,
    b: Observation,
) -> bool {
    &&& opt_text(m.input) == input
    &&& m.name1@ == name1
    &&& m.name2@ == name2
    &&& m.exit_kind@ == exit_kind
    &&& m.stderr_observer1@ == capture_text(opt_bytes(a.stderr))
    &&& m.stderr_observer2@ == capture_text(opt_bytes(b.stderr))
    &&& m.stdout_observer1@ == capture_text(opt_bytes(a.stdout))
    &&& m.stdout_observer2@ == capture_text(opt_bytes(b.stdout))
    &&& m.elapsed1_ms == a.elapsed_ms
    &&& m.elapsed2_ms == b.elapsed_ms
}

/// Clones an optional string.
fn clone_opt_string(v: &Option<String>) -> (r: Option<String>)
    ensures
        opt_text(r) == opt_text(*v),
{
    match v {
        None => None,
        Some(s) => Some(s.clone()),
    }
}

/// Collects the metadata of a test case from the two targets' names and observations.
pub struct DiffStdIOMetadataPseudoFeedback {
    name1: String,
    name2: String,
    exit_kind: Option<(ExitClass, ExitClass)>,
}

impl DiffStdIOMetadataPseudoFeedback {
    /// The first target's name.
    pub closed spec fn spec_name1(&self) -> Seq<char> {
        self.name1@
    }

    /// The second target's name.
    pub closed spec fn spec_name2(&self) -> Seq<char> {
        self.name2@
    }

    /// The exits recorded by the last call of `is_interesting`.
    pub closed spec fn spec_exit_kind(&self) -> Option<(ExitClass, ExitClass)> {
        self.exit_kind
    }

    /// A collector for two targets, with no exit recorded yet.
    pub fn new(name1: &str, name2: &str) -> (r: Self)
        ensures
            r.spec_name1() == name1@,
            r.spec_name2() == name2@,
            r.spec_exit_kind() is None,
    {
        DiffStdIOMetadataPseudoFeedback {
            name1: String::from_str(name1),
            name2: String::from_str(name2),
            exit_kind: None,
        }
    }

    /// Records the exits of the test case; never itself makes a test case interesting.
    pub fn is_interesting(&mut self, a: ExitClass, b: ExitClass) -> (r: bool)
        ensures
            !r,
            final(self).spec_exit_kind() == Some((a, b)),
            final(self).spec_name1() == old(self).spec_name1(),
            final(self).spec_name2() == old(self).spec_name2(),
    {
        self.exit_kind = Some((a, b));
        false
    }

    /// The report text of the recorded exits.
    pub open spec fn spec_exit_text(&self) -> Seq<char> {
        match self.spec_exit_kind() {
            None => "No ExitKind recorded"@,
            Some((a, b)) => exit_kind_text(a, b),
        }
    }

    /// Builds the metadata of the test case.
    pub fn append_metadata(&self, input: Option<String>, a: &Observation, b: &Observation) -> (r:
        DiffStdIOMetadata)
        ensures
            metadata_matches(
                r,
                opt_text(input),
                self.spec_name1(),
                self.spec_name2(),
                self.spec_exit_text(),
                *a,
                *b,
            ),
    {
        let exit_kind = match self.exit_kind {
            None => String::from_str("No ExitKind recorded"),
            Some((x, y)) => exit_kind_string(x, y),
        };
        DiffStdIOMetadata {
            input: clone_opt_string(&input),
            name1: self.name1.clone(),
            name2: self.name2.clone(),
            exit_kind,
            stderr_observer1: vec_string_mapper(&a.stderr),
            stderr_observer2: vec_string_mapper(&b.stderr),
            stdout_observer1: vec_string_mapper(&a.stdout),
            stdout_observer2: vec_string_mapper(&b.stdout),
            elapsed1_ms: a.elapsed_ms,
            elapsed2_ms: b.elapsed_ms,
        }
    }
}

/// The verdict on one test case.
#[derive(Clone, Debug)]
pub struct Verdict {
    /// Worth keeping for further mutation.
    pub interesting: bool,
    /// A confirmed divergence.
    pub objective: bool,
    /// Whether the byte-level comparison of standard output ran.
    pub stdout_compared: bool,
    /// Whether the coverage maps were recorded: false when together they do not have
    /// the history's length, in which case they count as nothing new.
    pub coverage_recorded: bool,
    /// Present exactly when the test case is interesting.
    pub metadata: Option<DiffStdIOMetadata>,
}

/// Judges one test case: records its coverage in the history, decides the objective,
/// and attaches metadata when the test case is interesting. Coverage maps that
/// together do not have the history's length are not recorded and bring nothing new;
/// the objective is decided all the same.
pub fn judge(
    history: &mut CoverageHistory,
    coverage1: &[u8],
    coverage2: &[u8],
    reporter: &DiffStdIOMetadataPseudoFeedback,
    input: Option<String>,
    a: &Observation,
    b: &Observation,
) -> (r: Verdict)
    ensures
        r.coverage_recorded == (old(history)@.len() == coverage1@.len() + coverage2@.len()),
        r.coverage_recorded ==> final(history)@ == merged(old(history)@, coverage1@ + coverage2@),
        !r.coverage_recorded ==> final(history)@ == old(history)@,
        r.objective == objective(*a, *b),
        r.stdout_compared == needs_stdout_comparison(*a, *b),
        r.interesting == ((r.coverage_recorded && has_novel(old(history)@, coverage1@ + coverage2@))
            || objective(*a, *b)),
        r.metadata is Some == r.interesting,
        r.metadata matches Some(m) ==> metadata_matches(
            m,
            opt_text(input),
            reporter.spec_name1(),
            reporter.spec_name2(),
            reporter.spec_exit_text(),
            *a,
            *b,
        ),
{
    let observed = history.observe(coverage1, coverage2);
    let coverage_recorded = observed.is_some();
    let novel = match observed {
        None => false,
        Some(n) => n,
    };
    let check = check_objective(a, b);
    let interesting = novel || check.objective;
    let metadata = if interesting {
        Some(reporter.append_metadata(input, a, b))
    } else {
        None
    };
    Verdict {
        interesting,
        objective: check.objective,
        stdout_compared: check.stdout_compared,
        coverage_recorded,
        metadata,
    }
}

/// Both sides exiting normally and silent on standard error, a difference in standard
/// output is an objective, so the test case is kept and reported.
pub proof fn lemma_silent_stdout_divergence_is_objective(a: Observation, b: Observation)
    requires
        a.exit == ExitClass::Normal,
        b.exit == ExitClass::Normal,
        both_silent(a, b),
        opt_bytes(a.stdout) != opt_bytes(b.stdout),
    ensures
        objective(a, b),
        needs_stdout_comparison(a, b),
{
}

/// A crash on one side alone makes the test case an objective, and the standard
/// output comparison does not run.
pub proof fn lemma_crash_short_circuits(a: Observation, b: Observation)
    requires
        a.exit == ExitClass::Crashed,
        b.exit != ExitClass::Crashed,
    ensures
        objective(a, b),
        !needs_stdout_comparison(a, b),
{
}

/// Two normal exits with equal standard output are no objective, whatever was written
/// to standard error.
pub proof fn lemma_agreement_is_no_objective(a: Observation, b: Observation)
    requires
        a.exit == ExitClass::Normal,
        b.exit == ExitClass::Normal,
        opt_bytes(a.stdout) == opt_bytes(b.stdout),
    ensures
        !objective(a, b),
{
}

/// With the history unchanged, the same coverage maps give the same coverage novelty.
pub proof fn lemma_novelty_is_deterministic(
    seen1: Seq<bool>,
    seen2: Seq<bool>,
    hits1: Seq<u8>,
    hits2: Seq<u8>,
)
    requires
        seen1 == seen2,
        hits1 == hits2,
    ensures
        has_novel(seen1, hits1) == has_novel(seen2, hits2),
        merged(seen1, hits1) == merged(seen2, hits2),
{
}

/// Once recorded, the same coverage is never novel again.
pub proof fn lemma_recorded_coverage_is_not_novel(seen: Seq<bool>, hits: Seq<u8>)
    requires
        seen.len() == hits.len(),
    ensures
        !has_novel(merged(seen, hits), hits),
{
}

} // verus!
