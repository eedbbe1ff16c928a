use fuzzer::feedbacks::AnyTimeoutFeedback;
use fuzzer::oracle::{
    check_objective, exit_kind_string, judge, stdout_differs, CoverageHistory,
    DiffStdIOMetadataPseudoFeedback, ExitClass, Observation,
};

fn obs(exit: ExitClass, stdout: &str, stderr: &str) -> Observation {
    Observation {
        exit,
        stdout: Some(stdout.as_bytes().to_vec()),
        stderr: Some(stderr.as_bytes().to_vec()),
        elapsed_ms: 5,
    }
}

#[test]
fn crash_on_one_side_skips_stdout_comparison() {
    let a = obs(ExitClass::Crashed, "x", "");
    let b = obs(ExitClass::Normal, "y", "");
    let check = check_objective(&a, &b);
    assert!(check.objective);
    assert!(!check.stdout_compared);
}

#[test]
fn crash_on_both_sides_is_objective() {
    let a = obs(ExitClass::Crashed, "same", "");
    let b = obs(ExitClass::Crashed, "same", "");
    let check = check_objective(&a, &b);
    assert!(check.objective);
    assert!(!check.stdout_compared);
}

#[test]
fn timeout_on_both_sides_is_objective() {
    let a = obs(ExitClass::TimedOut, "", "");
    let b = obs(ExitClass::TimedOut, "", "");
    let check = check_objective(&a, &b);
    assert!(check.objective);
    assert!(!check.stdout_compared);
}

#[test]
fn stdout_divergence_scenario() {
    let mut history = CoverageHistory::new(4);
    let mut reporter = DiffStdIOMetadataPseudoFeedback::new("uutils", "gnu");
    assert!(!reporter.is_interesting(ExitClass::Normal, ExitClass::Normal));
    let a = obs(ExitClass::Normal, "SGVsbG8=", "");
    let b = obs(ExitClass::Normal, "SGVsbG8", "");
    let v = judge(&mut history, &[0, 0], &[0, 0], &reporter, None, &a, &b);
    assert!(v.objective);
    assert!(v.interesting);
    assert!(v.stdout_compared);
    let m = v.metadata.unwrap();
    assert_eq!(m.stdout_observer1, "SGVsbG8=");
    assert_eq!(m.stdout_observer2, "SGVsbG8");
    assert_eq!(m.name1, "uutils");
    assert_eq!(m.name2, "gnu");
    assert_eq!(m.exit_kind, "Ok");
    assert_eq!(m.elapsed1_ms, 5);
}

#[test]
fn silent_agreement_scenario() {
    let mut history = CoverageHistory::new(2);
    let reporter = DiffStdIOMetadataPseudoFeedback::new("a", "b");
    let a = obs(ExitClass::Normal, "SGVsbG8=", "");
    let b = obs(ExitClass::Normal, "SGVsbG8=", "");
    let v = judge(&mut history, &[0], &[0], &reporter, None, &a, &b);
    assert!(!v.interesting);
    assert!(!v.objective);
    assert!(v.metadata.is_none());
}

#[test]
fn stderr_output_suppresses_stdout_divergence() {
    let a = obs(ExitClass::Normal, "one", "usage");
    let b = obs(ExitClass::Normal, "two", "");
    let check = check_objective(&a, &b);
    assert!(!check.objective);
    assert!(!check.stdout_compared);
}

#[test]
fn missing_stderr_capture_is_not_silence() {
    let mut a = obs(ExitClass::Normal, "one", "");
    a.stderr = None;
    let b = obs(ExitClass::Normal, "two", "");
    assert!(!check_objective(&a, &b).objective);
}

#[test]
fn exit_divergence_is_objective() {
    let a = obs(ExitClass::Normal, "same", "");
    let b = obs(ExitClass::TimedOut, "same", "");
    assert!(check_objective(&a, &b).objective);
}

#[test]
fn coverage_novelty_then_no_novelty() {
    let mut history = CoverageHistory::new(4);
    assert_eq!(history.observe(&[0, 3], &[0, 0]), Some(true));
    assert!(history.was_seen(1));
    assert!(!history.was_seen(0));
    assert_eq!(history.observe(&[0, 7], &[0, 0]), Some(false));
    assert_eq!(history.observe(&[0, 0], &[0, 1]), Some(true));
    assert!(history.was_seen(3));
}

#[test]
fn same_history_same_maps_same_novelty() {
    let mut h1 = CoverageHistory::new(3);
    let mut h2 = CoverageHistory::new(3);
    assert_eq!(h1.observe(&[1], &[0, 2]), h2.observe(&[1], &[0, 2]));
}

#[test]
fn history_length_mismatch_is_refused() {
    let mut history = CoverageHistory::new(3);
    assert_eq!(history.observe(&[1], &[1]), None);
    assert_eq!(history.len(), 3);
    assert!(!history.was_seen(0));
}

#[test]
fn novel_coverage_alone_makes_interesting() {
    let mut history = CoverageHistory::new(2);
    let reporter = DiffStdIOMetadataPseudoFeedback::new("a", "b");
    let a = obs(ExitClass::Normal, "x", "");
    let b = obs(ExitClass::Normal, "x", "");
    let v = judge(&mut history, &[1], &[0], &reporter, Some("in".to_string()), &a, &b);
    assert!(v.interesting);
    assert!(!v.objective);
    let m = v.metadata.unwrap();
    assert_eq!(m.input.as_deref(), Some("in"));
    assert_eq!(m.exit_kind, "No ExitKind recorded");
}

#[test]
fn exit_kind_texts() {
    assert_eq!(exit_kind_string(ExitClass::Crashed, ExitClass::Crashed), "Crash");
    assert_eq!(
        exit_kind_string(ExitClass::Normal, ExitClass::TimedOut),
        "Diff { primary: Ok, secondary: Timeout }"
    );
}

#[test]
fn stdout_comparison() {
    assert!(!stdout_differs(&Some(b"ab".to_vec()), &Some(b"ab".to_vec())));
    assert!(stdout_differs(&Some(b"ab".to_vec()), &Some(b"a".to_vec())));
    assert!(stdout_differs(&None, &Some(Vec::new())));
    assert!(!stdout_differs(&None, &None));
}

#[test]
fn any_timeout_feedback() {
    let f = AnyTimeoutFeedback;
    assert!(f.is_interesting(ExitClass::Normal, ExitClass::Crashed));
    assert!(!f.is_interesting(ExitClass::TimedOut, ExitClass::Normal));
    assert!(!f.is_interesting(ExitClass::Normal, ExitClass::TimedOut));
}

#[test]
fn mismatched_coverage_is_not_recorded_but_objective_still_decided() {
    let mut history = CoverageHistory::new(3);
    let reporter = DiffStdIOMetadataPseudoFeedback::new("a", "b");
    let a = obs(ExitClass::Normal, "SGVsbG8=", "");
    let b = obs(ExitClass::Normal, "SGVsbG8", "");
    let v = judge(&mut history, &[1], &[1], &reporter, None, &a, &b);
    assert!(!v.coverage_recorded);
    assert!(v.objective);
    assert!(v.interesting);
    assert!(!history.was_seen(0));
    let m = v.metadata.unwrap();
    assert_eq!(m.stdout_observer1, "SGVsbG8=");
    assert_eq!(m.stdout_observer2, "SGVsbG8");
}

#[test]
fn recorded_exits_are_reported() {
    let mut history = CoverageHistory::new(0);
    let mut reporter = DiffStdIOMetadataPseudoFeedback::new("a", "b");
    reporter.is_interesting(ExitClass::Crashed, ExitClass::Normal);
    let a = obs(ExitClass::Crashed, "", "");
    let b = obs(ExitClass::Normal, "", "");
    let v = judge(&mut history, &[], &[], &reporter, None, &a, &b);
    assert!(v.coverage_recorded);
    assert_eq!(v.metadata.unwrap().exit_kind, "Diff { primary: Crash, secondary: Ok }");
}
