use fuzzer::base64::Base64Input;
use fuzzer::feedbacks::{
    corpus_entry_message, AlwaysFeedback, CovFeedback, NewCorpusEntryLogFeedback,
};

#[test]
fn corpus_entry_logging() {
    let i = Base64Input::new(b"hello", false, false, None);
    assert!(!AlwaysFeedback.is_interesting());
    assert_eq!(AlwaysFeedback.append_metadata(&i), "New corpus entry with len 5");
    assert!(!NewCorpusEntryLogFeedback.is_interesting());
    assert_eq!(NewCorpusEntryLogFeedback.append_metadata(&i), "New corpus entry with len 5");
    assert_eq!(corpus_entry_message(0), "New corpus entry with len 0");
    assert_eq!(AlwaysFeedback.name(), "AlwaysFeedback");
}

#[test]
fn coverage_build_run() {
    let f = CovFeedback::new(true, "./gcov/base64".to_string(), "cov-3".to_string());
    assert!(f.is_interesting());
    let i = Base64Input::new(b"x", false, true, None);
    let c = f.append_metadata(&i);
    assert_eq!(c.program, "./gcov/base64");
    assert_eq!(c.args, vec!["-i".to_string()]);
    assert_eq!(c.stdin_path, "/dev/shm/tempcov-3");
    assert!(c.preload.is_none());
    assert!(!c.capture_output);
    assert!(!CovFeedback::new(false, String::new(), String::new()).is_interesting());
}
