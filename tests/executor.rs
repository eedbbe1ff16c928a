use fuzzer::base64::Base64Input;
use fuzzer::description::{encode_description, RegionDescription};
use fuzzer::executor::{classify_exit, scratch_path, CoverageCommandExecutor, EXEC_TIMEOUT_SECS};
use fuzzer::oracle::ExitClass;

#[test]
fn scratch_paths() {
    assert_eq!(scratch_path("gnu-0"), "/dev/shm/tempgnu-0");
    assert_ne!(scratch_path("gnu-0"), scratch_path("gnu-1"));
}

#[test]
fn child_command_appends_description() {
    let mut handle = [0u8; 20];
    handle[0] = b'4';
    let d = RegionDescription { handle, length: 32 };
    let e = CoverageCommandExecutor::new(&d, "./base64", "uutils-1");
    let input = Base64Input::new(b"abc", true, false, Some(4));
    let c = e.spawn_child(&input);
    assert_eq!(c.program, "./base64");
    let text = encode_description(&d);
    assert_eq!(c.args, vec!["-d".to_string(), "-w".to_string(), "4".to_string(), text]);
    assert_eq!(c.preload.as_deref(), Some("./target/release/libsetup_guard_redirection.so"));
    assert_eq!(c.stdin_path, "/dev/shm/tempuutils-1");
    assert!(c.capture_output);
    assert_eq!(e.exec_timeout_secs(), 30);
    assert_eq!(EXEC_TIMEOUT_SECS, 30);
}

#[test]
fn exit_classification() {
    assert_eq!(classify_exit(true, None), ExitClass::TimedOut);
    assert_eq!(classify_exit(true, Some(9)), ExitClass::TimedOut);
    assert_eq!(classify_exit(false, Some(11)), ExitClass::Crashed);
    assert_eq!(classify_exit(false, None), ExitClass::Normal);
}
