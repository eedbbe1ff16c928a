use fuzzer::description::RegionDescription;
use fuzzer::region::{fd_of_handle, RegionError, RegionState, SharedRegion, FD_CLOEXEC};

fn desc(len: usize) -> RegionDescription {
    let mut handle = [0u8; 20];
    handle[0] = b'5';
    RegionDescription { handle, length: len }
}

#[test]
fn close_on_exec_flag_matches_the_platform() {
    assert_eq!(FD_CLOEXEC, libc::FD_CLOEXEC);
}

#[test]
fn zero_sized_region_is_refused() {
    assert!(matches!(SharedRegion::create(desc(0)), Err(RegionError::ZeroSized)));
}

#[test]
fn region_lifecycle() {
    let mut r = SharedRegion::create(desc(8)).ok().unwrap();
    assert_eq!(r.state(), RegionState::Created);
    assert_eq!(r.description(), desc(8));
    assert_eq!(r.mark_persistent(FD_CLOEXEC | 4), Ok(4));
    assert_eq!(r.state(), RegionState::Persistent);
    assert_eq!(r.mark_persistent(4), Ok(4));
    assert_eq!(r.release(4), Ok(4 | FD_CLOEXEC));
    assert_eq!(r.state(), RegionState::Released);
    assert_eq!(r.mark_persistent(4), Err(RegionError::Released));
    assert_eq!(r.release(4), Err(RegionError::Released));
}

#[test]
fn restore_default_behavior() {
    let mut r = SharedRegion::create(desc(8)).ok().unwrap();
    assert_eq!(r.mark_persistent(FD_CLOEXEC), Ok(0));
    assert_eq!(r.restore_default_exec_behavior(0), Ok(FD_CLOEXEC));
    assert_eq!(r.state(), RegionState::Created);
}

#[test]
fn unreadable_flags_are_reported() {
    let mut r = SharedRegion::create(desc(8)).ok().unwrap();
    assert_eq!(r.mark_persistent(-1), Err(RegionError::FlagsUnavailable));
    assert_eq!(r.state(), RegionState::Created);
    assert_eq!(r.release(-1), Err(RegionError::FlagsUnavailable));
}

#[test]
fn descriptor_from_handle() {
    let mut h = [0u8; 20];
    h[..2].copy_from_slice(b"42");
    assert_eq!(fd_of_handle(&h), Some(42));
    assert_eq!(fd_of_handle(&[0u8; 20]), None);
    let mut name = [0u8; 20];
    name[..5].copy_from_slice(b"/shm1");
    assert_eq!(fd_of_handle(&name), None);
    let mut big = [0u8; 20];
    big[..10].copy_from_slice(b"2147483648");
    assert_eq!(fd_of_handle(&big), None);
    assert_eq!(fd_of_handle(&[b'1'; 20]), None);
}

#[test]
fn size_is_checked_before_creation() {
    assert_eq!(SharedRegion::check_size(0), Err(RegionError::ZeroSized));
    assert_eq!(SharedRegion::check_size(1), Ok(()));
}
