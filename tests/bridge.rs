use fuzzer::bridge::{
    bridge_error_message, check_region_fits, check_symbol, guard_region_bytes, log_line, parse_guard_count,
    symbol_scope, truncate_guard, BridgeError, GuardCountError, HookCell, SymbolError,
    SymbolScope,
};

#[test]
fn guard_257_reads_back_as_1() {
    assert_eq!(truncate_guard(257), 1);
    assert_eq!(guard_region_bytes(1, &[257]), Ok(vec![1]));
}

#[test]
fn guard_truncation_of_other_values() {
    assert_eq!(truncate_guard(-1), 255);
    assert_eq!(truncate_guard(256), 0);
    assert_eq!(truncate_guard(255), 255);
    assert_eq!(guard_region_bytes(3, &[0, 513, -256]), Ok(vec![0, 1, 0]));
}

#[test]
fn guard_size_mismatch_copies_nothing() {
    let r = guard_region_bytes(2, &[1, 2, 3]);
    assert_eq!(r, Err(BridgeError::SizeMismatch { region_len: 2, guard_count: 3 }));
    assert_eq!(
        bridge_error_message(r.unwrap_err()),
        "Memory sizes don't match. shmem: 2, guards: 3"
    );
}

#[test]
fn log_line_format() {
    assert_eq!(log_line(1700000000123, "boom"), "1700000000123: boom\n");
    assert_eq!(log_line(0, ""), "0: \n");
}

#[test]
fn guard_count_parsing() {
    assert_eq!(parse_guard_count(b"1234\n"), Ok(1234));
    assert_eq!(parse_guard_count(b"  +7 \t"), Ok(7));
    assert_eq!(parse_guard_count(b"0\n"), Err(GuardCountError::Zero));
    assert_eq!(parse_guard_count(b"000"), Err(GuardCountError::Zero));
    assert_eq!(parse_guard_count(b""), Err(GuardCountError::NotANumber));
    assert_eq!(parse_guard_count(b"\n"), Err(GuardCountError::NotANumber));
    assert_eq!(parse_guard_count(b"+"), Err(GuardCountError::NotANumber));
    assert_eq!(parse_guard_count(b"12a"), Err(GuardCountError::NotANumber));
    assert_eq!(parse_guard_count(b"-3"), Err(GuardCountError::NotANumber));
    assert_eq!(
        parse_guard_count(b"99999999999999999999999"),
        Err(GuardCountError::NotANumber)
    );
    assert_eq!(
        parse_guard_count(b"18446744073709551615"),
        Ok(18446744073709551615)
    );
}

#[test]
fn hook_cell_is_written_once_and_read_once() {
    let mut cell: HookCell<u32> = HookCell::new();
    assert_eq!(cell.take(), None);
    assert_eq!(cell.set(5), Ok(()));
    assert_eq!(cell.set(6), Err(6));
    assert_eq!(cell.take(), Some(5));
    assert_eq!(cell.take(), None);
    assert_eq!(cell.set(7), Err(7));
}

#[test]
fn symbol_checks() {
    assert_eq!(symbol_scope(true), SymbolScope::Global);
    assert_eq!(symbol_scope(false), SymbolScope::Next);
    assert_eq!(check_symbol(8, 8, true), Ok(()));
    assert_eq!(check_symbol(4, 8, true), Err(SymbolError::SizeMismatch));
    assert_eq!(check_symbol(8, 8, false), Err(SymbolError::NotFound));
}

#[test]
fn guard_count_parsing_follows_unicode_trim() {
    assert_eq!(parse_guard_count("\u{a0}42\u{3000}\n".as_bytes()), Ok(42));
    assert_eq!(parse_guard_count(&[0x34, 0xff]), Err(GuardCountError::NotANumber));
    assert_eq!(parse_guard_count("4 2".as_bytes()), Err(GuardCountError::NotANumber));
}

#[test]
fn region_fit_is_checked_before_reading_guards() {
    assert_eq!(check_region_fits(4, 4), Ok(()));
    assert_eq!(
        check_region_fits(4, 5),
        Err(BridgeError::SizeMismatch { region_len: 4, guard_count: 5 })
    );
}
