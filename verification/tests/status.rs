use rusty_mouse::status::{nt_success, NtStatus, STATUS_SUCCESS};

#[test]
fn success_status_is_zero() {
    assert_eq!(STATUS_SUCCESS, 0);
    assert!(nt_success(STATUS_SUCCESS));
}

#[test]
fn success_and_informational_codes_succeed() {
    assert!(nt_success(1));
    assert!(nt_success(0x3FFF_FFFF));
    assert!(nt_success(0x4000_0000));
    assert!(nt_success(NtStatus::MAX));
}

#[test]
fn warning_and_error_codes_fail() {
    assert!(!nt_success(-1));
    assert!(!nt_success(-0x4000_0000));
    assert!(!nt_success(-0x3FFF_FFFF));
    assert!(!nt_success(NtStatus::MIN));
}

#[test]
fn success_turns_at_zero() {
    let statuses: Vec<NtStatus> = vec![-3, -2, -1, 0, 1, 2, 3];
    for status in statuses {
        assert_eq!(nt_success(status), status >= 0);
    }
}
