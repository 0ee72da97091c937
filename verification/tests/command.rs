use ops::command::{ExitStatus, ExitStatusEx};

#[test]
fn exit_code_zero_is_a_success() {
    let status = ExitStatus { code: Some(0) };
    assert!(status.success());
    assert_eq!(status.code(), Some(0));
    assert_eq!(status.exit_ok_(), Ok(()));
}

#[test]
fn another_exit_code_is_no_success() {
    for code in [1, 2, 127, 255, -1] {
        let status = ExitStatus { code: Some(code) };
        assert!(!status.success());
        assert_eq!(status.code(), Some(code));
        assert_eq!(status.exit_ok_(), Err(status));
    }
}

#[test]
fn an_end_by_signal_is_no_success() {
    let status = ExitStatus { code: None };
    assert!(!status.success());
    assert_eq!(status.code(), None);
    assert_eq!(status.exit_ok_(), Err(ExitStatus { code: None }));
}
