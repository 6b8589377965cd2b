use template_helpers::command::{CommandResult, SPAWN_FAILURE_CODE};

#[test]
fn exited_keeps_code_and_streams() {
    let r = CommandResult::exited(Some(3), b"out\n".to_vec(), b"err\n".to_vec());
    assert_eq!(r.code, 3);
    assert_eq!(r.stdout, b"out\n".to_vec());
    assert_eq!(r.stderr, b"err\n".to_vec());
}

#[test]
fn exited_without_code_reports_zero() {
    let r = CommandResult::exited(None, Vec::new(), vec![0xff, 0x00]);
    assert_eq!(r.code, 0);
    assert!(r.stdout.is_empty());
    assert_eq!(r.stderr, vec![0xff, 0x00]);
}

#[test]
fn spawn_failure_uses_sentinel() {
    let r = CommandResult::spawn_failed("No such file or directory (os error 2)");
    assert_eq!(r.code, 999999);
    assert_eq!(SPAWN_FAILURE_CODE, 999999);
    assert_eq!(r.stdout, b"Fail to execute command!".to_vec());
    assert_eq!(r.stderr, b"No such file or directory (os error 2)".to_vec());
}

#[test]
fn spawn_failure_keeps_non_ascii_reason() {
    let r = CommandResult::spawn_failed("é");
    assert_eq!(r.stderr, vec![0xc3, 0xa9]);
}
