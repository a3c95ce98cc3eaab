use capture_core::cerror::{CError, ErrorKind, CODE_NO_TARGETS, CODE_SUCCESS};

#[test]
fn fresh_outcome_is_success() {
    let err = CError::new();
    assert_eq!(err.code(), 0);
    assert_eq!(err.code(), CODE_SUCCESS);
    assert!(!err.is_err());
    assert_eq!(err.kind(), ErrorKind::Success);
    assert_eq!(err.message, "");
}

#[test]
fn nonzero_code_is_an_error() {
    for code in [1, 2, 3, -1, i32::MIN, i32::MAX] {
        let err = CError { code, message: String::from("failed") };
        assert!(err.is_err());
        assert_eq!(err.code(), code);
    }
}

#[test]
fn only_the_no_targets_code_is_advisory() {
    assert_eq!(CODE_NO_TARGETS, 2);
    let advisory = CError { code: 2, message: String::from("no windows") };
    assert_eq!(advisory.kind(), ErrorKind::NoTargets);
    for code in [1, 3, 4, -2, 22, i32::MAX] {
        let err = CError { code, message: String::new() };
        assert_eq!(err.kind(), ErrorKind::Fatal);
    }
}

#[test]
fn native_outcome_keeps_code_and_text() {
    let err = CError::from_native(2, b"no windows found");
    assert_eq!(err.code(), 2);
    assert_eq!(err.message, "no windows found");
    assert_eq!(err.kind(), ErrorKind::NoTargets);
    let ok = CError::from_native(0, b"");
    assert!(!ok.is_err());
    assert_eq!(ok.message, "");
}

#[test]
fn native_text_with_invalid_bytes_is_still_text() {
    let err = CError::from_native(-3, b"bad \xff\xfe text");
    assert_eq!(err.code(), -3);
    assert_eq!(err.message, "bad \u{fffd}\u{fffd} text");
    let err = CError::from_native(1, "gr\u{fc}n".as_bytes());
    assert_eq!(err.message, "gr\u{fc}n");
}
