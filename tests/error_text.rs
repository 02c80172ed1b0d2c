use chemapp::error::{decimal_text, native_error_description};
use chemapp::ChemAppError;

#[test]
fn native_error_with_known_code() {
    let e = ChemAppError::NativeError(101);
    assert_eq!(e.description(), "ChemApp error 101, The subroutine 'TQINI' must be called first");
}

#[test]
fn native_error_with_unknown_code() {
    let e = ChemAppError::NativeError(4242);
    assert_eq!(e.description(), "Unrecognized ChemApp error 4242");
}

#[test]
fn native_error_zero_is_no_error() {
    assert_eq!(ChemAppError::NativeError(0).description(), "ChemApp error 0, No error");
}

#[test]
fn native_error_last_entry_of_table() {
    assert_eq!(
        ChemAppError::NativeError(1025).description(),
        "ChemApp error 1025, No equation-of-state terms have been entered for the requested phase"
    );
}

#[test]
fn message_errors_describe_themselves() {
    assert_eq!(ChemAppError::LoadError("cannot open".to_string()).description(), "cannot open");
    assert_eq!(ChemAppError::FormatError("bad text".to_string()).description(), "bad text");
    assert_eq!(ChemAppError::ConvergenceError("no root".to_string()).description(), "no root");
    assert_eq!(ChemAppError::CustomError("mine".to_string()).description(), "mine");
}

#[test]
fn table_lookup() {
    assert_eq!(native_error_description(711), Some("Target calculation aborted; no solution is found within the permitted interval"));
    assert_eq!(native_error_description(505), Some("Enter the lower and upper limits of the target variable in reverse order"));
    assert_eq!(native_error_description(100), None);
    assert_eq!(native_error_description(usize::MAX), None);
}

#[test]
fn decimal_rendering() {
    assert_eq!(decimal_text(0), "0");
    assert_eq!(decimal_text(7), "7");
    assert_eq!(decimal_text(10), "10");
    assert_eq!(decimal_text(1234567), "1234567");
    assert_eq!(decimal_text(usize::MAX), usize::MAX.to_string());
}
