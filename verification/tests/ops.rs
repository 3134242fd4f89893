//! Operation codes, their decoding, and the raw status-code conventions.

use flash_algorithm::{status_code, ErrorCode, Operation, ERASE, PROGRAM, VERIFY};

#[test]
fn operation_codes_match_the_binary_contract() {
    assert_eq!(ERASE, 1);
    assert_eq!(PROGRAM, 2);
    assert_eq!(VERIFY, 3);
    assert_eq!(Operation::Erase.code(), 1);
    assert_eq!(Operation::Program.code(), 2);
    assert_eq!(Operation::Verify.code(), 3);
}

#[test]
fn decode_recognizes_exactly_the_three_codes() {
    assert_eq!(Operation::decode(1), Some(Operation::Erase));
    assert_eq!(Operation::decode(2), Some(Operation::Program));
    assert_eq!(Operation::decode(3), Some(Operation::Verify));
    assert_eq!(Operation::decode(0), None);
    assert_eq!(Operation::decode(4), None);
    assert_eq!(Operation::decode(u32::MAX), None);
}

#[test]
fn invalid_operation_code_has_no_decoding() {
    // the raw boundary aborts rather than returning when it meets such a
    // code; the library surfaces the condition as the absent decoding
    assert_eq!(Operation::decode(9), None);
}

#[test]
fn decode_inverts_code() {
    for op in [Operation::Erase, Operation::Program, Operation::Verify] {
        assert_eq!(Operation::decode(op.code()), Some(op));
    }
}

#[test]
fn status_code_collapses_results() {
    assert_eq!(status_code(Ok(())), 0);
    assert_eq!(status_code(Err(ErrorCode::new(5))), 5);
    assert_eq!(status_code(Err(ErrorCode::new(1))), 1);
    assert_eq!(status_code(Err(ErrorCode::new(u32::MAX))), u32::MAX);
}

#[test]
fn error_code_round_trips_its_raw_value() {
    assert_eq!(ErrorCode::new(9).get(), 9);
}
