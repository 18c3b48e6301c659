//! Error-register decoding and build-status checks.

use uni_gl::error::{decode_native_error, decode_web_error, status_ok, ErrorReason};

#[test]
fn no_error_decodes_to_nothing() {
    assert_eq!(decode_native_error(0), None);
    assert_eq!(decode_web_error(0), None);
}

#[test]
fn native_codes_decode_to_their_reasons() {
    assert_eq!(decode_native_error(0x0500), Some(ErrorReason::InvalidEnum));
    assert_eq!(decode_native_error(0x0501), Some(ErrorReason::InvalidValue));
    assert_eq!(decode_native_error(0x0502), Some(ErrorReason::InvalidOperation));
    assert_eq!(decode_native_error(0x0503), Some(ErrorReason::StackOverflow));
    assert_eq!(decode_native_error(0x0504), Some(ErrorReason::StackUnderflow));
    assert_eq!(decode_native_error(0x0505), Some(ErrorReason::OutOfMemory));
    assert_eq!(
        decode_native_error(0x0506),
        Some(ErrorReason::InvalidFramebufferOperation)
    );
}

#[test]
fn unrecognized_native_code_is_unknown() {
    assert_eq!(decode_native_error(0x1234), Some(ErrorReason::Unknown));
    // The browser-only context-lost code means nothing to the native
    // backend.
    assert_eq!(decode_native_error(0x9242), Some(ErrorReason::Unknown));
}

#[test]
fn web_codes_decode_to_their_reasons() {
    assert_eq!(decode_web_error(0x0500), Some(ErrorReason::InvalidEnum));
    assert_eq!(decode_web_error(0x0501), Some(ErrorReason::InvalidValue));
    assert_eq!(decode_web_error(0x0502), Some(ErrorReason::InvalidOperation));
    assert_eq!(decode_web_error(0x0505), Some(ErrorReason::OutOfMemory));
    assert_eq!(
        decode_web_error(0x0506),
        Some(ErrorReason::InvalidFramebufferOperation)
    );
    assert_eq!(decode_web_error(0x9242), Some(ErrorReason::ContextLost));
}

#[test]
fn stack_codes_mean_nothing_to_the_web_backend() {
    assert_eq!(decode_web_error(0x0503), Some(ErrorReason::Unknown));
    assert_eq!(decode_web_error(0x0504), Some(ErrorReason::Unknown));
}

#[test]
fn reasons_describe_themselves() {
    assert_eq!(ErrorReason::InvalidEnum.describe(), "invalid enum");
    assert_eq!(ErrorReason::InvalidOperation.describe(), "invalid operation");
    assert_eq!(ErrorReason::InvalidValue.describe(), "invalid value");
    assert_eq!(ErrorReason::OutOfMemory.describe(), "out of memory");
    assert_eq!(ErrorReason::StackOverflow.describe(), "stack overflow");
    assert_eq!(ErrorReason::StackUnderflow.describe(), "stack underflow");
    assert_eq!(
        ErrorReason::InvalidFramebufferOperation.describe(),
        "invalid framebuffer operation"
    );
    assert_eq!(ErrorReason::ContextLost.describe(), "context lost");
    assert_eq!(ErrorReason::Unknown.describe(), "unknown error");
}

#[test]
fn build_status_is_checked_against_true() {
    assert!(status_ok(1));
    assert!(!status_ok(0));
    assert!(!status_ok(-1));
    assert!(!status_ok(2));
}
