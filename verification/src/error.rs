//! Decoding of backend error registers and build-status flags.
//!
//! Both backends report operation errors through a global error register that
//! is queried after a call; the code is translated here into a symbolic
//! reason for the diagnostic message.  The two backends recognize slightly
//! different vocabularies, and they disagree on severity as well: the native
//! backend treats a shader compile or link failure as fatal, while the
//! browser backend logs the diagnostic and continues the frame.  That
//! asymmetry is deliberate and is left to the shells that perform the calls;
//! this module only decides what a code means.

use vstd::prelude::*;
use crate::glenum::STATUS_TRUE;

verus! {

/// The symbolic reason behind a non-zero error code.
#[derive(Clone, Copy, PartialEq, Eq, Structural, Debug)]
pub enum ErrorReason {
    InvalidEnum,
    InvalidOperation,
    InvalidValue,
    OutOfMemory,
    StackOverflow,
    StackUnderflow,
    InvalidFramebufferOperation,
    ContextLost,
    Unknown,
}

impl ErrorReason {
    /// The diagnostic text for this reason.
    pub open spec fn spec_describe(self) -> Seq<char> {
        match self {
            ErrorReason::InvalidEnum => "invalid enum"@,
            ErrorReason::InvalidOperation => "invalid operation"@,
            ErrorReason::InvalidValue => "invalid value"@,
            ErrorReason::OutOfMemory => "out of memory"@,
            ErrorReason::StackOverflow => "stack overflow"@,
            ErrorReason::StackUnderflow => "stack underflow"@,
            ErrorReason::InvalidFramebufferOperation => "invalid framebuffer operation"@,
            ErrorReason::ContextLost => "context lost"@,
            ErrorReason::Unknown => "unknown error"@,
        }
    }

    /// The human-readable half of a diagnostic: the symbolic reason's text.
    pub fn describe(&self) -> (s: &'static str)
        ensures
            s@ == self.spec_describe(),
    {
        match self {
            ErrorReason::InvalidEnum => "invalid enum",
            ErrorReason::InvalidOperation => "invalid operation",
            ErrorReason::InvalidValue => "invalid value",
            ErrorReason::OutOfMemory => "out of memory",
            ErrorReason::StackOverflow => "stack overflow",
            ErrorReason::StackUnderflow => "stack underflow",
            ErrorReason::InvalidFramebufferOperation => "invalid framebuffer operation",
            ErrorReason::ContextLost => "context lost",
            ErrorReason::Unknown => "unknown error",
        }
    }
}

/// What the native backend's error register means: zero is "no error", the
/// recognized codes name their reason, and any other non-zero code is an
/// unknown error.
pub open spec fn spec_native_error(code: u32) -> Option<ErrorReason> {
    if code == 0 {
        None
    } else if code == 0x0500 {
        Some(ErrorReason::InvalidEnum)
    } else if code == 0x0501 {
        Some(ErrorReason::InvalidValue)
    } else if code == 0x0502 {
        Some(ErrorReason::InvalidOperation)
    } else if code == 0x0503 {
        Some(ErrorReason::StackOverflow)
    } else if code == 0x0504 {
        Some(ErrorReason::StackUnderflow)
    } else if code == 0x0505 {
        Some(ErrorReason::OutOfMemory)
    } else if code == 0x0506 {
        Some(ErrorReason::InvalidFramebufferOperation)
    } else {
        Some(ErrorReason::Unknown)
    }
}

/// Decode the native backend's error register.  An absent result means the
/// register read "no error"; any non-zero code yields a reason for the
/// diagnostic, which on this backend is fatal.
pub fn decode_native_error(code: u32) -> (r: Option<ErrorReason>)
    ensures
        r == spec_native_error(code),
        r is None <==> code == 0,
{
    if code == 0 {
        None
    } else if code == 0x0500 {
        Some(ErrorReason::InvalidEnum)
    } else if code == 0x0501 {
        Some(ErrorReason::InvalidValue)
    } else if code == 0x0502 {
        Some(ErrorReason::InvalidOperation)
    } else if code == 0x0503 {
        Some(ErrorReason::StackOverflow)
    } else if code == 0x0504 {
        Some(ErrorReason::StackUnderflow)
    } else if code == 0x0505 {
        Some(ErrorReason::OutOfMemory)
    } else if code == 0x0506 {
        Some(ErrorReason::InvalidFramebufferOperation)
    } else {
        Some(ErrorReason::Unknown)
    }
}

/// What the browser backend's error register means: zero is "no error"; the
/// recognized codes include the context-lost condition particular to the
/// browser, but not the stack conditions, which that API never reports.
pub open spec fn spec_web_error(code: u32) -> Option<ErrorReason> {
    if code == 0 {
        None
    } else if code == 0x0500 {
        Some(ErrorReason::InvalidEnum)
    } else if code == 0x0501 {
        Some(ErrorReason::InvalidValue)
    } else if code == 0x0502 {
        Some(ErrorReason::InvalidOperation)
    } else if code == 0x0505 {
        Some(ErrorReason::OutOfMemory)
    } else if code == 0x0506 {
        Some(ErrorReason::InvalidFramebufferOperation)
    } else if code == 0x9242 {
        Some(ErrorReason::ContextLost)
    } else {
        Some(ErrorReason::Unknown)
    }
}

/// Decode the browser backend's error register.  An absent result means the
/// register read "no error"; any non-zero code yields a reason that is
/// logged, after which the frame continues — errors are not fatal on this
/// backend.
pub fn decode_web_error(code: u32) -> (r: Option<ErrorReason>)
    ensures
        r == spec_web_error(code),
        r is None <==> code == 0,
{
    if code == 0 {
        None
    } else if code == 0x0500 {
        Some(ErrorReason::InvalidEnum)
    } else if code == 0x0501 {
        Some(ErrorReason::InvalidValue)
    } else if code == 0x0502 {
        Some(ErrorReason::InvalidOperation)
    } else if code == 0x0505 {
        Some(ErrorReason::OutOfMemory)
    } else if code == 0x0506 {
        Some(ErrorReason::InvalidFramebufferOperation)
    } else if code == 0x9242 {
        Some(ErrorReason::ContextLost)
    } else {
        Some(ErrorReason::Unknown)
    }
}

/// Whether a compile or link status query reports success.  Shader and
/// program builds are checked against this after the backend call; a failing
/// status is followed by fetching the backend's own diagnostic log.
pub fn status_ok(status: i32) -> (r: bool)
    ensures
        r <==> status == STATUS_TRUE,
{
    status == STATUS_TRUE
}

} // verus!
