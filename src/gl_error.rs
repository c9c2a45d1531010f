//! Human-readable messages for the driver's error codes.

use vstd::prelude::*;
use crate::gl_enums::{
    INVALID_ENUM, INVALID_FRAMEBUFFER_OPERATION, INVALID_OPERATION, INVALID_VALUE, NO_ERROR,
    OUT_OF_MEMORY, STACK_OVERFLOW, STACK_UNDERFLOW,
};

verus! {

/// The message reported for an error code; `None` for `NO_ERROR`.
pub open spec fn gl_error_message(error: u32) -> Option<Seq<char>> {
    if error == NO_ERROR {
        None
    } else if error == INVALID_ENUM {
        Some("GlError: INVALID ENUM"@)
    } else if error == INVALID_VALUE {
        Some("GlError: INVALID VALUE"@)
    } else if error == INVALID_OPERATION {
        Some("GlError: INVALID OPERATION"@)
    } else if error == STACK_OVERFLOW {
        Some("GlError: STACK OVERFLOW"@)
    } else if error == STACK_UNDERFLOW {
        Some("GlError: STACK UNDERFLOW"@)
    } else if error == OUT_OF_MEMORY {
        Some("GlError: OUT OF MEMORY"@)
    } else if error == INVALID_FRAMEBUFFER_OPERATION {
        Some("GlError: INVALID FRAMEBUFFER OPERATION"@)
    } else {
        Some("GlError: Unknown glError"@)
    }
}

/// Describes an error code returned by `glGetError`.
pub fn get_gl_error_string(error: u32) -> (r: Option<&'static str>)
    ensures
        r.is_none() <==> error == NO_ERROR,
        r.is_some() ==> Some(r.unwrap()@) == gl_error_message(error),
{
    if error == NO_ERROR {
        None
    } else if error == INVALID_ENUM {
        Some("GlError: INVALID ENUM")
    } else if error == INVALID_VALUE {
        Some("GlError: INVALID VALUE")
    } else if error == INVALID_OPERATION {
        Some("GlError: INVALID OPERATION")
    } else if error == STACK_OVERFLOW {
        Some("GlError: STACK OVERFLOW")
    } else if error == STACK_UNDERFLOW {
        Some("GlError: STACK UNDERFLOW")
    } else if error == OUT_OF_MEMORY {
        Some("GlError: OUT OF MEMORY")
    } else if error == INVALID_FRAMEBUFFER_OPERATION {
        Some("GlError: INVALID FRAMEBUFFER OPERATION")
    } else {
        Some("GlError: Unknown glError")
    }
}

} // verus!
