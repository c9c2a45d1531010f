//! Sizes of the scalar types that vertex attributes can be made of.

use vstd::prelude::*;
use crate::gl_enums::{BOOL, BYTE, FLOAT, INT, SHORT, UNSIGNED_BYTE, UNSIGNED_INT};

verus! {

/// Size in bytes of one value of a driver scalar type, when the type is known.
pub open spec fn gl_type_size(gl_type: u32) -> Option<nat> {
    if gl_type == FLOAT || gl_type == INT || gl_type == UNSIGNED_INT {
        Some(4)
    } else if gl_type == SHORT {
        Some(2)
    } else if gl_type == BYTE || gl_type == UNSIGNED_BYTE || gl_type == BOOL {
        Some(1)
    } else {
        None
    }
}

/// Size in bytes of a `GLfloat`, `GLint`, `GLuint`, `GLbyte`, `GLubyte`,
/// `GLshort` or `GLboolean`; `None` for any other type enum.
pub fn size_of_gl_type(gl_type: u32) -> (r: Option<usize>)
    ensures
        r.is_some() <==> gl_type_size(gl_type).is_some(),
        r.is_some() ==> r.unwrap() as nat == gl_type_size(gl_type).unwrap(),
{
    if gl_type == FLOAT {
        Some(4)
    } else if gl_type == INT {
        Some(4)
    } else if gl_type == UNSIGNED_INT {
        Some(4)
    } else if gl_type == BYTE {
        Some(1)
    } else if gl_type == UNSIGNED_BYTE {
        Some(1)
    } else if gl_type == SHORT {
        Some(2)
    } else if gl_type == BOOL {
        Some(1)
    } else {
        None
    }
}

} // verus!
