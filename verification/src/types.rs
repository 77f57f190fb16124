//! Scalar types of the driver's C interface.

use vstd::prelude::*;

verus! {

/// Character of a driver string.
pub type GLchar = libc::c_char;

/// Enumerated driver token.
pub type GLenum = libc::c_uint;

/// Driver boolean: zero is false, anything else is true.
pub type GLboolean = libc::c_uchar;

/// Set of bit flags.
pub type GLbitfield = libc::c_uint;

/// Signed 8-bit integer.
pub type GLbyte = i8;

/// Signed 16-bit integer.
pub type GLshort = libc::c_short;

/// Signed 32-bit integer.
pub type GLint = libc::c_int;

/// Count or extent; the driver rejects negative values.
pub type GLsizei = libc::c_int;

/// Unsigned 8-bit integer.
pub type GLubyte = u8;

/// Unsigned 16-bit integer.
pub type GLushort = libc::c_ushort;

/// Unsigned 32-bit integer; also the type of object names.
pub type GLuint = libc::c_uint;

/// 16.16 fixed-point number.
pub type GLfixed = i32;

/// Byte offset into a buffer object, as wide as a pointer.
pub type GLintptr = libc::intptr_t;

/// Byte length of a buffer object's store, as wide as a pointer.
pub type GLsizeiptr = libc::ssize_t;

/// Code in the driver's error flag. The flag is the driver's own, set apart
/// from any one call; zero means that no error is recorded.
pub type DriverErrorCode = GLenum;

/// Consumes a value, releasing whatever it owns.
pub fn destroy<T>(_x: T) {
}

/// The driver's encoding of a boolean.
pub open spec fn spec_gl_boolean(flag: bool) -> GLboolean {
    if flag {
        1
    } else {
        0
    }
}

/// Encodes a boolean for the driver: `1` for true, `0` for false.
pub fn gl_boolean(flag: bool) -> (b: GLboolean)
    ensures
        b == spec_gl_boolean(flag),
{
    if flag {
        1
    } else {
        0
    }
}

/// Reads a boolean that the driver returned: every non-zero value is true.
pub fn gl_true(reply: GLboolean) -> (flag: bool)
    ensures
        flag == (reply != 0),
{
    reply > 0
}

} // verus!
