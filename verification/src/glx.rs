//! What the X11 flavour of the interface adds: its tokens and the version
//! of the extension.

use vstd::prelude::*;

verus! {

/// A connection to the display server. Opaque: it is only ever passed on.
pub struct Display {
    opaque: (),
}

/// Identifier of a drawable of the display server.
pub type GLXDrawable = libc::c_ulong;

/// Identifier of an off-screen drawable of the extension.
pub type GLXPixmap = libc::c_ulong;

/// Identifier of a pixmap of the display server.
pub type Pixmap = libc::c_ulong;

pub const GLX_BIND_TO_TEXTURE_RGB_EXT: libc::c_int = 0x20d0;
pub const GLX_BIND_TO_TEXTURE_RGBA_EXT: libc::c_int = 0x20d1;
pub const GLX_BIND_TO_MIPMAP_TEXTURE_EXT: libc::c_int = 0x20d2;
pub const GLX_BIND_TO_TEXTURE_TARGETS_EXT: libc::c_int = 0x20d3;
pub const GLX_Y_INVERTED_EXT: libc::c_int = 0x20d4;

pub const GLX_TEXTURE_FORMAT_EXT: libc::c_int = 0x20d5;
pub const GLX_TEXTURE_TARGET_EXT: libc::c_int = 0x20d6;
pub const GLX_MIPMAP_TEXTURE_EXT: libc::c_int = 0x20d7;

pub const GLX_TEXTURE_FORMAT_NONE_EXT: libc::c_int = 0x20d8;
pub const GLX_TEXTURE_FORMAT_RGB_EXT: libc::c_int = 0x20d9;
pub const GLX_TEXTURE_FORMAT_RGBA_EXT: libc::c_int = 0x20da;

pub const GLX_TEXTURE_1D_BIT_EXT: libc::c_int = 0x1;
pub const GLX_TEXTURE_2D_BIT_EXT: libc::c_int = 0x2;
pub const GLX_TEXTURE_RECTANGLE_BIT_EXT: libc::c_int = 0x4;

pub const GLX_TEXTURE_1D_EXT: libc::c_int = 0x20db;
pub const GLX_TEXTURE_2D_EXT: libc::c_int = 0x20dc;
pub const GLX_TEXTURE_RECTANGLE_EXT: libc::c_int = 0x20dd;

pub const GLX_FRONT_LEFT_EXT: libc::c_int = 0x20de;
pub const GLX_FRONT_RIGHT_EXT: libc::c_int = 0x20df;
pub const GLX_BACK_LEFT_EXT: libc::c_int = 0x20e0;
pub const GLX_BACK_RIGHT_EXT: libc::c_int = 0x20e1;
pub const GLX_FRONT_EXT: libc::c_int = GLX_FRONT_LEFT_EXT;
pub const GLX_BACK_EXT: libc::c_int = GLX_BACK_LEFT_EXT;
pub const GLX_AUX0_EXT: libc::c_int = 0x20e2;
pub const GLX_AUX1_EXT: libc::c_int = 0x20e3;
pub const GLX_AUX2_EXT: libc::c_int = 0x20e4;
pub const GLX_AUX3_EXT: libc::c_int = 0x20e5;
pub const GLX_AUX4_EXT: libc::c_int = 0x20e6;
pub const GLX_AUX5_EXT: libc::c_int = 0x20e7;
pub const GLX_AUX6_EXT: libc::c_int = 0x20e8;
pub const GLX_AUX7_EXT: libc::c_int = 0x20e9;
pub const GLX_AUX8_EXT: libc::c_int = 0x20ea;
pub const GLX_AUX9_EXT: libc::c_int = 0x20eb;

pub const GLX_DRAWABLE_TYPE: libc::c_int = 0x8010;
pub const GLX_RENDER_TYPE: libc::c_int = 0x8011;

pub const GLX_VENDOR: libc::c_int = 1;

pub const GLX_RGBA: libc::c_int = 4;
pub const GLX_DOUBLEBUFFER: libc::c_int = 5;
pub const GLX_ALPHA_SIZE: libc::c_int = 11;
pub const GLX_DEPTH_SIZE: libc::c_int = 12;

pub const GLX_WINDOW_BIT: libc::c_int = 0x01;
pub const GLX_PIXMAP_BIT: libc::c_int = 0x02;
pub const GLX_PBUFFER_BIT: libc::c_int = 0x04;
pub const GLX_AUX_BUFFERS_BIT: libc::c_int = 0x10;

pub const GLX_RGBA_BIT: libc::c_int = 0x00000001;

/// The version of the extension, major number first, from the two numbers
/// that the server's version query wrote.
pub fn get_version(major: libc::c_int, minor: libc::c_int) -> (version: (isize, isize))
    ensures
        version.0 == major,
        version.1 == minor,
{
    (major as isize, minor as isize)
}

} // verus!
