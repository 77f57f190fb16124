//! Typed entry points in front of a native OpenGL-family driver.
//!
//! The driver is reached through raw C calls, which only the binding layer
//! around this crate may issue. Everything that decides what such a call
//! carries is here: the attribute-list protocol for negotiating a pixel
//! format, the life cycle of rendering contexts, the table of optional
//! capabilities, and the sizes, counts and encodings that cross the boundary.
//! Each function takes plain values and returns plain values, so that its
//! contract says exactly what the driver is handed and what is made of its
//! reply.

pub mod attribute;
pub mod capability;
pub mod cgl;
pub mod context;
pub mod error;
pub mod gl2;
pub mod glx;
pub mod laws;
pub mod negotiation;
pub mod tokens;
pub mod types;
