//! The command marshaler: what each driver command is handed, and what is
//! made of what the driver hands back.
//!
//! A function here never talks to the driver. One that prepares a command
//! returns the scalars of the raw call (the binding layer adds the pointers
//! and issues it); one that reads a reply takes what the driver wrote as an
//! argument. A command of an optional capability returns
//! [`GlError::UnsupportedOperation`] in place of a call when the capability
//! is absent, so that nothing reaches a driver that lacks the entry point.

use vstd::prelude::*;
use vstd::string::*;
use vstd::utf8::{encode_utf8, valid_utf8};
use crate::capability::{Capability, CapabilityTable};
use crate::error::GlError;
use crate::tokens::{BYTE, FLOAT, INT, NO_ERROR, UNSIGNED_BYTE};
use crate::types::{gl_boolean, spec_gl_boolean, DriverErrorCode, GLboolean, GLenum, GLint,
    GLintptr, GLsizei, GLsizeiptr, GLuint};

verus! {

/// Size of the staging region into which the driver writes an info log.
pub const INFO_LOG_CAPACITY: usize = 1024;

/// Bytes occupied by `count` elements of type `T`.
pub open spec fn byte_length<T>(count: nat) -> nat {
    count * vstd::layout::size_of::<T>()
}

/// Scalars of a whole-store buffer upload.
#[derive(Clone, Copy, Debug, PartialEq, Eq, Structural)]
pub struct BufferData {
    pub target: GLenum,
    /// Length of the uploaded data in bytes.
    pub size: GLsizeiptr,
    pub usage: GLenum,
}

/// Scalars of a partial buffer upload.
#[derive(Clone, Copy, Debug, PartialEq, Eq, Structural)]
pub struct BufferSubData {
    pub target: GLenum,
    /// Where the data goes in the store, in bytes.
    pub offset: GLintptr,
    /// Length of the uploaded data in bytes.
    pub size: GLsizeiptr,
}

/// Prepares the upload of `data` as the whole store of the buffer bound to
/// `target`. The byte length is the number of elements times the size of
/// one, also for an empty slice.
///
/// Every slice meets the precondition: no Rust object is larger than
/// `isize::MAX` bytes.
pub fn buffer_data<T>(target: GLenum, data: &[T], usage: GLenum) -> (call: BufferData)
    requires
        byte_length::<T>(data@.len()) <= isize::MAX,
    ensures
        call.target == target,
        call.size == byte_length::<T>(data@.len()),
        call.size == data@.len() * vstd::layout::size_of::<T>(),
        call.usage == usage,
{
    let element_size: usize = core::mem::size_of::<T>();
    let size: usize = data.len() * element_size;
    BufferData { target, size: size as GLsizeiptr, usage }
}

/// Prepares the upload of `data` into the buffer bound to `target`, starting
/// at the element with index `element_offset_index`. The caller counts in
/// elements; the driver is handed bytes.
pub fn buffer_sub_data<T>(target: GLenum, element_offset_index: usize, data: &[T]) -> (call:
    BufferSubData)
    requires
        byte_length::<T>(element_offset_index as nat) <= isize::MAX,
        byte_length::<T>(data@.len()) <= isize::MAX,
    ensures
        call.target == target,
        call.offset == byte_length::<T>(element_offset_index as nat),
        call.offset == element_offset_index * vstd::layout::size_of::<T>(),
        call.size == byte_length::<T>(data@.len()),
        call.size == data@.len() * vstd::layout::size_of::<T>(),
{
    let element_size: usize = core::mem::size_of::<T>();
    let offset: usize = element_offset_index * element_size;
    let size: usize = data.len() * element_size;
    BufferSubData { target, offset: offset as GLintptr, size: size as GLsizeiptr }
}

/// Number of indices that an indexed draw submits: the requested count, but
/// never more than an explicit index view holds.
pub open spec fn submitted_count(count: GLsizei, indices: Option<&[u8]>) -> int {
    match indices {
        Some(view) => if view@.len() < count {
            view@.len() as int
        } else {
            count as int
        },
        None => count as int,
    }
}

/// Scalars of an indexed draw.
#[derive(Clone, Copy, Debug, PartialEq, Eq, Structural)]
pub struct DrawElements {
    pub mode: GLenum,
    /// Number of indices submitted, after clamping.
    pub count: GLsizei,
    pub element_type: GLenum,
    /// Whether the indices come from a client view (else from the bound
    /// element buffer, at offset zero).
    pub client_indices: bool,
}

/// Scalars of an instanced indexed draw.
#[derive(Clone, Copy, Debug, PartialEq, Eq, Structural)]
pub struct DrawElementsInstanced {
    pub mode: GLenum,
    /// Number of indices submitted, after clamping.
    pub count: GLsizei,
    pub element_type: GLenum,
    /// Whether the indices come from a client view.
    pub client_indices: bool,
    pub primcount: GLsizei,
}

/// Scalars of an instanced array draw.
#[derive(Clone, Copy, Debug, PartialEq, Eq, Structural)]
pub struct DrawArraysInstanced {
    pub mode: GLenum,
    pub first: GLint,
    pub count: GLsizei,
    pub primcount: GLsizei,
}

/// Clamps a requested index count to an explicit index view.
fn clamp_count(count: GLsizei, indices: Option<&[u8]>) -> (submitted: GLsizei)
    ensures
        submitted == submitted_count(count, indices),
{
    match indices {
        Some(view) => {
            if count > 0 && view.len() < count as usize {
                view.len() as GLsizei
            } else {
                count
            }
        },
        None => count,
    }
}

/// Prepares an indexed draw. With an explicit index view, a request for
/// more indices than the view holds is cut down to the view's length, so
/// that the driver never reads past its end.
pub fn draw_elements(
    mode: GLenum,
    count: GLsizei,
    element_type: GLenum,
    indices: Option<&[u8]>,
) -> (call: DrawElements)
    ensures
        call.mode == mode,
        call.count == submitted_count(count, indices),
        call.element_type == element_type,
        call.client_indices == indices.is_some(),
        indices matches Some(view) ==> (view@.len() < count ==> call.count == view@.len()),
        indices matches Some(view) ==> (view@.len() >= count ==> call.count == count),
        indices.is_none() ==> call.count == count,
{
    DrawElements {
        mode,
        count: clamp_count(count, indices),
        element_type,
        client_indices: indices.is_some(),
    }
}

/// Prepares an instanced indexed draw, clamped as [`draw_elements`] is.
/// Needs [`Capability::InstancedDrawing`].
pub fn draw_elements_instanced(
    caps: &CapabilityTable,
    mode: GLenum,
    count: GLsizei,
    element_type: GLenum,
    indices: Option<&[u8]>,
    primcount: GLsizei,
) -> (r: Result<DrawElementsInstanced, GlError>)
    ensures
        !caps.has(Capability::InstancedDrawing) ==> r == Err::<DrawElementsInstanced, GlError>(
            GlError::UnsupportedOperation,
        ),
        caps.has(Capability::InstancedDrawing) ==> r == Ok::<DrawElementsInstanced, GlError>(
            DrawElementsInstanced {
                mode,
                count: submitted_count(count, indices) as GLsizei,
                element_type,
                client_indices: indices.is_some(),
                primcount,
            },
        ),
        r matches Ok(call) ==> (indices matches Some(view) ==> (view@.len() < count
            ==> call.count == view@.len())),
{
    if !caps.has(Capability::InstancedDrawing) {
        return Err(GlError::UnsupportedOperation);
    }
    Ok(
        DrawElementsInstanced {
            mode,
            count: clamp_count(count, indices),
            element_type,
            client_indices: indices.is_some(),
            primcount,
        },
    )
}

/// Prepares an instanced array draw. Needs [`Capability::InstancedDrawing`].
pub fn draw_arrays_instanced(
    caps: &CapabilityTable,
    mode: GLenum,
    first: GLint,
    count: GLsizei,
    primcount: GLsizei,
) -> (r: Result<DrawArraysInstanced, GlError>)
    ensures
        !caps.has(Capability::InstancedDrawing) ==> r == Err::<DrawArraysInstanced, GlError>(
            GlError::UnsupportedOperation,
        ),
        caps.has(Capability::InstancedDrawing) ==> r == Ok::<DrawArraysInstanced, GlError>(
            DrawArraysInstanced { mode, first, count, primcount },
        ),
{
    if !caps.has(Capability::InstancedDrawing) {
        return Err(GlError::UnsupportedOperation);
    }
    Ok(DrawArraysInstanced { mode, first, count, primcount })
}

/// Prepares the binding of a vertex array object: the name to bind. Needs
/// [`Capability::VertexArrayObjects`].
pub fn bind_vertex_array(caps: &CapabilityTable, array: GLuint) -> (r: Result<GLuint, GlError>)
    ensures
        !caps.has(Capability::VertexArrayObjects) ==> r == Err::<GLuint, GlError>(
            GlError::UnsupportedOperation,
        ),
        caps.has(Capability::VertexArrayObjects) ==> r == Ok::<GLuint, GlError>(array),
{
    if !caps.has(Capability::VertexArrayObjects) {
        return Err(GlError::UnsupportedOperation);
    }
    Ok(array)
}

/// Scalars of setting a vertex attribute's per-instance advance rate.
#[derive(Clone, Copy, Debug, PartialEq, Eq, Structural)]
pub struct VertexAttribDivisor {
    pub index: GLuint,
    pub divisor: GLuint,
}

/// Prepares setting the rate at which a vertex attribute advances per
/// instance. Needs [`Capability::InstancedArrays`], which no table has
/// without [`Capability::InstancedDrawing`]: where instanced drawing is
/// absent, this command is refused with the rest of it.
pub fn vertex_attrib_divisor(caps: &CapabilityTable, index: GLuint, divisor: GLuint) -> (r: Result<
    VertexAttribDivisor,
    GlError,
>)
    ensures
        !caps.has(Capability::InstancedArrays) ==> r == Err::<VertexAttribDivisor, GlError>(
            GlError::UnsupportedOperation,
        ),
        !caps.has(Capability::InstancedDrawing) ==> r == Err::<VertexAttribDivisor, GlError>(
            GlError::UnsupportedOperation,
        ),
        caps.has(Capability::InstancedArrays) ==> r == Ok::<VertexAttribDivisor, GlError>(
            VertexAttribDivisor { index, divisor },
        ),
{
    if !caps.has(Capability::InstancedArrays) {
        return Err(GlError::UnsupportedOperation);
    }
    Ok(VertexAttribDivisor { index, divisor })
}

/// Scalars of announcing a client memory range for textures.
#[derive(Clone, Copy, Debug, PartialEq, Eq, Structural)]
pub struct TextureRange {
    pub target: GLenum,
    /// Length of the range in bytes.
    pub length: GLsizei,
}

/// Prepares the announcement of `buffer` as the memory range of the textures
/// bound to `target`. Needs [`Capability::TextureRange`].
pub fn texture_range(caps: &CapabilityTable, target: GLenum, buffer: &[u8]) -> (r: Result<
    TextureRange,
    GlError,
>)
    requires
        caps.has(Capability::TextureRange) ==> buffer@.len() <= GLsizei::MAX,
    ensures
        !caps.has(Capability::TextureRange) ==> r == Err::<TextureRange, GlError>(
            GlError::UnsupportedOperation,
        ),
        caps.has(Capability::TextureRange) ==> r == Ok::<TextureRange, GlError>(
            TextureRange { target, length: buffer@.len() as GLsizei },
        ),
{
    if !caps.has(Capability::TextureRange) {
        return Err(GlError::UnsupportedOperation);
    }
    Ok(TextureRange { target, length: buffer.len() as GLsizei })
}

/// A vector of `n` copies of `value`.
fn filled<T: Copy>(value: T, n: usize) -> (v: Vec<T>)
    ensures
        v@ == Seq::new(n as nat, |i: int| value),
{
    let mut v: Vec<T> = Vec::new();
    while v.len() < n
        invariant
            v@.len() <= n,
            v@ == Seq::new(v@.len(), |i: int| value),
        decreases n - v@.len(),
    {
        v.push(value);
    }
    v
}

/// The staging region for `n` generated names: `n` zeros.
pub open spec fn name_staging(n: GLsizei) -> Seq<GLuint> {
    Seq::new(n as nat, |i: int| 0)
}

/// The staging region into which the driver writes `n` new buffer names:
/// exactly `n` entries, all zero. [`generated_names`] turns the filled
/// region into the result.
pub fn gen_buffers(n: GLsizei) -> (staging: Vec<GLuint>)
    requires
        n >= 0,
    ensures
        staging@ == name_staging(n),
{
    filled(0, n as usize)
}

/// The staging region into which the driver writes `n` new framebuffer
/// names: exactly `n` entries, all zero.
pub fn gen_framebuffers(n: GLsizei) -> (staging: Vec<GLuint>)
    requires
        n >= 0,
    ensures
        staging@ == name_staging(n),
{
    filled(0, n as usize)
}

/// The staging region into which the driver writes `n` new texture names:
/// exactly `n` entries, all zero.
pub fn gen_textures(n: GLsizei) -> (staging: Vec<GLuint>)
    requires
        n >= 0,
    ensures
        staging@ == name_staging(n),
{
    filled(0, n as usize)
}

/// The staging region into which the driver writes `n` new vertex array
/// names. Needs [`Capability::VertexArrayObjects`].
pub fn gen_vertex_arrays(caps: &CapabilityTable, n: GLsizei) -> (r: Result<Vec<GLuint>, GlError>)
    requires
        caps.has(Capability::VertexArrayObjects) ==> n >= 0,
    ensures
        !caps.has(Capability::VertexArrayObjects) ==> r matches Err(
            GlError::UnsupportedOperation,
        ),
        caps.has(Capability::VertexArrayObjects) ==> (r matches Ok(staging) && staging@
            == name_staging(n)),
{
    if !caps.has(Capability::VertexArrayObjects) {
        return Err(GlError::UnsupportedOperation);
    }
    Ok(filled(0, n as usize))
}

/// Turns the driver's error flag, read after a command, into a result:
/// zero is success, any other code is passed on as it is.
pub fn check_error(code: DriverErrorCode) -> (r: Result<(), GlError>)
    ensures
        code == NO_ERROR ==> r == Ok::<(), GlError>(()),
        code != NO_ERROR ==> r == Err::<(), GlError>(GlError::DriverError(code)),
{
    if code == NO_ERROR {
        Ok(())
    } else {
        Err(GlError::DriverError(code))
    }
}

/// The result of generating names: the filled staging region as a whole, or
/// the driver's error and no names at all.
pub fn generated_names(filled: Vec<GLuint>, code: DriverErrorCode) -> (r: Result<
    Vec<GLuint>,
    GlError,
>)
    ensures
        code == NO_ERROR ==> (r matches Ok(names) && names@ == filled@),
        code != NO_ERROR ==> r == Err::<Vec<GLuint>, GlError>(GlError::DriverError(code)),
{
    if code == NO_ERROR {
        Ok(filled)
    } else {
        Err(GlError::DriverError(code))
    }
}

/// Number of names handed back to the driver for deletion.
pub fn name_count(names: &[GLuint]) -> (n: GLsizei)
    requires
        names@.len() <= GLsizei::MAX,
    ensures
        n == names@.len(),
{
    names.len() as GLsizei
}

/// Number of bytes of an info log that the driver reported to have written
/// `written` bytes of, its closing zero byte included, into a region of
/// `capacity` bytes.
pub open spec fn info_log_len(capacity: nat, written: GLsizei) -> nat {
    if written <= 1 {
        0
    } else if written - 1 <= capacity {
        (written - 1) as nat
    } else {
        capacity
    }
}

/// The info log in a staging region: what the driver wrote, without the
/// closing zero byte, and never more than the region holds.
pub open spec fn info_log(staging: Seq<u8>, written: GLsizei) -> Seq<u8> {
    staging.take(info_log_len(staging.len(), written) as int)
}

/// A fresh staging region for an info log: [`INFO_LOG_CAPACITY`] zero bytes.
pub fn info_log_staging() -> (staging: Vec<u8>)
    ensures
        staging@ == Seq::new(INFO_LOG_CAPACITY as nat, |i: int| 0u8),
{
    filled(0u8, INFO_LOG_CAPACITY)
}

/// The text that `bytes` encode, by `String::from_utf8` of the standard
/// library. Not verified: the claim is that the call succeeds exactly on
/// valid UTF-8 and that the string it returns consists of the bytes it was
/// given. Its error is handed on as `None`.
#[verifier::external_body]
fn text_of(bytes: Vec<u8>) -> (r: Option<String>)
    ensures
        r is Some <==> valid_utf8(bytes@),
        r matches Some(text) ==> encode_utf8(text@) == bytes@,
{
    String::from_utf8(bytes).ok()
}

/// Cuts a staging region down to the log in it.
fn truncate_log(staging: Vec<u8>, written: GLsizei) -> (log: Vec<u8>)
    ensures
        log@ == info_log(staging@, written),
{
    let mut log: Vec<u8> = staging;
    let keep: usize = if written > 0 {
        (written - 1) as usize
    } else {
        0
    };
    log.truncate(keep);
    log
}

/// Reads a program's info log out of the staging region that the driver
/// filled, given the length that the driver reported.
///
/// Returns the log as text if and only if its bytes are valid UTF-8. A
/// reported length of zero gives the empty text, whatever the region holds.
pub fn get_program_info_log(staging: Vec<u8>, written: GLsizei) -> (log: Option<String>)
    ensures
        log is Some <==> valid_utf8(info_log(staging@, written)),
        log matches Some(text) ==> encode_utf8(text@) == info_log(staging@, written),
        written <= 0 ==> (log matches Some(text) && text@.len() == 0),
        0 < written <= staging@.len() + 1 ==> (log matches Some(text) ==> encode_utf8(
            text@,
        ).len() == written - 1),
{
    text_of(truncate_log(staging, written))
}

/// Reads a shader's info log out of the staging region that the driver
/// filled, given the length that the driver reported.
///
/// Returns the log as text if and only if its bytes are valid UTF-8. A
/// reported length of zero gives the empty text, whatever the region holds.
pub fn get_shader_info_log(staging: Vec<u8>, written: GLsizei) -> (log: Option<String>)
    ensures
        log is Some <==> valid_utf8(info_log(staging@, written)),
        log matches Some(text) ==> encode_utf8(text@) == info_log(staging@, written),
        written <= 0 ==> (log matches Some(text) && text@.len() == 0),
        0 < written <= staging@.len() + 1 ==> (log matches Some(text) ==> encode_utf8(
            text@,
        ).len() == written - 1),
{
    text_of(truncate_log(staging, written))
}

/// Reads a string that the driver returned by reference, from its bytes.
/// Where the driver returned a null pointer, the text is empty. Otherwise
/// the bytes are returned as text if and only if they are valid UTF-8.
pub fn get_string(reply: Option<Vec<u8>>) -> (r: Option<String>)
    ensures
        reply.is_none() ==> (r matches Some(text) && text@.len() == 0),
        reply matches Some(bytes) ==> (r is Some <==> valid_utf8(bytes@)),
        reply matches Some(bytes) ==> (r matches Some(text) ==> encode_utf8(text@) == bytes@),
{
    match reply {
        Some(bytes) => text_of(bytes),
        None => Some(String::new()),
    }
}

/// The bytes of `text` followed by one zero byte, as the driver reads names.
pub fn null_terminated(text: &str) -> (bytes: Vec<u8>)
    ensures
        bytes@ == text.spec_bytes().push(0u8),
{
    let mut bytes: Vec<u8> = text.as_bytes_vec();
    bytes.push(0u8);
    bytes
}

/// Scalars of binding an attribute name to a location.
#[derive(Debug, PartialEq, Eq)]
pub struct BindAttribLocation {
    pub program: GLuint,
    pub index: GLuint,
    /// The name, zero-terminated.
    pub name: Vec<u8>,
}

/// Scalars of looking a name up in a program.
#[derive(Debug, PartialEq, Eq)]
pub struct NameLookup {
    pub program: GLuint,
    /// The name, zero-terminated.
    pub name: Vec<u8>,
}

/// Prepares binding the attribute `name` of `program` to location `index`.
pub fn bind_attrib_location(program: GLuint, index: GLuint, name: &str) -> (call:
    BindAttribLocation)
    ensures
        call.program == program,
        call.index == index,
        call.name@ == name.spec_bytes().push(0u8),
{
    BindAttribLocation { program, index, name: null_terminated(name) }
}

/// Prepares the lookup of the attribute `name` in `program`.
pub fn get_attrib_location(program: GLuint, name: &str) -> (call: NameLookup)
    ensures
        call.program == program,
        call.name@ == name.spec_bytes().push(0u8),
{
    NameLookup { program, name: null_terminated(name) }
}

/// Prepares the lookup of the uniform `name` in `program`.
pub fn get_uniform_location(program: GLuint, name: &str) -> (call: NameLookup)
    ensures
        call.program == program,
        call.name@ == name.spec_bytes().push(0u8),
{
    NameLookup { program, name: null_terminated(name) }
}

/// The bytes of `bytes` followed by one zero byte.
fn terminated(bytes: &[u8]) -> (out: Vec<u8>)
    ensures
        out@ == bytes@.push(0u8),
{
    let mut out: Vec<u8> = Vec::new();
    let mut i: usize = 0;
    while i < bytes.len()
        invariant
            i <= bytes@.len(),
            out@ == bytes@.take(i as int),
        decreases bytes@.len() - i,
    {
        out.push(bytes[i]);
        i = i + 1;
    }
    out.push(0u8);
    out
}

/// Scalars of replacing a shader's source, and the strings that the driver
/// is pointed at.
#[derive(Debug, PartialEq, Eq)]
pub struct ShaderSource {
    pub shader: GLuint,
    /// Number of source strings.
    pub count: GLsizei,
    /// Each source string followed by one zero byte, in order.
    pub strings: Vec<Vec<u8>>,
    /// Byte length of each source string, in order, terminator not counted.
    pub lengths: Vec<GLint>,
}

/// Prepares replacing the source of `shader` by `strings`: their number, a
/// zero-terminated copy of each, and the byte length of each. The strings
/// that were given are left as they are.
pub fn shader_source(shader: GLuint, strings: &[Vec<u8>]) -> (call: ShaderSource)
    requires
        strings@.len() <= GLsizei::MAX,
        forall|i: int| 0 <= i < strings@.len() ==> (#[trigger] strings@[i])@.len() <= GLint::MAX,
    ensures
        call.shader == shader,
        call.count == strings@.len(),
        call.strings@.len() == strings@.len(),
        forall|i: int|
            0 <= i < strings@.len() ==> (#[trigger] call.strings@[i])@ == strings@[i]@.push(0u8),
        call.lengths@.len() == strings@.len(),
        forall|i: int|
            0 <= i < strings@.len() ==> (#[trigger] call.lengths@[i]) == strings@[i]@.len(),
{
    let mut copies: Vec<Vec<u8>> = Vec::new();
    let mut lengths: Vec<GLint> = Vec::new();
    let mut i: usize = 0;
    while i < strings.len()
        invariant
            i <= strings@.len(),
            copies@.len() == i,
            lengths@.len() == i,
            forall|j: int| 0 <= j < strings@.len() ==> (#[trigger] strings@[j])@.len() <= GLint::MAX,
            forall|j: int| 0 <= j < i ==> (#[trigger] copies@[j])@ == strings@[j]@.push(0u8),
            forall|j: int| 0 <= j < i ==> (#[trigger] lengths@[j]) == strings@[j]@.len(),
        decreases strings@.len() - i,
    {
        copies.push(terminated(strings[i].as_slice()));
        lengths.push(strings[i].len() as GLint);
        i = i + 1;
    }
    ShaderSource { shader, count: strings.len() as GLsizei, strings: copies, lengths }
}

/// Scalars of describing a vertex attribute array.
#[derive(Clone, Copy, Debug, PartialEq, Eq, Structural)]
pub struct VertexAttribPointer {
    pub index: GLuint,
    pub size: GLint,
    /// Token of the component type.
    pub ty: GLenum,
    pub normalized: GLboolean,
    pub stride: GLsizei,
    /// Byte offset into the bound buffer, as wide as the pointer that
    /// carries it.
    pub offset: usize,
}

/// A vertex attribute array with components of the type `ty`.
fn vertex_attrib_pointer(
    index: GLuint,
    size: GLint,
    ty: GLenum,
    normalized: bool,
    stride: GLsizei,
    offset: GLuint,
) -> (call: VertexAttribPointer)
    ensures
        call == (VertexAttribPointer {
            index,
            size,
            ty,
            normalized: spec_gl_boolean(normalized),
            stride,
            offset: offset as usize,
        }),
{
    VertexAttribPointer {
        index,
        size,
        ty,
        normalized: gl_boolean(normalized),
        stride,
        offset: offset as usize,
    }
}

/// Prepares describing a vertex attribute array of 32-bit floats.
pub fn vertex_attrib_pointer_f32(
    index: GLuint,
    size: GLint,
    normalized: bool,
    stride: GLsizei,
    offset: GLuint,
) -> (call: VertexAttribPointer)
    ensures
        call == (VertexAttribPointer {
            index,
            size,
            ty: FLOAT,
            normalized: spec_gl_boolean(normalized),
            stride,
            offset: offset as usize,
        }),
{
    vertex_attrib_pointer(index, size, FLOAT, normalized, stride, offset)
}

/// Prepares describing a vertex attribute array of signed bytes.
pub fn vertex_attrib_pointer_i8(
    index: GLuint,
    size: GLint,
    normalized: bool,
    stride: GLsizei,
    offset: GLuint,
) -> (call: VertexAttribPointer)
    ensures
        call == (VertexAttribPointer {
            index,
            size,
            ty: BYTE,
            normalized: spec_gl_boolean(normalized),
            stride,
            offset: offset as usize,
        }),
{
    vertex_attrib_pointer(index, size, BYTE, normalized, stride, offset)
}

/// Prepares describing a vertex attribute array of signed 32-bit integers.
pub fn vertex_attrib_pointer_i32(
    index: GLuint,
    size: GLint,
    normalized: bool,
    stride: GLsizei,
    offset: GLuint,
) -> (call: VertexAttribPointer)
    ensures
        call == (VertexAttribPointer {
            index,
            size,
            ty: INT,
            normalized: spec_gl_boolean(normalized),
            stride,
            offset: offset as usize,
        }),
{
    vertex_attrib_pointer(index, size, INT, normalized, stride, offset)
}

/// Prepares describing a vertex attribute array of unsigned bytes.
pub fn vertex_attrib_pointer_u8(
    index: GLuint,
    size: GLint,
    normalized: bool,
    stride: GLsizei,
    offset: GLuint,
) -> (call: VertexAttribPointer)
    ensures
        call == (VertexAttribPointer {
            index,
            size,
            ty: UNSIGNED_BYTE,
            normalized: spec_gl_boolean(normalized),
            stride,
            offset: offset as usize,
        }),
{
    vertex_attrib_pointer(index, size, UNSIGNED_BYTE, normalized, stride, offset)
}

/// Scalars of defining a texture image.
#[derive(Clone, Copy, Debug, PartialEq, Eq, Structural)]
pub struct TexImage2d {
    pub target: GLenum,
    pub level: GLint,
    pub internal_format: GLint,
    pub width: GLsizei,
    pub height: GLsizei,
    pub border: GLint,
    pub format: GLenum,
    pub ty: GLenum,
    /// Whether pixels come with the call (else the driver is handed a null
    /// pointer and leaves the image undefined).
    pub client_pixels: bool,
}

/// Scalars of replacing a part of a texture image.
#[derive(Clone, Copy, Debug, PartialEq, Eq, Structural)]
pub struct TexSubImage2d {
    pub target: GLenum,
    pub level: GLint,
    pub xoffset: GLint,
    pub yoffset: GLint,
    pub width: GLsizei,
    pub height: GLsizei,
    pub format: GLenum,
    pub ty: GLenum,
    /// Whether pixels come with the call (else the driver is handed a null
    /// pointer).
    pub client_pixels: bool,
}

/// Prepares defining a texture image, with or without pixels. The size of
/// `opt_data` is not held against the extent of the image.
pub fn tex_image_2d(
    target: GLenum,
    level: GLint,
    internal_format: GLint,
    width: GLsizei,
    height: GLsizei,
    border: GLint,
    format: GLenum,
    ty: GLenum,
    opt_data: Option<&[u8]>,
) -> (call: TexImage2d)
    ensures
        call == (TexImage2d {
            target,
            level,
            internal_format,
            width,
            height,
            border,
            format,
            ty,
            client_pixels: opt_data.is_some(),
        }),
{
    match opt_data {
        Some(_) => TexImage2d {
            target,
            level,
            internal_format,
            width,
            height,
            border,
            format,
            ty,
            client_pixels: true,
        },
        None => TexImage2d {
            target,
            level,
            internal_format,
            width,
            height,
            border,
            format,
            ty,
            client_pixels: false,
        },
    }
}

/// Prepares replacing a part of a texture image, with or without pixels.
/// The size of `opt_data` is not held against the extent of the part.
pub fn tex_sub_image_2d(
    target: GLenum,
    level: GLint,
    xoffset: GLint,
    yoffset: GLint,
    width: GLsizei,
    height: GLsizei,
    format: GLenum,
    ty: GLenum,
    opt_data: Option<&[u8]>,
) -> (call: TexSubImage2d)
    ensures
        call == (TexSubImage2d {
            target,
            level,
            xoffset,
            yoffset,
            width,
            height,
            format,
            ty,
            client_pixels: opt_data.is_some(),
        }),
{
    match opt_data {
        Some(_) => TexSubImage2d {
            target,
            level,
            xoffset,
            yoffset,
            width,
            height,
            format,
            ty,
            client_pixels: true,
        },
        None => TexSubImage2d {
            target,
            level,
            xoffset,
            yoffset,
            width,
            height,
            format,
            ty,
            client_pixels: false,
        },
    }
}

/// Scalars of setting a 4x4 matrix uniform.
#[derive(Clone, Copy, Debug, PartialEq, Eq, Structural)]
pub struct UniformMatrix4fv {
    pub location: GLint,
    /// Number of matrices: always one.
    pub count: GLsizei,
    pub transpose: GLboolean,
}

/// Prepares setting the uniform at `location` to the one matrix whose
/// components are `value`. The components are only passed on, so their type
/// is left to the caller. The driver is pointed at the first of them: there
/// has to be one.
pub fn uniform_matrix_4fv<T>(location: GLint, transpose: bool, value: &[T]) -> (call:
    UniformMatrix4fv)
    requires
        value@.len() > 0,
    ensures
        call == (UniformMatrix4fv { location, count: 1, transpose: spec_gl_boolean(transpose) }),
{
    UniformMatrix4fv { location, count: 1, transpose: gl_boolean(transpose) }
}

} // verus!
