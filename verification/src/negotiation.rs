//! Pixel-format negotiation: what is made of the driver's answer to an
//! attribute list.
//!
//! The binding layer hands the tokens of an [`AttributeList`] to the
//! driver's format-matching call and brings back its status code and the
//! handles it returned, best match first. [`choose_pixel_format`] decides
//! what the caller gets.

use vstd::prelude::*;
use crate::attribute::{AttributeList, DriverAttributeKey};
use crate::cgl::{kCGLNoError, CGLError, CGLPixelFormatAttribute};
use crate::error::NegotiationError;
use crate::types::{destroy, GLint};

verus! {

/// Handle of one resolved pixel format. The driver alone knows what is
/// behind it: attributes are asked of the driver each time, never kept here.
/// It has one owner, who releases it.
#[derive(Debug, PartialEq, Eq)]
pub struct PixelFormat {
    handle: usize,
}

impl PixelFormat {
    /// The driver's handle.
    pub closed spec fn spec_handle(&self) -> usize {
        self.handle
    }

    /// Takes ownership of a handle that the driver returned.
    pub fn from_handle(handle: usize) -> (format: PixelFormat)
        ensures
            format.handle() == handle,
    {
        PixelFormat { handle }
    }

    /// The driver's handle.
    #[verifier::when_used_as_spec(spec_handle)]
    pub fn handle(&self) -> (handle: usize)
        ensures
            handle == self.spec_handle(),
    {
        self.handle
    }

    /// Gives the format up: the handle to hand to the driver's release call.
    pub fn release(self) -> (handle: usize)
        ensures
            handle == self.handle(),
    {
        self.handle
    }

    /// Prepares the query of the attribute `attr` of this format: what the
    /// driver's query is handed. Nothing is kept between two queries; each
    /// one goes to the driver.
    pub fn describe(&self, attr: DriverAttributeKey) -> (query: DescribeQuery)
        ensures
            query == (DescribeQuery {
                format: self.handle(),
                screen: 0,
                attribute: attr.token,
            }),
    {
        DescribeQuery { format: self.handle, screen: 0, attribute: attr.token }
    }
}

/// Scalars of the query of one attribute of a pixel format.
#[derive(Clone, Copy, Debug, PartialEq, Eq, Structural)]
pub struct DescribeQuery {
    /// Handle of the format.
    pub format: usize,
    /// Number of the virtual screen: always the first.
    pub screen: GLint,
    /// Token of the attribute.
    pub attribute: CGLPixelFormatAttribute,
}

impl DescribeQuery {
    /// Concludes the query, from the status code and the value that the
    /// driver returned: the value as it is, or the status code as an error.
    pub fn value(&self, status: CGLError, value: GLint) -> (r: Result<GLint, NegotiationError>)
        ensures
            status == kCGLNoError ==> r == Ok::<GLint, NegotiationError>(value),
            status != kCGLNoError ==> r == Err::<GLint, NegotiationError>(
                NegotiationError::DriverError(status),
            ),
    {
        if status == kCGLNoError {
            Ok(value)
        } else {
            Err(NegotiationError::DriverError(status))
        }
    }
}

/// The formats that own `handles`, in the same order.
pub open spec fn formats_of(formats: Seq<PixelFormat>, handles: Seq<usize>) -> bool {
    &&& formats.len() == handles.len()
    &&& forall|i: int| 0 <= i < handles.len() ==> (#[trigger] formats[i]).handle() == handles[i]
}

/// Concludes a negotiation. `attrs` is the list that was submitted, used up
/// by this call; `status` and `handles` are what the driver returned.
///
/// Fails with [`NegotiationError::NoMatchingFormat`] if and only if the
/// status is not success or the driver matched nothing. Otherwise returns
/// one format for each handle, in the driver's order: the best match stays
/// first.
pub fn choose_pixel_format(attrs: AttributeList, status: CGLError, handles: &[usize]) -> (r: Result<
    Vec<PixelFormat>,
    NegotiationError,
>)
    ensures
        status != kCGLNoError || handles@.len() == 0 ==> r == Err::<
            Vec<PixelFormat>,
            NegotiationError,
        >(NegotiationError::NoMatchingFormat),
        status == kCGLNoError && handles@.len() > 0 ==> (r matches Ok(formats) && formats_of(
            formats@,
            handles@,
        )),
{
    destroy(attrs);
    if status != kCGLNoError || handles.len() == 0 {
        return Err(NegotiationError::NoMatchingFormat);
    }
    let mut formats: Vec<PixelFormat> = Vec::new();
    let mut i: usize = 0;
    while i < handles.len()
        invariant
            i <= handles@.len(),
            formats_of(formats@, handles@.take(i as int)),
        decreases handles@.len() - i,
    {
        formats.push(PixelFormat::from_handle(handles[i]));
        i = i + 1;
    }
    Ok(formats)
}

} // verus!
