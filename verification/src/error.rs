//! What can go wrong, per component.

use vstd::prelude::*;
use crate::cgl::CGLError;
use crate::types::DriverErrorCode;

verus! {

/// Failure while assembling an attribute list.
#[derive(Clone, Copy, Debug, PartialEq, Eq, Structural)]
pub enum AttributeError {
    /// A valued key was given without its value.
    MissingValue,
    /// The builder had already produced its list.
    AlreadyFinalized,
}

/// Failure of a pixel-format negotiation.
#[derive(Clone, Copy, Debug, PartialEq, Eq, Structural)]
pub enum NegotiationError {
    /// The driver matched no format, or reported a failure status.
    NoMatchingFormat,
    /// A query of a format returned this non-zero status code.
    DriverError(CGLError),
}

/// Failure of a context operation.
#[derive(Clone, Copy, Debug, PartialEq, Eq, Structural)]
pub enum ContextError {
    /// The driver could not create the context; carries its status code.
    CreationFailed(CGLError),
    /// Any other driver call returned this non-zero status code.
    DriverError(CGLError),
}

/// Failure of a marshaled command.
#[derive(Clone, Copy, Debug, PartialEq, Eq, Structural)]
pub enum GlError {
    /// The command belongs to a capability that this driver lacks.
    UnsupportedOperation,
    /// The driver's error flag held this non-zero code.
    DriverError(DriverErrorCode),
}

} // verus!
