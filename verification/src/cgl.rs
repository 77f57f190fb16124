//! Tokens of the macOS context-creation interface, and the fixed division
//! of its pixel-format attributes into boolean and valued ones.

use vstd::prelude::*;

verus! {

/// Status code of a context-creation call; zero is success.
pub type CGLError = libc::c_int;

/// Token of a pixel-format attribute list.
pub type CGLPixelFormatAttribute = libc::c_int;

/// The status code of a call that succeeded.
#[allow(non_upper_case_globals)]
pub const kCGLNoError: CGLError = 0;

#[allow(non_upper_case_globals)]
pub const kCGLPFAAllRenderers: CGLPixelFormatAttribute = 1;

#[allow(non_upper_case_globals)]
pub const kCGLPFADoubleBuffer: CGLPixelFormatAttribute = 5;

#[allow(non_upper_case_globals)]
pub const kCGLPFAStereo: CGLPixelFormatAttribute = 6;

#[allow(non_upper_case_globals)]
pub const kCGLPFAAuxBuffers: CGLPixelFormatAttribute = 7;

#[allow(non_upper_case_globals)]
pub const kCGLPFAColorSize: CGLPixelFormatAttribute = 8;

#[allow(non_upper_case_globals)]
pub const kCGLPFAAlphaSize: CGLPixelFormatAttribute = 11;

#[allow(non_upper_case_globals)]
pub const kCGLPFADepthSize: CGLPixelFormatAttribute = 12;

#[allow(non_upper_case_globals)]
pub const kCGLPFAStencilSize: CGLPixelFormatAttribute = 13;

#[allow(non_upper_case_globals)]
pub const kCGLPFAAccumSize: CGLPixelFormatAttribute = 14;

#[allow(non_upper_case_globals)]
pub const kCGLPFAMinimumPolicy: CGLPixelFormatAttribute = 51;

#[allow(non_upper_case_globals)]
pub const kCGLPFAMaximumPolicy: CGLPixelFormatAttribute = 52;

#[allow(non_upper_case_globals)]
pub const kCGLPFAOffScreen: CGLPixelFormatAttribute = 53;

#[allow(non_upper_case_globals)]
pub const kCGLPFAFullScreen: CGLPixelFormatAttribute = 54;

#[allow(non_upper_case_globals)]
pub const kCGLPFASampleBuffers: CGLPixelFormatAttribute = 55;

#[allow(non_upper_case_globals)]
pub const kCGLPFASamples: CGLPixelFormatAttribute = 56;

#[allow(non_upper_case_globals)]
pub const kCGLPFAAuxDepthStencil: CGLPixelFormatAttribute = 57;

#[allow(non_upper_case_globals)]
pub const kCGLPFAColorFloat: CGLPixelFormatAttribute = 58;

#[allow(non_upper_case_globals)]
pub const kCGLPFAMultisample: CGLPixelFormatAttribute = 59;

#[allow(non_upper_case_globals)]
pub const kCGLPFASupersample: CGLPixelFormatAttribute = 60;

#[allow(non_upper_case_globals)]
pub const kCGLPFASampleAlpha: CGLPixelFormatAttribute = 61;

#[allow(non_upper_case_globals)]
pub const kCGLPFARendererID: CGLPixelFormatAttribute = 70;

#[allow(non_upper_case_globals)]
pub const kCGLPFASingleRenderer: CGLPixelFormatAttribute = 71;

#[allow(non_upper_case_globals)]
pub const kCGLPFANoRecovery: CGLPixelFormatAttribute = 72;

#[allow(non_upper_case_globals)]
pub const kCGLPFAAccelerated: CGLPixelFormatAttribute = 73;

#[allow(non_upper_case_globals)]
pub const kCGLPFAClosestPolicy: CGLPixelFormatAttribute = 74;

#[allow(non_upper_case_globals)]
pub const kCGLPFARobust: CGLPixelFormatAttribute = 75;

#[allow(non_upper_case_globals)]
pub const kCGLPFABackingStore: CGLPixelFormatAttribute = 76;

#[allow(non_upper_case_globals)]
pub const kCGLPFAMPSafe: CGLPixelFormatAttribute = 78;

#[allow(non_upper_case_globals)]
pub const kCGLPFAWindow: CGLPixelFormatAttribute = 80;

#[allow(non_upper_case_globals)]
pub const kCGLPFAMultiScreen: CGLPixelFormatAttribute = 81;

#[allow(non_upper_case_globals)]
pub const kCGLPFACompliant: CGLPixelFormatAttribute = 83;

#[allow(non_upper_case_globals)]
pub const kCGLPFADisplayMask: CGLPixelFormatAttribute = 84;

#[allow(non_upper_case_globals)]
pub const kCGLPFAPBuffer: CGLPixelFormatAttribute = 90;

#[allow(non_upper_case_globals)]
pub const kCGLPFARemotePBuffer: CGLPixelFormatAttribute = 91;

#[allow(non_upper_case_globals)]
pub const kCGLPFAAllowOfflineRenderers: CGLPixelFormatAttribute = 96;

#[allow(non_upper_case_globals)]
pub const kCGLPFAAcceleratedCompute: CGLPixelFormatAttribute = 97;

#[allow(non_upper_case_globals)]
pub const kCGLPFAOpenGLProfile: CGLPixelFormatAttribute = 99;

#[allow(non_upper_case_globals)]
pub const kCGLPFAVirtualScreenCount: CGLPixelFormatAttribute = 128;

/// The attributes whose presence alone means "true": none is followed by a
/// value.
pub const CORE_BOOLEAN_ATTRIBUTES: [CGLPixelFormatAttribute; 27] = [
    kCGLPFAAllRenderers,
    kCGLPFADoubleBuffer,
    kCGLPFAStereo,
    kCGLPFAAuxBuffers,
    kCGLPFAMinimumPolicy,
    kCGLPFAMaximumPolicy,
    kCGLPFAOffScreen,
    kCGLPFAFullScreen,
    kCGLPFAAuxDepthStencil,
    kCGLPFAColorFloat,
    kCGLPFAMultisample,
    kCGLPFASupersample,
    kCGLPFASampleAlpha,
    kCGLPFASingleRenderer,
    kCGLPFANoRecovery,
    kCGLPFAAccelerated,
    kCGLPFAClosestPolicy,
    kCGLPFARobust,
    kCGLPFABackingStore,
    kCGLPFAMPSafe,
    kCGLPFAWindow,
    kCGLPFAMultiScreen,
    kCGLPFACompliant,
    kCGLPFAPBuffer,
    kCGLPFARemotePBuffer,
    kCGLPFAAllowOfflineRenderers,
    kCGLPFAAcceleratedCompute,
];

/// The attributes that are followed by an integer value.
pub const CORE_INTEGER_ATTRIBUTES: [CGLPixelFormatAttribute; 11] = [
    kCGLPFAColorSize,
    kCGLPFAAlphaSize,
    kCGLPFADepthSize,
    kCGLPFAStencilSize,
    kCGLPFAAccumSize,
    kCGLPFASampleBuffers,
    kCGLPFASamples,
    kCGLPFARendererID,
    kCGLPFADisplayMask,
    kCGLPFAOpenGLProfile,
    kCGLPFAVirtualScreenCount,
];

/// Whether `token` is an attribute whose presence alone means "true".
pub open spec fn is_boolean_attribute(token: CGLPixelFormatAttribute) -> bool {
    ||| token == kCGLPFAAllRenderers
    ||| token == kCGLPFADoubleBuffer
    ||| token == kCGLPFAStereo
    ||| token == kCGLPFAAuxBuffers
    ||| token == kCGLPFAMinimumPolicy
    ||| token == kCGLPFAMaximumPolicy
    ||| token == kCGLPFAOffScreen
    ||| token == kCGLPFAFullScreen
    ||| token == kCGLPFAAuxDepthStencil
    ||| token == kCGLPFAColorFloat
    ||| token == kCGLPFAMultisample
    ||| token == kCGLPFASupersample
    ||| token == kCGLPFASampleAlpha
    ||| token == kCGLPFASingleRenderer
    ||| token == kCGLPFANoRecovery
    ||| token == kCGLPFAAccelerated
    ||| token == kCGLPFAClosestPolicy
    ||| token == kCGLPFARobust
    ||| token == kCGLPFABackingStore
    ||| token == kCGLPFAMPSafe
    ||| token == kCGLPFAWindow
    ||| token == kCGLPFAMultiScreen
    ||| token == kCGLPFACompliant
    ||| token == kCGLPFAPBuffer
    ||| token == kCGLPFARemotePBuffer
    ||| token == kCGLPFAAllowOfflineRenderers
    ||| token == kCGLPFAAcceleratedCompute
}

/// Whether `token` is an attribute that is followed by an integer value.
pub open spec fn is_integer_attribute(token: CGLPixelFormatAttribute) -> bool {
    ||| token == kCGLPFAColorSize
    ||| token == kCGLPFAAlphaSize
    ||| token == kCGLPFADepthSize
    ||| token == kCGLPFAStencilSize
    ||| token == kCGLPFAAccumSize
    ||| token == kCGLPFASampleBuffers
    ||| token == kCGLPFASamples
    ||| token == kCGLPFARendererID
    ||| token == kCGLPFADisplayMask
    ||| token == kCGLPFAOpenGLProfile
    ||| token == kCGLPFAVirtualScreenCount
}

/// The two tables hold exactly the boolean and the valued attributes. No
/// attribute is in both, and zero, which ends a list, is in neither.
pub proof fn lemma_attribute_tables()
    ensures
        forall|token: CGLPixelFormatAttribute|
            is_boolean_attribute(token) <==> CORE_BOOLEAN_ATTRIBUTES@.contains(token),
        forall|token: CGLPixelFormatAttribute|
            is_integer_attribute(token) <==> CORE_INTEGER_ATTRIBUTES@.contains(token),
        forall|token: CGLPixelFormatAttribute|
            !(is_boolean_attribute(token) && is_integer_attribute(token)),
        !is_boolean_attribute(0),
        !is_integer_attribute(0),
{
}

} // verus!
