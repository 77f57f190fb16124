//! Enumerated tokens of the driver interface: data, with no logic of their own.

use vstd::prelude::*;
use crate::types::GLenum;

verus! {

// BeginMode
pub const POINTS: GLenum = 0x0000;
pub const LINES: GLenum = 0x0001;
pub const LINE_LOOP: GLenum = 0x0002;
pub const LINE_STRIP: GLenum = 0x0003;
pub const TRIANGLES: GLenum = 0x0004;
pub const TRIANGLE_STRIP: GLenum = 0x0005;
pub const TRIANGLE_FAN: GLenum = 0x0006;

pub const DEPTH_BUFFER_BIT: GLenum = 0x00000100;
pub const STENCIL_BUFFER_BIT: GLenum = 0x00000400;
pub const COLOR_BUFFER_BIT: GLenum = 0x00004000;

// BlendingFactorDest
pub const ZERO: GLenum = 0;
pub const ONE: GLenum = 1;
pub const SRC_COLOR: GLenum = 0x0300;
pub const ONE_MINUS_SRC_COLOR: GLenum = 0x0301;
pub const SRC_ALPHA: GLenum = 0x0302;
pub const ONE_MINUS_SRC_ALPHA: GLenum = 0x0303;
pub const DST_ALPHA: GLenum = 0x0304;
pub const ONE_MINUS_DST_ALPHA: GLenum = 0x0305;

// BlendingFactorSrc
pub const DST_COLOR: GLenum = 0x0306;
pub const ONE_MINUS_DST_COLOR: GLenum = 0x0307;
pub const SRC_ALPHA_SATURATE: GLenum = 0x0308;

// BlendEquationSeparate
pub const FUNC_ADD: GLenum = 0x8006;
pub const BLEND_EQUATION: GLenum = 0x8009;
pub const BLEND_EQUATION_RGB: GLenum = 0x8009;
pub const BLEND_EQUATION_ALPHA: GLenum = 0x883D;

// BlendSubtract
pub const FUNC_SUBTRACT: GLenum = 0x800A;
pub const FUNC_REVERSE_SUBTRACT: GLenum = 0x800B;

// Separate Blend Functions
pub const BLEND_DST_RGB: GLenum = 0x80C8;
pub const BLEND_SRC_RGB: GLenum = 0x80C9;
pub const BLEND_DST_ALPHA: GLenum = 0x80CA;
pub const BLEND_SRC_ALPHA: GLenum = 0x80CB;
pub const CONSTANT_COLOR: GLenum = 0x8001;
pub const ONE_MINUS_CONSTANT_COLOR: GLenum = 0x8002;
pub const CONSTANT_ALPHA: GLenum = 0x8003;
pub const ONE_MINUS_CONSTANT_ALPHA: GLenum = 0x8004;
pub const BLEND_COLOR: GLenum = 0x8005;

// Errors
pub const NO_ERROR: GLenum = 0;
pub const INVALID_ENUM: GLenum = 0x0500;
pub const INVALID_VALUE: GLenum = 0x0501;
pub const INVALID_OPERATION: GLenum = 0x0502;
pub const STACK_OVERFLOW: GLenum = 0x0503;
pub const STACK_UNDERFLOW: GLenum = 0x0504;
pub const OUT_OF_MEMORY: GLenum = 0x0505;
pub const INVALID_FRAMEBUFFER_OPERATION: GLenum = 0x0506;

// DataType
pub const BYTE: GLenum = 0x1400;
pub const UNSIGNED_BYTE: GLenum = 0x1401;
pub const SHORT: GLenum = 0x1402;
pub const UNSIGNED_SHORT: GLenum = 0x1403;
pub const INT: GLenum = 0x1404;
pub const UNSIGNED_INT: GLenum = 0x1405;
pub const FLOAT: GLenum = 0x1406;
pub const FIXED: GLenum = 0x140C;

// EnableCap
pub const TEXTURE_2D: GLenum = 0x0DE1;
pub const CULL_FACE: GLenum = 0x0B44;
pub const BLEND: GLenum = 0x0BE2;
pub const DITHER: GLenum = 0x0BD0;
pub const STENCIL_TEST: GLenum = 0x0B90;
pub const DEPTH_TEST: GLenum = 0x0B71;
pub const SCISSOR_TEST: GLenum = 0x0C11;
pub const POLYGON_OFFSET_FILL: GLenum = 0x8037;
pub const SAMPLE_ALPHA_TO_COVERAGE: GLenum = 0x809E;
pub const SAMPLE_COVERAGE: GLenum = 0x80A0;

// Polygons
pub const POINT: GLenum = 0x1B00;
pub const LINE: GLenum = 0x1B01;
pub const FILL: GLenum = 0x1B02;
pub const CW: GLenum = 0x0900;
pub const CCW: GLenum = 0x0901;
pub const POLYGON_MODE: GLenum = 0x0B40;
pub const POLYGON_SMOOTH: GLenum = 0x0B41;
pub const POLYGON_STIPPLE: GLenum = 0x0B42;
pub const EDGE_FLAG: GLenum = 0x0B43;

// GetPName
pub const LINE_WIDTH: GLenum = 0x0B21;
pub const ALIASED_POINT_SIZE_RANGE: GLenum = 0x846D;
pub const ALIASED_LINE_WIDTH_RANGE: GLenum = 0x846E;
pub const CULL_FACE_MODE: GLenum = 0x0B45;
pub const FRONT_FACE: GLenum = 0x0B46;
pub const DEPTH_RANGE: GLenum = 0x0B70;
pub const DEPTH_WRITEMASK: GLenum = 0x0B72;
pub const DEPTH_CLEAR_VALUE: GLenum = 0x0B73;
pub const DEPTH_FUNC: GLenum = 0x0B74;
pub const STENCIL_CLEAR_VALUE: GLenum = 0x0B91;
pub const STENCIL_FUNC: GLenum = 0x0B92;
pub const STENCIL_FAIL: GLenum = 0x0B94;
pub const STENCIL_PASS_DEPTH_FAIL: GLenum = 0x0B95;
pub const STENCIL_PASS_DEPTH_PASS: GLenum = 0x0B96;
pub const STENCIL_REF: GLenum = 0x0B97;
pub const STENCIL_VALUE_MASK: GLenum = 0x0B93;
pub const STENCIL_WRITEMASK: GLenum = 0x0B98;
pub const STENCIL_BACK_FUNC: GLenum = 0x8800;
pub const STENCIL_BACK_FAIL: GLenum = 0x8801;
pub const STENCIL_BACK_PASS_DEPTH_FAIL: GLenum = 0x8802;
pub const STENCIL_BACK_PASS_DEPTH_PASS: GLenum = 0x8803;
pub const STENCIL_BACK_REF: GLenum = 0x8CA3;
pub const STENCIL_BACK_VALUE_MASK: GLenum = 0x8CA4;
pub const STENCIL_BACK_WRITEMASK: GLenum = 0x8CA5;
pub const VIEWPORT: GLenum = 0x0BA2;
pub const SCISSOR_BOX: GLenum = 0x0C10;
pub const COLOR_CLEAR_VALUE: GLenum = 0x0C22;
pub const COLOR_WRITEMASK: GLenum = 0x0C23;
pub const UNPACK_ALIGNMENT: GLenum = 0x0CF5;
pub const PACK_ALIGNMENT: GLenum = 0x0D05;
pub const MAX_TEXTURE_SIZE: GLenum = 0x0D33;
pub const MAX_VIEWPORT_DIMS: GLenum = 0x0D3A;
pub const SUBPIXEL_BITS: GLenum = 0x0D50;
pub const RED_BITS: GLenum = 0x0D52;
pub const GREEN_BITS: GLenum = 0x0D53;
pub const BLUE_BITS: GLenum = 0x0D54;
pub const ALPHA_BITS: GLenum = 0x0D55;
pub const DEPTH_BITS: GLenum = 0x0D56;
pub const STENCIL_BITS: GLenum = 0x0D57;
pub const POLYGON_OFFSET_UNITS: GLenum = 0x2A00;
pub const POLYGON_OFFSET_FACTOR: GLenum = 0x8038;
pub const TEXTURE_BINDING_2D: GLenum = 0x8069;
pub const SAMPLE_BUFFERS: GLenum = 0x80A8;
pub const SAMPLES: GLenum = 0x80A9;
pub const SAMPLE_COVERAGE_VALUE: GLenum = 0x80AA;
pub const SAMPLE_COVERAGE_INVERT: GLenum = 0x80AB;

// GetTarget
pub const UNPACK_ROW_LENGTH: GLenum = 0x0CF2;

// PixelFormat
pub const DEPTH_COMPONENT: GLenum = 0x1902;
pub const RED: GLenum = 0x1903;
pub const GREEN: GLenum = 0x1904;
pub const BLUE: GLenum = 0x1905;
pub const ALPHA: GLenum = 0x1906;
pub const RGB: GLenum = 0x1907;
pub const RGBA: GLenum = 0x1908;

/// Desktop OpenGL only.
pub const BGRA: GLenum = 0x80e1;
/// Desktop OpenGL only.
pub const RGBA8: GLenum = 0x8058;

// Packed Pixels
/// Desktop OpenGL only.
pub const UNSIGNED_INT_8_8_8_8_REV: GLenum = 0x8367;

// Shaders
pub const FRAGMENT_SHADER: GLenum = 0x8B30;
pub const VERTEX_SHADER: GLenum = 0x8B31;
pub const MAX_VERTEX_ATTRIBS: GLenum = 0x8869;
pub const MAX_VERTEX_UNIFORM_VECTORS: GLenum = 0x8DFB;
pub const MAX_VARYING_VECTORS: GLenum = 0x8DFC;
pub const MAX_COMBINED_TEXTURE_IMAGE_UNITS: GLenum = 0x8B4D;
pub const MAX_VERTEX_TEXTURE_IMAGE_UNITS: GLenum = 0x8B4C;
pub const MAX_TEXTURE_IMAGE_UNITS: GLenum = 0x8872;
pub const MAX_FRAGMENT_UNIFORM_VECTORS: GLenum = 0x8DFD;
pub const SHADER_TYPE: GLenum = 0x8B4F;
pub const DELETE_STATUS: GLenum = 0x8B80;
pub const LINK_STATUS: GLenum = 0x8B82;
pub const VALIDATE_STATUS: GLenum = 0x8B83;
pub const ATTACHED_SHADERS: GLenum = 0x8B85;
pub const ACTIVE_UNIFORMS: GLenum = 0x8B86;
pub const ACTIVE_UNIFORM_MAX_LENGTH: GLenum = 0x8B87;
pub const ACTIVE_ATTRIBUTES: GLenum = 0x8B89;
pub const ACTIVE_ATTRIBUTE_MAX_LENGTH: GLenum = 0x8B8A;
pub const SHADING_LANGUAGE_VERSION: GLenum = 0x8B8C;
pub const CURRENT_PROGRAM: GLenum = 0x8B8D;

// StencilFunction
pub const NEVER: GLenum = 0x0200;
pub const LESS: GLenum = 0x0201;
pub const EQUAL: GLenum = 0x0202;
pub const LEQUAL: GLenum = 0x0203;
pub const GREATER: GLenum = 0x0204;
pub const NOTEQUAL: GLenum = 0x0205;
pub const GEQUAL: GLenum = 0x0206;
pub const ALWAYS: GLenum = 0x0207;

pub const VENDOR: GLenum = 0x1F00;
pub const RENDERER: GLenum = 0x1F01;
pub const VERSION: GLenum = 0x1F02;
pub const EXTENSIONS: GLenum = 0x1F03;

// Shader Source
pub const COMPILE_STATUS: GLenum = 0x8B81;
pub const INFO_LOG_LENGTH: GLenum = 0x8B84;
pub const SHADER_SOURCE_LENGTH: GLenum = 0x8B88;
pub const SHADER_COMPILER: GLenum = 0x8DFA;

// Buffer Objects
pub const ARRAY_BUFFER: GLenum = 0x8892;
pub const ELEMENT_ARRAY_BUFFER: GLenum = 0x8893;
pub const ARRAY_BUFFER_BINDING: GLenum = 0x8894;
pub const ELEMENT_ARRAY_BUFFER_BINDING: GLenum = 0x8895;

pub const STREAM_DRAW: GLenum = 0x88E0;
pub const STATIC_DRAW: GLenum = 0x88E4;
pub const DYNAMIC_DRAW: GLenum = 0x88E8;

// CullFaceMode
pub const FRONT: GLenum = 0x0404;
pub const BACK: GLenum = 0x0405;
pub const FRONT_AND_BACK: GLenum = 0x0408;

// TextureMagFilter
pub const NEAREST: GLenum = 0x2600;
pub const LINEAR: GLenum = 0x2601;

// TextureParameterName
pub const TEXTURE_MAG_FILTER: GLenum = 0x2800;
pub const TEXTURE_MIN_FILTER: GLenum = 0x2801;
pub const TEXTURE_WRAP_S: GLenum = 0x2802;
pub const TEXTURE_WRAP_T: GLenum = 0x2803;

// TextureUnit
pub const TEXTURE0: GLenum = 0x84C0;
pub const TEXTURE1: GLenum = 0x84C1;
pub const TEXTURE2: GLenum = 0x84C2;
pub const TEXTURE3: GLenum = 0x84C3;
pub const TEXTURE4: GLenum = 0x84C4;
pub const TEXTURE5: GLenum = 0x84C5;
pub const TEXTURE6: GLenum = 0x84C6;
pub const TEXTURE7: GLenum = 0x84C7;
pub const TEXTURE8: GLenum = 0x84C8;
pub const TEXTURE9: GLenum = 0x84C9;
pub const TEXTURE10: GLenum = 0x84CA;
pub const TEXTURE11: GLenum = 0x84CB;
pub const TEXTURE12: GLenum = 0x84CC;
pub const TEXTURE13: GLenum = 0x84CD;
pub const TEXTURE14: GLenum = 0x84CE;
pub const TEXTURE15: GLenum = 0x84CF;
pub const TEXTURE16: GLenum = 0x84D0;
pub const TEXTURE17: GLenum = 0x84D1;
pub const TEXTURE18: GLenum = 0x84D2;
pub const TEXTURE19: GLenum = 0x84D3;
pub const TEXTURE20: GLenum = 0x84D4;
pub const TEXTURE21: GLenum = 0x84D5;
pub const TEXTURE22: GLenum = 0x84D6;
pub const TEXTURE23: GLenum = 0x84D7;
pub const TEXTURE24: GLenum = 0x84D8;
pub const TEXTURE25: GLenum = 0x84D9;
pub const TEXTURE26: GLenum = 0x84DA;
pub const TEXTURE27: GLenum = 0x84DB;
pub const TEXTURE28: GLenum = 0x84DC;
pub const TEXTURE29: GLenum = 0x84DD;
pub const TEXTURE30: GLenum = 0x84DE;
pub const TEXTURE31: GLenum = 0x84DF;
pub const ACTIVE_TEXTURE: GLenum = 0x84E0;

// TextureWrapMode
pub const REPEAT: GLenum = 0x2901;
pub const CLAMP_TO_EDGE: GLenum = 0x812F;
pub const MIRRORED_REPEAT: GLenum = 0x8370;

pub const COLOR_ATTACHMENT0: GLenum = 0x8CE0;

pub const FRAMEBUFFER_COMPLETE: GLenum = 0x8CD5;

// Framebuffer Object
pub const FRAMEBUFFER: GLenum = 0x8D40;
pub const RENDERBUFFER: GLenum = 0x8D41;

// Extensions
/// Desktop OpenGL only.
pub const TEXTURE_RECTANGLE_ARB: GLenum = 0x84F5;

/// Desktop OpenGL only.
pub const UNPACK_CLIENT_STORAGE_APPLE: GLenum = 0x85B2;
/// Desktop OpenGL only.
pub const TEXTURE_STORAGE_HINT_APPLE: GLenum = 0x85BC;
/// Desktop OpenGL only.
pub const STORAGE_CACHED_APPLE: GLenum = 0x85BE;
/// Desktop OpenGL only.
pub const STORAGE_SHARED_APPLE: GLenum = 0x85BF;

} // verus!
