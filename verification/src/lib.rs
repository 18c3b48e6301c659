//! A unified, backend-agnostic graphics-drawing layer.
//!
//! One stable API is exposed over two structurally different graphics
//! backends: a native, call-based API whose resources already are small
//! integers, and a browser API that hands back live objects and therefore
//! needs a synthesized integer handle per resource.  This crate holds the
//! backend-independent core: the enum vocabulary that both backends translate
//! into native integer codes, the handle registry the browser backend keeps
//! between a caller's integer handles and the live objects, the capability
//! gating that turns unsupported operations into no-ops, and the decoding of
//! backend error and status codes.  The thin shells that perform the actual
//! backend calls live outside this crate and consume these verified parts.

use vstd::prelude::*;
use std::io::Write;

pub mod error;
pub mod glenum;
pub mod handle;
pub mod matrix;
pub mod registry;
pub mod webgl;

pub use glenum::{
    BufferKind, DrawMode, ShaderKind, Primitives, DataType, AttributeSize, BufferBit, Culling,
    DepthTest, Flag, BlendEquation, BlendMode, TextureKind, TextureBindPoint, TextureParameter,
    TextureCompression, PixelFormat, PixelType, PixelStorageMode, ShaderParameter, Buffers,
    ColorBuffer, DEPTH_COMPONENT16, STATUS_TRUE,
};
pub use handle::{
    Reference, WebGLBuffer, WebGLShader, WebGLProgram, WebGLTexture, WebGLVertexArray,
    WebGLFrameBuffer, WebGLUniformLocation, attrib_location_of, uniform_location_of,
};
pub use registry::{ResourceKind, ResourceTable, Slot};
pub use error::{ErrorReason, decode_native_error, decode_web_error, status_ok};
pub use webgl::{GLContext, tex_image_internal_format};
pub use matrix::{flatten_2x2, flatten_3x3, flatten_4x4};

verus! {

/// Relies on `std::io::stdout`: writes the text to the host's standard
/// output, the native backend's logging sink.
#[verifier::external_body]
fn emit(s: &str) {
    let _ = write!(std::io::stdout(), "{}", s);
}

/// Utility function to print a diagnostic message to the logging sink.
pub fn print(s: &str) {
    emit(s);
}

} // verus!
