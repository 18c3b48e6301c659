//! Backend-independent resource identifiers.
//!
//! Every resource a caller holds is identified by an integer-like handle.  On
//! the native backend a handle is the underlying API's own integer name; on
//! the browser backend it is a synthetic integer the context assigns at
//! creation time and resolves back to the live object through its registry.
//! Either way, callers only ever see these opaque integers.

use vstd::prelude::*;

verus! {

/// The integer a handle wraps.
pub type Reference = u32;

/// A buffer created with a context's `create_buffer`.
///
/// Buffers store vertex attributes (position, normal, uv coordinates) and
/// indices for indexed rendering.
#[derive(Debug, Clone, Copy, PartialEq, Eq, Structural)]
pub struct WebGLBuffer(pub Reference);

/// A shader created with a context's `create_shader`.
///
/// There are two kinds of shaders ([`crate::glenum::ShaderKind`]): vertex and
/// fragment.
#[derive(Debug, Clone, Copy, PartialEq, Eq, Structural)]
pub struct WebGLShader(pub Reference);

/// A program created with a context's `create_program`.
///
/// It is built from a vertex shader and a fragment shader.
#[derive(Debug, Clone, Copy, PartialEq, Eq, Structural)]
pub struct WebGLProgram(pub Reference);

/// A texture created with a context's `create_texture`.
#[derive(Debug, Clone, Copy, PartialEq, Eq, Structural)]
pub struct WebGLTexture(pub Reference);

/// A vertex array object created with a context's `create_vertex_array`.
///
/// Vertex array objects store all the state needed to supply vertex data.
#[derive(Debug, Clone, Copy, PartialEq, Eq, Structural)]
pub struct WebGLVertexArray(pub Reference);

/// A framebuffer created with a context's `create_framebuffer`: a special
/// buffer that can be used as a destination for rendering.
#[derive(Debug, Clone, Copy, PartialEq, Eq, Structural)]
pub struct WebGLFrameBuffer(pub Reference);

/// The resolved location of a uniform (a global GLSL variable) inside a
/// program.  The name is retained beside the handle because diagnostic paths
/// need it after resolution; the handle alone identifies the uniform to the
/// backend.
#[derive(Debug, PartialEq)]
pub struct WebGLUniformLocation {
    pub reference: Reference,
    pub name: String,
}

/// Normalize a raw attribute-location query result.
///
/// Both backends report an attribute name that does not occur in a linked
/// program as the sentinel `-1`, a common and non-fatal occurrence; any other
/// reply is the attribute's location.  The sentinel maps to an absent result,
/// never to a fabricated handle.
pub fn attrib_location_of(raw: i32) -> (r: Option<u32>)
    requires
        raw >= -1,
    ensures
        raw == -1 <==> r is None,
        raw >= 0 ==> r == Some(raw as u32),
{
    if raw == -1 {
        None
    } else {
        Some(raw as u32)
    }
}

/// Normalize a raw uniform-location query result, retaining the queried name.
///
/// The backend reports a uniform name that does not occur in a linked program
/// as the sentinel `-1`: that maps to an absent result, never to a fabricated
/// handle.  Any other reply becomes a location holding the backend's own
/// integer and the name it was resolved from.
pub fn uniform_location_of(raw: i32, name: &str) -> (r: Option<WebGLUniformLocation>)
    requires
        raw >= -1,
    ensures
        raw == -1 <==> r is None,
        raw >= 0 ==> (r matches Some(loc) && loc.reference == raw as u32 && loc.name@ == name@),
{
    if raw == -1 {
        None
    } else {
        Some(WebGLUniformLocation { reference: raw as u32, name: name.to_owned() })
    }
}

} // verus!
