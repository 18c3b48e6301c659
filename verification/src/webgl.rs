//! The browser-backend context core.
//!
//! The browser's graphics API returns live objects for every created
//! resource, so this context keeps a [`ResourceTable`] from synthetic integer
//! handles to those objects and exposes only the handles.  Two revisions of
//! the browser API exist beneath it; `is_webgl2` records which one was
//! acquired at construction time.  Operations the older revision lacks —
//! vertex-array objects, multiple simultaneous draw buffers, the extended
//! texture-wrap parameter — are complete no-ops on it rather than failures,
//! so calling code can be written uniformly against the newer feature set.
//!
//! The context is generic over the live object type `T` (a JavaScript value
//! in the browser shell), so the handle bookkeeping is independent of any
//! particular backend binding.  Each operation here performs the decision
//! half of the corresponding backend call: it assigns or resolves handles and
//! says whether and with what the backend should be called; the shell that
//! owns the real API performs the call itself.

use vstd::prelude::*;
use crate::glenum::{ColorBuffer, PixelFormat, TextureParameter, DEPTH_COMPONENT16};
use crate::handle::{
    Reference, WebGLBuffer, WebGLFrameBuffer, WebGLProgram, WebGLShader, WebGLTexture,
    WebGLUniformLocation, WebGLVertexArray,
};
use crate::registry::{ResourceKind, ResourceTable, Slot};

verus! {

/// The browser backend's context: the capability flag recorded when the
/// drawing surface was acquired, and the registry of live resources.
pub struct GLContext<T> {
    is_webgl2: bool,
    table: ResourceTable<T>,
}

/// A creation registered `obj` under the fresh handle `h`: the handle is the
/// one the counter owed, it was not live before, afterwards it maps to a
/// `kind` entry holding `obj`, and nothing else about the context changed.
pub open spec fn registered<T>(
    pre: GLContext<T>,
    post: GLContext<T>,
    kind: ResourceKind,
    h: Reference,
    obj: T,
) -> bool {
    &&& h == pre.next_handle()
    &&& !pre.resources().contains_key(h)
    &&& post.resources() == pre.resources().insert(h, (Slot { kind, obj }))
    &&& post.next_handle() == pre.next_handle() + 1
    &&& post.handles_ever() == pre.handles_ever().push(h)
    &&& post.webgl2() == pre.webgl2()
    &&& post.wf()
}

/// A deletion of handle `h` as a `kind` resource behaved as owed: if `h` was
/// live as that kind, its object came back and exactly its entry left the
/// registry; otherwise the deletion was rejected and nothing changed.  The
/// handle counter never moves, so retired handles are not reused.
pub open spec fn removed<T>(
    pre: GLContext<T>,
    post: GLContext<T>,
    kind: ResourceKind,
    h: Reference,
    r: Option<T>,
) -> bool {
    &&& match r {
        Some(obj) => pre.resources().contains_key(h) && pre.resources()[h].kind == kind && obj
            == pre.resources()[h].obj && post.resources() == pre.resources().remove(h),
        None => (!pre.resources().contains_key(h) || pre.resources()[h].kind != kind)
            && post.resources() == pre.resources(),
    }
    &&& post.next_handle() == pre.next_handle()
    &&& post.handles_ever() == pre.handles_ever()
    &&& post.webgl2() == pre.webgl2()
    &&& post.wf()
}

/// Nothing observable about the context changed.
pub open spec fn preserved<T>(pre: GLContext<T>, post: GLContext<T>) -> bool {
    &&& post.resources() == pre.resources()
    &&& post.next_handle() == pre.next_handle()
    &&& post.handles_ever() == pre.handles_ever()
    &&& post.webgl2() == pre.webgl2()
    &&& post.wf()
}

impl<T> GLContext<T> {
    /// Whether the newer API revision (the advanced feature tier) is
    /// active.
    pub closed spec fn webgl2(&self) -> bool {
        self.is_webgl2
    }

    /// The live resources: which handle is mapped to which kind and object.
    pub closed spec fn resources(&self) -> Map<Reference, Slot<T>> {
        self.table@
    }

    /// The handle the next creation will assign.
    pub closed spec fn next_handle(&self) -> Reference {
        self.table.next_handle()
    }

    /// Every handle this context has ever assigned, in order of assignment.
    pub closed spec fn handles_ever(&self) -> Seq<Reference> {
        self.table.handles_ever()
    }

    /// Well-formedness of the underlying registry.
    pub closed spec fn wf(&self) -> bool {
        self.table.wf()
    }

    /// A fresh context over a surface whose capability tier is `is_webgl2`:
    /// no live resources, handles starting at 1.
    pub fn new(is_webgl2: bool) -> (c: GLContext<T>)
        ensures
            c.wf(),
            c.webgl2() == is_webgl2,
            c.resources() == Map::<Reference, Slot<T>>::empty(),
            c.next_handle() == 1,
            c.handles_ever() == Seq::<Reference>::empty(),
    {
        GLContext { is_webgl2, table: ResourceTable::new() }
    }

    /// Whether the newer API revision is active: the capability flag
    /// recorded when the context was constructed.
    pub fn is_webgl2(&self) -> (r: bool)
        ensures
            r == self.webgl2(),
    {
        self.is_webgl2
    }

    /// The handle the next creation will assign.  The shell that owns the
    /// backend checks this against the end of the handle space before a
    /// creation and fails there, as running out of handles is unrecoverable.
    pub fn next_handle_value(&self) -> (h: Reference)
        ensures
            h == self.next_handle(),
    {
        self.table.next_handle_value()
    }

    /// How many resources are live.
    pub fn live_resources(&self) -> (n: usize)
        ensures
            n == self.resources().len(),
    {
        self.table.len()
    }

    /// Register the buffer object the backend created: it becomes a fresh
    /// handle mapped to that object.
    pub fn create_buffer(&mut self, raw: T) -> (b: WebGLBuffer)
        requires
            old(self).wf(),
            old(self).next_handle() < Reference::MAX,
        ensures
            registered(*old(self), *final(self), ResourceKind::Buffer, b.0, raw),
    {
        WebGLBuffer(self.table.insert(ResourceKind::Buffer, raw))
    }

    /// Register the shader object the backend created.
    pub fn create_shader(&mut self, raw: T) -> (s: WebGLShader)
        requires
            old(self).wf(),
            old(self).next_handle() < Reference::MAX,
        ensures
            registered(*old(self), *final(self), ResourceKind::Shader, s.0, raw),
    {
        WebGLShader(self.table.insert(ResourceKind::Shader, raw))
    }

    /// Register the program object the backend created.
    pub fn create_program(&mut self, raw: T) -> (p: WebGLProgram)
        requires
            old(self).wf(),
            old(self).next_handle() < Reference::MAX,
        ensures
            registered(*old(self), *final(self), ResourceKind::Program, p.0, raw),
    {
        WebGLProgram(self.table.insert(ResourceKind::Program, raw))
    }

    /// Register the texture object the backend created.
    pub fn create_texture(&mut self, raw: T) -> (t: WebGLTexture)
        requires
            old(self).wf(),
            old(self).next_handle() < Reference::MAX,
        ensures
            registered(*old(self), *final(self), ResourceKind::Texture, t.0, raw),
    {
        WebGLTexture(self.table.insert(ResourceKind::Texture, raw))
    }

    /// Register the framebuffer object the backend created.
    pub fn create_framebuffer(&mut self, raw: T) -> (f: WebGLFrameBuffer)
        requires
            old(self).wf(),
            old(self).next_handle() < Reference::MAX,
        ensures
            registered(*old(self), *final(self), ResourceKind::Framebuffer, f.0, raw),
    {
        WebGLFrameBuffer(self.table.insert(ResourceKind::Framebuffer, raw))
    }

    /// Register a vertex array object.  On the newer revision the backend
    /// creates one and hands it here; on the older revision vertex arrays do
    /// not exist, no backend call is made, and no entry is recorded — the
    /// caller still receives a handle distinct from every other one, so that
    /// handle uniqueness holds across any mix of creations.
    pub fn create_vertex_array(&mut self, raw: Option<T>) -> (v: WebGLVertexArray)
        requires
            old(self).wf(),
            old(self).next_handle() < Reference::MAX,
            old(self).webgl2() <==> raw is Some,
        ensures
            (raw matches Some(obj) ==> registered(
                *old(self),
                *final(self),
                ResourceKind::VertexArray,
                v.0,
                obj,
            )),
            raw is None ==> {
                &&& v.0 == old(self).next_handle()
                &&& !old(self).resources().contains_key(v.0)
                &&& final(self).resources() == old(self).resources()
                &&& final(self).next_handle() == old(self).next_handle() + 1
                &&& final(self).handles_ever() == old(self).handles_ever().push(v.0)
                &&& final(self).webgl2() == old(self).webgl2()
                &&& final(self).wf()
            },
    {
        match raw {
            Some(obj) => WebGLVertexArray(self.table.insert(ResourceKind::VertexArray, obj)),
            None => WebGLVertexArray(self.table.reserve_handle()),
        }
    }

    /// Resolve a handle of the given kind back to the live backend object,
    /// for an operation that targets that resource.  A handle that was
    /// deleted, never assigned, or assigned to a resource of another kind is
    /// rejected with an absent result instead of yielding a wrong object.
    pub fn resolve(&self, kind: ResourceKind, h: Reference) -> (r: Option<&T>)
        ensures
            match r {
                Some(obj) => self.resources().contains_key(h) && self.resources()[h].kind == kind
                    && self.resources()[h].obj == *obj,
                None => !self.resources().contains_key(h) || self.resources()[h].kind != kind,
            },
    {
        self.table.resolve(kind, h)
    }

    /// Delete a buffer: its entry leaves the registry for good and the live
    /// object is handed back for the backend's own delete call.  A handle
    /// that is not a live buffer leaves the context unchanged.
    pub fn delete_buffer(&mut self, buffer: &WebGLBuffer) -> (r: Option<T>)
        requires
            old(self).wf(),
        ensures
            removed(*old(self), *final(self), ResourceKind::Buffer, buffer.0, r),
    {
        self.table.remove(ResourceKind::Buffer, buffer.0)
    }

    /// Delete a texture; as [`GLContext::delete_buffer`], for textures.
    pub fn delete_texture(&mut self, texture: &WebGLTexture) -> (r: Option<T>)
        requires
            old(self).wf(),
        ensures
            removed(*old(self), *final(self), ResourceKind::Texture, texture.0, r),
    {
        self.table.remove(ResourceKind::Texture, texture.0)
    }

    /// Delete a framebuffer; as [`GLContext::delete_buffer`], for
    /// framebuffers.
    pub fn delete_framebuffer(&mut self, fb: &WebGLFrameBuffer) -> (r: Option<T>)
        requires
            old(self).wf(),
        ensures
            removed(*old(self), *final(self), ResourceKind::Framebuffer, fb.0, r),
    {
        self.table.remove(ResourceKind::Framebuffer, fb.0)
    }

    /// Delete a vertex array.  On the older revision this is a complete
    /// no-op — nothing was ever recorded and no backend call is owed.  On
    /// the newer one it behaves as [`GLContext::delete_buffer`] does for
    /// buffers.
    pub fn delete_vertex_array(&mut self, vao: &WebGLVertexArray) -> (r: Option<T>)
        requires
            old(self).wf(),
        ensures
            !old(self).webgl2() ==> r is None && preserved(*old(self), *final(self)),
            old(self).webgl2() ==> removed(
                *old(self),
                *final(self),
                ResourceKind::VertexArray,
                vao.0,
                r,
            ),
    {
        if self.is_webgl2 {
            self.table.remove(ResourceKind::VertexArray, vao.0)
        } else {
            None
        }
    }

    /// Register the location object the backend resolved for a uniform name,
    /// or pass the backend's "not found" through as an absent result — a
    /// missing uniform is a common, non-fatal occurrence and never yields a
    /// fabricated handle.  The name is retained beside the handle for later
    /// diagnostics.
    pub fn get_uniform_location(&mut self, raw: Option<T>, name: &str) -> (r: Option<
        WebGLUniformLocation,
    >)
        requires
            old(self).wf(),
            old(self).next_handle() < Reference::MAX,
        ensures
            r is None <==> raw is None,
            raw is None ==> preserved(*old(self), *final(self)),
            (raw matches Some(obj) ==> (r matches Some(loc) && loc.name@ == name@ && registered(
                *old(self),
                *final(self),
                ResourceKind::UniformLocation,
                loc.reference,
                obj,
            ))),
    {
        match raw {
            Some(obj) => {
                let h = self.table.insert(ResourceKind::UniformLocation, obj);
                Some(WebGLUniformLocation { reference: h, name: name.to_owned() })
            },
            None => None,
        }
    }

    /// Decide a vertex-array bind: on the newer revision, the live object to
    /// hand to the backend; on the older one, nothing — the bind is a
    /// complete no-op and must not raise an error.
    pub fn bind_vertex_array(&self, vao: &WebGLVertexArray) -> (r: Option<&T>)
        ensures
            !self.webgl2() ==> r is None,
            self.webgl2() ==> match r {
                Some(obj) => self.resources().contains_key(vao.0) && self.resources()[vao.0].kind
                    == ResourceKind::VertexArray && self.resources()[vao.0].obj == *obj,
                None => !self.resources().contains_key(vao.0) || self.resources()[vao.0].kind
                    != ResourceKind::VertexArray,
            },
    {
        if self.is_webgl2 {
            self.table.resolve(ResourceKind::VertexArray, vao.0)
        } else {
            None
        }
    }

    /// Decide a vertex-array unbind: whether the backend's unbind call
    /// should be made.  On the older revision it never is.
    pub fn unbind_vertex_array(&self, _vao: &WebGLVertexArray) -> (r: bool)
        ensures
            r <==> self.webgl2(),
    {
        self.is_webgl2
    }

    /// Decide a multi-target draw-buffer specification: on the newer
    /// revision, the backend codes to submit, one per requested color
    /// buffer and in the same order; on the older one, nothing — the call
    /// is a complete no-op and must not raise an error.
    pub fn draw_buffer(&self, buffers: &[ColorBuffer]) -> (r: Option<Vec<u32>>)
        ensures
            !self.webgl2() ==> r is None,
            self.webgl2() ==> (r matches Some(codes) && codes@.len() == buffers@.len() && (forall|
                i: int,
            |
                0 <= i < buffers@.len() ==> codes@[i] == buffers@[i].spec_code())),
    {
        if !self.is_webgl2 {
            return None;
        }
        let mut codes: Vec<u32> = Vec::new();
        let mut i: usize = 0;
        while i < buffers.len()
            invariant
                i <= buffers@.len(),
                codes@.len() == i as int,
                forall|j: int| 0 <= j < i as int ==> codes@[j] == buffers@[j].spec_code(),
            decreases buffers@.len() - i as int,
        {
            codes.push(buffers[i].code());
            i = i + 1;
        }
        Some(codes)
    }

    /// Whether a texture parameter reaches the backend: the extended
    /// texture-wrap-R parameter does not exist on the older revision and
    /// setting it degrades to a no-op there.
    pub fn tex_parameter_applies(&self, pname: TextureParameter) -> (r: bool)
        ensures
            r <==> (self.webgl2() || pname != TextureParameter::TextureWrapR),
    {
        self.is_webgl2 || pname != TextureParameter::TextureWrapR
    }
}

/// Handle uniqueness for a whole context: any two handles it assigned at
/// two distinct points in its lifetime are distinct, whatever mix of
/// resource kinds was created and whatever was deleted in between.
pub proof fn lemma_context_handles_distinct<T>(c: GLContext<T>, i: int, j: int)
    requires
        c.wf(),
        0 <= i < c.handles_ever().len(),
        0 <= j < c.handles_ever().len(),
        i != j,
    ensures
        c.handles_ever()[i] != c.handles_ever()[j],
{
}

/// The internal storage format a texture allocation with no initial pixel
/// data must request in place of the given pixel format.
///
/// Allocating storage without data (as for a depth attachment) with the
/// depth-component format is rejected by the browser API's validation when
/// the internal format repeats the pixel format, although the two are
/// documented to pair; only the sized depth storage is accepted.  The
/// substitution is an empirically required, backend-specific workaround for
/// exactly that one format, not a general rule.
pub open spec fn spec_empty_payload_internal_format(format: PixelFormat) -> u32 {
    if format == PixelFormat::DepthComponent {
        DEPTH_COMPONENT16
    } else {
        format.spec_code()
    }
}

/// Decide the internal-format argument of a texture allocation: with pixel
/// data it is the pixel format's own code; with an empty payload the
/// depth-component format is substituted by the sized depth storage and
/// every other format keeps its own code.
pub fn tex_image_internal_format(format: PixelFormat, has_pixels: bool) -> (r: u32)
    ensures
        has_pixels ==> r == format.spec_code(),
        !has_pixels ==> r == spec_empty_payload_internal_format(format),
{
    if has_pixels {
        format.code()
    } else {
        match format {
            PixelFormat::DepthComponent => DEPTH_COMPONENT16,
            _ => format.code(),
        }
    }
}

} // verus!
