//! Capability gating: on the older browser API revision the advanced
//! feature tier degrades to complete no-ops, never to errors.

use uni_gl::glenum::{ColorBuffer, TextureParameter};
use uni_gl::webgl::GLContext;
use uni_gl::WebGLVertexArray;

#[test]
fn gl1_vertex_array_ops_are_noops() {
    let mut ctx: GLContext<u32> = GLContext::new(false);
    assert!(!ctx.is_webgl2());

    // Creation makes no backend call and records nothing; the caller still
    // gets a handle.
    let vao = ctx.create_vertex_array(None);
    assert_eq!(ctx.live_resources(), 0);

    // Bind, unbind and delete request no backend action and change no state.
    assert_eq!(ctx.bind_vertex_array(&vao), None);
    assert!(!ctx.unbind_vertex_array(&vao));
    assert_eq!(ctx.delete_vertex_array(&vao), None);
    assert_eq!(ctx.live_resources(), 0);
}

#[test]
fn gl2_vertex_array_ops_reach_the_backend() {
    let mut ctx: GLContext<u32> = GLContext::new(true);
    let vao = ctx.create_vertex_array(Some(42));
    assert_eq!(ctx.live_resources(), 1);
    assert_eq!(ctx.bind_vertex_array(&vao), Some(&42));
    assert!(ctx.unbind_vertex_array(&vao));
    assert_eq!(ctx.delete_vertex_array(&vao), Some(42));
    assert_eq!(ctx.live_resources(), 0);
    assert_eq!(ctx.bind_vertex_array(&vao), None);
}

#[test]
fn gl1_vertex_array_handles_stay_distinct_from_resources() {
    let mut ctx: GLContext<u32> = GLContext::new(false);
    let buffer = ctx.create_buffer(5);
    let vao1 = ctx.create_vertex_array(None);
    let vao2 = ctx.create_vertex_array(None);
    let texture = ctx.create_texture(6);
    // Even no-op creations never collide with real handles or each other.
    let all = [buffer.0, vao1.0, vao2.0, texture.0];
    for i in 0..all.len() {
        for j in 0..all.len() {
            if i != j {
                assert_ne!(all[i], all[j]);
            }
        }
    }
}

#[test]
fn gl1_draw_buffer_is_a_noop() {
    let ctx: GLContext<u32> = GLContext::new(false);
    let wanted = [ColorBuffer::ColorAttachment0, ColorBuffer::ColorAttachment1];
    assert_eq!(ctx.draw_buffer(&wanted), None);
}

#[test]
fn gl2_draw_buffer_submits_codes_in_order() {
    let ctx: GLContext<u32> = GLContext::new(true);
    let wanted = [
        ColorBuffer::ColorAttachment2,
        ColorBuffer::ColorAttachment0,
        ColorBuffer::Back,
    ];
    let codes = ctx.draw_buffer(&wanted).unwrap();
    assert_eq!(codes, vec![0x8CE2, 0x8CE0, 0x405]);
}

#[test]
fn gl1_texture_wrap_r_is_skipped() {
    let gl1: GLContext<u32> = GLContext::new(false);
    let gl2: GLContext<u32> = GLContext::new(true);
    assert!(!gl1.tex_parameter_applies(TextureParameter::TextureWrapR));
    assert!(gl2.tex_parameter_applies(TextureParameter::TextureWrapR));
    // Every other parameter applies on both revisions.
    assert!(gl1.tex_parameter_applies(TextureParameter::TextureMinFilter));
    assert!(gl1.tex_parameter_applies(TextureParameter::TextureMagFilter));
    assert!(gl1.tex_parameter_applies(TextureParameter::TextureWrapS));
    assert!(gl1.tex_parameter_applies(TextureParameter::TextureWrapT));
}

#[test]
fn gated_ops_on_foreign_handles_still_noop() {
    // Handles that were never assigned are no reason for an error either.
    let ctx: GLContext<u32> = GLContext::new(false);
    let foreign = WebGLVertexArray(999);
    assert_eq!(ctx.bind_vertex_array(&foreign), None);
    assert!(!ctx.unbind_vertex_array(&foreign));
}
