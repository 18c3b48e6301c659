//! The browser backend's handle registry: create / use / delete lifecycles
//! and handle uniqueness.

use uni_gl::registry::ResourceKind;
use uni_gl::webgl::GLContext;

#[test]
fn create_use_delete_leaves_no_stale_entry() {
    let mut ctx: GLContext<u32> = GLContext::new(true);
    assert_eq!(ctx.live_resources(), 0);

    let buffer = ctx.create_buffer(100);
    let texture = ctx.create_texture(200);
    let fb = ctx.create_framebuffer(300);
    assert_eq!(ctx.live_resources(), 3);

    // Use each resource: its handle resolves to the live object.
    assert_eq!(ctx.resolve(ResourceKind::Buffer, buffer.0), Some(&100));
    assert_eq!(ctx.resolve(ResourceKind::Texture, texture.0), Some(&200));
    assert_eq!(ctx.resolve(ResourceKind::Framebuffer, fb.0), Some(&300));

    // Delete each resource: the live object comes back out and the entry
    // leaves the table.
    assert_eq!(ctx.delete_buffer(&buffer), Some(100));
    assert_eq!(ctx.delete_texture(&texture), Some(200));
    assert_eq!(ctx.delete_framebuffer(&fb), Some(300));
    assert_eq!(ctx.live_resources(), 0);

    // No stale entry remains: the deleted handles no longer resolve.
    assert_eq!(ctx.resolve(ResourceKind::Buffer, buffer.0), None);
    assert_eq!(ctx.resolve(ResourceKind::Texture, texture.0), None);
    assert_eq!(ctx.resolve(ResourceKind::Framebuffer, fb.0), None);
}

#[test]
fn use_after_delete_is_rejected() {
    let mut ctx: GLContext<&'static str> = GLContext::new(true);
    let buffer = ctx.create_buffer("vertex data");
    assert!(ctx.resolve(ResourceKind::Buffer, buffer.0).is_some());
    assert_eq!(ctx.delete_buffer(&buffer), Some("vertex data"));
    // Using the handle after delete is detected and rejected, not answered
    // with wrong data.
    assert_eq!(ctx.resolve(ResourceKind::Buffer, buffer.0), None);
    // A second delete of the same handle is rejected too and changes
    // nothing.
    assert_eq!(ctx.delete_buffer(&buffer), None);
    assert_eq!(ctx.live_resources(), 0);
}

#[test]
fn wrong_kind_resolution_is_rejected() {
    let mut ctx: GLContext<u32> = GLContext::new(true);
    let buffer = ctx.create_buffer(17);
    // Resolving a buffer handle as a texture is caller misuse: it is
    // rejected rather than handing back the buffer's object.
    assert_eq!(ctx.resolve(ResourceKind::Texture, buffer.0), None);
    assert_eq!(ctx.resolve(ResourceKind::Buffer, buffer.0), Some(&17));
    // Deleting it as the wrong kind is rejected as well.
    assert_eq!(ctx.delete_texture(&uni_gl::WebGLTexture(buffer.0)), None);
    assert_eq!(ctx.live_resources(), 1);
}

#[test]
fn handles_are_distinct_across_kinds() {
    let mut ctx: GLContext<u32> = GLContext::new(true);
    let mut handles: Vec<u32> = Vec::new();
    handles.push(ctx.create_buffer(0).0);
    handles.push(ctx.create_shader(1).0);
    handles.push(ctx.create_program(2).0);
    handles.push(ctx.create_texture(3).0);
    handles.push(ctx.create_framebuffer(4).0);
    handles.push(ctx.create_vertex_array(Some(5)).0);
    handles.push(ctx.get_uniform_location(Some(6), "mvp").unwrap().reference);
    handles.push(ctx.create_buffer(7).0);
    handles.push(ctx.create_texture(8).0);

    // N creations, of any mix of kinds, yield N pairwise distinct handles.
    for i in 0..handles.len() {
        for j in 0..handles.len() {
            if i != j {
                assert_ne!(handles[i], handles[j]);
            }
        }
    }
    assert_eq!(ctx.live_resources(), handles.len());
}

#[test]
fn handles_are_never_reused_after_delete() {
    let mut ctx: GLContext<u32> = GLContext::new(true);
    let first = ctx.create_buffer(1);
    assert_eq!(ctx.delete_buffer(&first), Some(1));
    let second = ctx.create_buffer(2);
    // The retired handle is not handed out again.
    assert_ne!(first.0, second.0);
    assert_eq!(ctx.resolve(ResourceKind::Buffer, first.0), None);
    assert_eq!(ctx.resolve(ResourceKind::Buffer, second.0), Some(&2));
}

#[test]
fn handles_start_at_one_and_increase() {
    let mut ctx: GLContext<u32> = GLContext::new(true);
    assert_eq!(ctx.next_handle_value(), 1);
    let b = ctx.create_buffer(10);
    assert_eq!(b.0, 1);
    let s = ctx.create_shader(11);
    assert_eq!(s.0, 2);
    assert_eq!(ctx.next_handle_value(), 3);
}
