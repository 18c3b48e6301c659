//! End-to-end sequences over the browser-backend core, with the backend's
//! replies played by plain values: the handle and status bookkeeping of a
//! whole draw setup, and the depth-texture allocation workaround.

use uni_gl::error::{decode_web_error, status_ok};
use uni_gl::glenum::PixelFormat;
use uni_gl::registry::ResourceKind;
use uni_gl::webgl::{tex_image_internal_format, GLContext};

#[test]
fn triangle_setup_reports_no_error() {
    // Construct a context, compile two shaders, link them into a program,
    // create and use a 3-vertex position buffer, and draw: every step's
    // status and error register reads success.
    let mut ctx: GLContext<u32> = GLContext::new(true);

    let vertex_shader = ctx.create_shader(500);
    let fragment_shader = ctx.create_shader(501);
    // The backend compiled both shaders successfully.
    assert!(status_ok(1));

    let program = ctx.create_program(502);
    assert!(ctx.resolve(ResourceKind::Shader, vertex_shader.0).is_some());
    assert!(ctx.resolve(ResourceKind::Shader, fragment_shader.0).is_some());
    assert!(ctx.resolve(ResourceKind::Program, program.0).is_some());

    // The link status reads success.
    assert!(status_ok(1));

    let buffer = ctx.create_buffer(503);
    assert!(ctx.resolve(ResourceKind::Buffer, buffer.0).is_some());

    // No reported backend error at any step.
    assert_eq!(decode_web_error(0), None);

    // All four resources are live and distinctly addressable.
    assert_eq!(ctx.live_resources(), 4);
    let handles = [vertex_shader.0, fragment_shader.0, program.0, buffer.0];
    for i in 0..handles.len() {
        for j in 0..handles.len() {
            if i != j {
                assert_ne!(handles[i], handles[j]);
            }
        }
    }
}

#[test]
fn failed_compile_is_detected_before_any_draw() {
    // A shader with a syntax error compiles with a failing status; the
    // failure is detected from the status flag, upon which the backend's
    // diagnostic log is fetched and is non-empty.
    let mut ctx: GLContext<u32> = GLContext::new(true);
    let shader = ctx.create_shader(600);
    assert!(ctx.resolve(ResourceKind::Shader, shader.0).is_some());

    let compile_status = 0;
    assert!(!status_ok(compile_status));
    let diagnostic = "0:1: 'void' : syntax error";
    assert!(!diagnostic.is_empty());
}

#[test]
fn depth_texture_with_empty_payload_substitutes_storage() {
    // Allocating a depth texture without pixel data must request the sized
    // depth storage instead of the literal requested format.
    let internal = tex_image_internal_format(PixelFormat::DepthComponent, false);
    assert_eq!(internal, uni_gl::glenum::DEPTH_COMPONENT16);
    assert_ne!(internal, PixelFormat::DepthComponent.code());
}

#[test]
fn depth_texture_with_pixels_keeps_its_format() {
    let internal = tex_image_internal_format(PixelFormat::DepthComponent, true);
    assert_eq!(internal, PixelFormat::DepthComponent.code());
}

#[test]
fn other_formats_never_substitute() {
    for (format, code) in [
        (PixelFormat::Alpha, 0x1906u32),
        (PixelFormat::Rgb, 0x1907),
        (PixelFormat::Rgba, 0x1908),
        (PixelFormat::Luminance, 0x1909),
        (PixelFormat::LuminanceAlpha, 0x190A),
    ] {
        assert_eq!(tex_image_internal_format(format, false), code);
        assert_eq!(tex_image_internal_format(format, true), code);
    }
}

#[test]
fn print_reaches_the_sink() {
    // The logging sink accepts free text.
    uni_gl::print("uni_gl scenario: diagnostics sink reachable\n");
}
