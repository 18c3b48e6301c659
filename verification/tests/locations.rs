//! Attribute and uniform location lookups: a name that is not present in a
//! linked program yields an absent result, never a fabricated handle.

use uni_gl::handle::{attrib_location_of, uniform_location_of};
use uni_gl::webgl::GLContext;

#[test]
fn missing_attribute_is_absent() {
    // The backend reports a missing attribute as -1.
    assert_eq!(attrib_location_of(-1), None);
}

#[test]
fn present_attribute_keeps_its_location() {
    assert_eq!(attrib_location_of(0), Some(0));
    assert_eq!(attrib_location_of(7), Some(7));
}

#[test]
fn missing_uniform_is_absent() {
    assert!(uniform_location_of(-1, "no_such_uniform").is_none());
}

#[test]
fn present_uniform_keeps_location_and_name() {
    let loc = uniform_location_of(3, "mvp_matrix").unwrap();
    assert_eq!(loc.reference, 3);
    assert_eq!(loc.name, "mvp_matrix");
}

#[test]
fn browser_missing_uniform_registers_nothing() {
    let mut ctx: GLContext<u32> = GLContext::new(true);
    let before = ctx.next_handle_value();
    // The browser API answers a missing uniform name with no object.
    assert!(ctx.get_uniform_location(None, "no_such_uniform").is_none());
    assert_eq!(ctx.live_resources(), 0);
    assert_eq!(ctx.next_handle_value(), before);
}

#[test]
fn browser_present_uniform_gets_handle_and_name() {
    let mut ctx: GLContext<u32> = GLContext::new(true);
    let loc = ctx.get_uniform_location(Some(77), "light_dir").unwrap();
    assert_eq!(loc.name, "light_dir");
    assert_eq!(
        ctx.resolve(uni_gl::registry::ResourceKind::UniformLocation, loc.reference),
        Some(&77)
    );
}
