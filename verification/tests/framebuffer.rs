use wgl_context::context::{Context, ContextDC, Framebuffer, SurfaceReplacement};
use wgl_context::device::{Device, HiddenWindow};
use wgl_context::error::Error;
use wgl_context::guard::CurrentContextSnapshot;
use wgl_context::registry::WGLExtensionFunctions;
use wgl_context::surface::{Surface, Win32Objects};
use wgl_context::types::ContextID;

fn device() -> Device {
    Device::new(HiddenWindow { window: 1 }, WGLExtensionFunctions::empty())
}

fn texture(context_id: u64, share_handle: usize) -> Surface {
    Surface {
        context_id: ContextID(context_id),
        win32_objects: Win32Objects::Texture { share_handle },
    }
}

fn window_surface(context_id: u64, window: usize) -> Surface {
    Surface { context_id: ContextID(context_id), win32_objects: Win32Objects::Window { window } }
}

fn nothing_current() -> CurrentContextSnapshot {
    CurrentContextSnapshot { dc: 0, glrc: 0 }
}

#[test]
fn new_context_renders_to_nothing() {
    let context = Context::new(ContextID(3), 0x500, None);
    assert_eq!(context.framebuffer, Framebuffer::Empty);
    assert_eq!(context.id, ContextID(3));
    assert_eq!(context.glrc, 0x500);
    assert!(context.framebuffer.is_empty());
}

#[test]
fn attach_on_empty_succeeds() {
    let device = device();
    let mut context = Context::new(ContextID(1), 0x500, None);
    device.attach_surface(&mut context, texture(1, 10));
    assert_eq!(context.framebuffer, Framebuffer::OwnedSurface(texture(1, 10)));
    assert!(!context.framebuffer.is_empty());
}

#[test]
fn try_attach_on_empty_succeeds() {
    let device = device();
    let mut context = Context::new(ContextID(1), 0x500, None);
    assert_eq!(device.try_attach_surface(&mut context, texture(1, 10)), None);
    assert_eq!(context.framebuffer, Framebuffer::OwnedSurface(texture(1, 10)));
}

#[test]
fn try_attach_on_owned_surface_fails() {
    let device = device();
    let mut context = Context::new(ContextID(1), 0x500, None);
    device.attach_surface(&mut context, texture(1, 10));
    let refused = device.try_attach_surface(&mut context, texture(1, 11));
    assert_eq!(refused, Some(texture(1, 11)));
    assert_eq!(context.framebuffer, Framebuffer::OwnedSurface(texture(1, 10)));
}

#[test]
fn try_attach_on_external_drawable_fails() {
    let device = device();
    let mut context = Context::new(ContextID(1), 0x500, None);
    assert!(device.attach_external_drawable(&mut context, 0xdc));
    let refused = device.try_attach_surface(&mut context, texture(1, 11));
    assert_eq!(refused, Some(texture(1, 11)));
    assert_eq!(context.framebuffer, Framebuffer::ExternalDrawable { dc: 0xdc });
}

#[test]
fn attach_does_not_compare_identities() {
    let device = device();
    let mut context = Context::new(ContextID(1), 0x500, None);
    assert_eq!(device.try_attach_surface(&mut context, texture(2, 10)), None);
    assert_eq!(context.framebuffer, Framebuffer::OwnedSurface(texture(2, 10)));
}

#[test]
fn external_drawable_on_occupied_context_is_refused() {
    let device = device();
    let mut context = Context::new(ContextID(1), 0x500, None);
    device.attach_surface(&mut context, texture(1, 10));
    assert!(!device.attach_external_drawable(&mut context, 0xdc));
    assert_eq!(context.framebuffer, Framebuffer::OwnedSurface(texture(1, 10)));
    let mut external = Context::new(ContextID(2), 0x600, None);
    assert!(device.attach_external_drawable(&mut external, 0xd1));
    assert!(!device.attach_external_drawable(&mut external, 0xd2));
    assert_eq!(external.framebuffer, Framebuffer::ExternalDrawable { dc: 0xd1 });
}

#[test]
fn release_hands_out_the_surface() {
    let device = device();
    let mut context = Context::new(ContextID(1), 0x500, None);
    device.attach_surface(&mut context, texture(1, 10));
    assert_eq!(device.release_surface(&mut context), Some(texture(1, 10)));
    assert_eq!(context.framebuffer, Framebuffer::Empty);
    assert_eq!(context.id, ContextID(1));
    assert_eq!(context.glrc, 0x500);
}

#[test]
fn release_on_empty_is_a_no_op() {
    let device = device();
    let mut context = Context::new(ContextID(1), 0x500, Some(HiddenWindow { window: 9 }));
    assert_eq!(device.release_surface(&mut context), None);
    assert_eq!(context, Context::new(ContextID(1), 0x500, Some(HiddenWindow { window: 9 })));
}

#[test]
fn release_on_external_drawable_is_a_no_op() {
    let device = device();
    let mut context = Context::new(ContextID(1), 0x500, None);
    device.attach_external_drawable(&mut context, 0xdc);
    assert_eq!(device.release_surface(&mut context), None);
    assert_eq!(context.framebuffer, Framebuffer::ExternalDrawable { dc: 0xdc });
}

#[test]
fn replace_on_external_drawable() {
    let device = device();
    let mut context = Context::new(ContextID(1), 0x500, None);
    device.attach_external_drawable(&mut context, 0xdc);
    let result = device.replace_context_surface(&mut context, texture(1, 10), nothing_current());
    assert_eq!(result, Err(Error::ExternalRenderTarget));
    assert_eq!(context.framebuffer, Framebuffer::ExternalDrawable { dc: 0xdc });
}

#[test]
fn replace_on_external_drawable_with_foreign_surface() {
    let device = device();
    let mut context = Context::new(ContextID(1), 0x500, None);
    device.attach_external_drawable(&mut context, 0xdc);
    let result = device.replace_context_surface(&mut context, texture(2, 10), nothing_current());
    assert_eq!(result, Err(Error::ExternalRenderTarget));
    assert_eq!(context.framebuffer, Framebuffer::ExternalDrawable { dc: 0xdc });
}

#[test]
fn replace_with_foreign_surface() {
    let device = device();
    let mut context = Context::new(ContextID(1), 0x500, None);
    device.attach_surface(&mut context, texture(1, 10));
    let result = device.replace_context_surface(&mut context, texture(2, 11), nothing_current());
    assert_eq!(result, Err(Error::IncompatibleSurface));
    assert_eq!(context.framebuffer, Framebuffer::OwnedSurface(texture(1, 10)));
}

#[test]
fn replace_with_foreign_surface_on_empty_context() {
    let device = device();
    let mut context = Context::new(ContextID(1), 0x500, None);
    let result = device.replace_context_surface(&mut context, texture(2, 11), nothing_current());
    assert_eq!(result, Err(Error::IncompatibleSurface));
    assert_eq!(context.framebuffer, Framebuffer::Empty);
}

#[test]
fn replace_returns_the_old_surface() {
    let device = device();
    let mut context = Context::new(ContextID(1), 0x500, None);
    device.attach_surface(&mut context, texture(1, 10));
    let result = device.replace_context_surface(&mut context, texture(1, 11), nothing_current());
    assert_eq!(result, Ok(SurfaceReplacement { old_surface: texture(1, 10), reactivate: false }));
    assert_eq!(context.framebuffer, Framebuffer::OwnedSurface(texture(1, 11)));
    assert_eq!(context.id, ContextID(1));
}

#[test]
fn replace_on_current_context_asks_for_reactivation() {
    let device = device();
    let mut context = Context::new(ContextID(1), 0x500, None);
    device.attach_surface(&mut context, window_surface(1, 0x40));
    let current = CurrentContextSnapshot { dc: 0xdc, glrc: 0x500 };
    let result = device.replace_context_surface(&mut context, window_surface(1, 0x41), current);
    assert_eq!(
        result,
        Ok(SurfaceReplacement { old_surface: window_surface(1, 0x40), reactivate: true })
    );
    assert_eq!(context.framebuffer, Framebuffer::OwnedSurface(window_surface(1, 0x41)));
}

#[test]
fn replace_while_another_context_is_current() {
    let device = device();
    let mut context = Context::new(ContextID(1), 0x500, None);
    device.attach_surface(&mut context, texture(1, 10));
    let current = CurrentContextSnapshot { dc: 0xdc, glrc: 0x501 };
    let result = device.replace_context_surface(&mut context, texture(1, 11), current).unwrap();
    assert!(!result.reactivate);
}

#[test]
fn context_is_current_compares_native_contexts() {
    let device = device();
    let context = Context::new(ContextID(1), 0x500, None);
    assert!(device.context_is_current(&context, CurrentContextSnapshot { dc: 1, glrc: 0x500 }));
    assert!(!device.context_is_current(&context, CurrentContextSnapshot { dc: 1, glrc: 0x501 }));
    assert!(!device.context_is_current(&context, nothing_current()));
}

#[test]
fn dc_of_external_drawable() {
    let device = device();
    let mut context = Context::new(ContextID(1), 0x500, None);
    device.attach_external_drawable(&mut context, 0xdc);
    assert_eq!(device.get_context_dc(&context), ContextDC::External { dc: 0xdc });
    assert_eq!(device.try_get_context_dc(&context), Some(ContextDC::External { dc: 0xdc }));
}

#[test]
fn dc_of_window_surface() {
    let device = device();
    let mut context = Context::new(ContextID(1), 0x500, None);
    device.attach_surface(&mut context, window_surface(1, 0x40));
    assert_eq!(device.get_context_dc(&context), ContextDC::Window { window: 0x40 });
}

#[test]
fn dc_of_texture_surface_is_the_hidden_window() {
    let device = device();
    let mut context = Context::new(ContextID(1), 0x500, Some(HiddenWindow { window: 0x99 }));
    device.attach_surface(&mut context, texture(1, 10));
    assert_eq!(device.get_context_dc(&context), ContextDC::HiddenWindow { window: 0x99 });
}

#[test]
fn dc_of_context_without_drawable() {
    let device = device();
    let context = Context::new(ContextID(1), 0x500, Some(HiddenWindow { window: 0x99 }));
    assert_eq!(device.try_get_context_dc(&context), None);
    let mut bare = Context::new(ContextID(2), 0x501, None);
    device.attach_surface(&mut bare, texture(2, 10));
    assert_eq!(device.try_get_context_dc(&bare), None);
}

#[test]
fn temporary_activation_remembers_the_current_pair() {
    let device = device();
    let mut context = Context::new(ContextID(1), 0x500, None);
    device.attach_surface(&mut context, window_surface(1, 0x40));
    let current = CurrentContextSnapshot { dc: 0xa, glrc: 0xb };
    let activation = device.temporarily_make_context_current(&context, current);
    assert_eq!(activation.drawable, ContextDC::Window { window: 0x40 });
    assert_eq!(activation.glrc, 0x500);
    assert_eq!(activation.guard.release(), current);
}
