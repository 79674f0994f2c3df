use wgl_context::context::ContextDescriptor;
use wgl_context::device::{Device, HiddenWindow};
use wgl_context::error::{Error, WindowingApiError};
use wgl_context::format::{pixel_format_attributes, PixelFormatBits, PixelFormatReply};
use wgl_context::registry::{WGLExtensionFunctions, WGLPixelFormatExtensionFunctions};
use wgl_context::types::{ContextAttributeFlags, ContextAttributes, GLVersion};

fn device_with_pixel_format() -> Device {
    let mut extensions = WGLExtensionFunctions::empty();
    extensions.pixel_format_functions = Some(WGLPixelFormatExtensionFunctions {
        choose_pixel_format_arb: 0x1000,
        get_pixel_format_attribiv_arb: 0x2000,
    });
    Device::new(HiddenWindow { window: 0x77 }, extensions)
}

fn attributes(alpha: bool, depth: bool, stencil: bool) -> ContextAttributes {
    ContextAttributes {
        version: GLVersion::new(3, 3),
        flags: ContextAttributeFlags { alpha, depth, stencil },
    }
}

#[test]
fn attribute_list_for_alpha_and_depth() {
    let list = pixel_format_attributes(ContextAttributeFlags {
        alpha: true,
        depth: true,
        stencil: false,
    });
    assert_eq!(
        list,
        [
            0x2001, 1, 0x2010, 1, 0x2011, 1, 0x2013, 0x202b, 0x2003, 0x2027, 0x2014, 32, 0x201b,
            8, 0x2022, 24, 0x2023, 0, 0
        ]
    );
}

#[test]
fn attribute_list_for_nothing_optional() {
    let list = pixel_format_attributes(ContextAttributeFlags::empty());
    assert_eq!(list[13], 0);
    assert_eq!(list[15], 0);
    assert_eq!(list[17], 0);
    assert_eq!(list[11], 32);
    assert_eq!(list[18], 0);
}

#[test]
fn attribute_list_for_everything_optional() {
    let list = pixel_format_attributes(ContextAttributeFlags {
        alpha: true,
        depth: true,
        stencil: true,
    });
    assert_eq!((list[13], list[15], list[17]), (8, 24, 8));
}

#[test]
fn query_asks_for_one_format_on_the_hidden_window() {
    let device = device_with_pixel_format();
    let query = device.pixel_format_query(&attributes(true, false, true)).unwrap();
    assert_eq!(query.choose_pixel_format_arb, 0x1000);
    assert_eq!(query.window, 0x77);
    assert_eq!(query.max_formats, 1);
    assert_eq!(
        query.attributes,
        pixel_format_attributes(ContextAttributeFlags { alpha: true, depth: false, stencil: true })
    );
}

#[test]
fn query_without_extension_is_refused() {
    let device = Device::new(HiddenWindow { window: 1 }, WGLExtensionFunctions::empty());
    assert_eq!(
        device.pixel_format_query(&attributes(false, false, false)),
        Err(Error::RequiredExtensionUnavailable)
    );
}

#[test]
fn negotiation_with_zero_matching_formats() {
    let device = device_with_pixel_format();
    let reply = PixelFormatReply { status: 1, pixel_format: 0, pixel_format_count: 0 };
    assert_eq!(
        device.create_context_descriptor(&attributes(true, true, false), reply),
        Err(Error::NoPixelFormatFound)
    );
}

#[test]
fn negotiation_with_failed_call() {
    let device = device_with_pixel_format();
    let reply = PixelFormatReply { status: 0, pixel_format: 5, pixel_format_count: 1 };
    assert_eq!(
        device.create_context_descriptor(&attributes(true, true, false), reply),
        Err(Error::PixelFormatSelectionFailed(WindowingApiError::Failed))
    );
}

#[test]
fn negotiation_failed_call_takes_precedence_over_count() {
    let device = device_with_pixel_format();
    let reply = PixelFormatReply { status: 0, pixel_format: 0, pixel_format_count: 0 };
    assert_eq!(
        device.create_context_descriptor(&attributes(false, false, false), reply),
        Err(Error::PixelFormatSelectionFailed(WindowingApiError::Failed))
    );
}

#[test]
fn negotiation_without_extension() {
    let device = Device::new(HiddenWindow { window: 1 }, WGLExtensionFunctions::empty());
    let reply = PixelFormatReply { status: 1, pixel_format: 5, pixel_format_count: 1 };
    assert_eq!(
        device.create_context_descriptor(&attributes(true, true, true), reply),
        Err(Error::RequiredExtensionUnavailable)
    );
}

#[test]
fn negotiation_success_keeps_requested_version() {
    let device = device_with_pixel_format();
    let reply = PixelFormatReply { status: 1, pixel_format: 42, pixel_format_count: 1 };
    let requested = ContextAttributes {
        version: GLVersion::new(4, 6),
        flags: ContextAttributeFlags { alpha: true, depth: false, stencil: false },
    };
    assert_eq!(
        device.create_context_descriptor(&requested, reply),
        Ok(ContextDescriptor { pixel_format: 42, gl_version: GLVersion { major: 4, minor: 6 } })
    );
}

#[test]
fn negotiation_accepts_any_nonzero_status() {
    let device = device_with_pixel_format();
    let reply = PixelFormatReply { status: -1, pixel_format: 7, pixel_format_count: 3 };
    assert_eq!(
        device.create_context_descriptor(&attributes(false, true, false), reply),
        Ok(ContextDescriptor { pixel_format: 7, gl_version: GLVersion { major: 3, minor: 3 } })
    );
}

#[test]
fn widths_query_names_the_three_optional_buffers() {
    let device = device_with_pixel_format();
    let descriptor = ContextDescriptor { pixel_format: 9, gl_version: GLVersion::new(4, 1) };
    let query = device.pixel_format_bits_query(&descriptor).unwrap();
    assert_eq!(query.get_pixel_format_attribiv_arb, 0x2000);
    assert_eq!(query.window, 0x77);
    assert_eq!(query.pixel_format, 9);
    assert_eq!(query.attributes, [0x201b, 0x2022, 0x2023]);
}

#[test]
fn widths_query_without_extension_is_refused() {
    let device = Device::new(HiddenWindow { window: 1 }, WGLExtensionFunctions::empty());
    let descriptor = ContextDescriptor { pixel_format: 9, gl_version: GLVersion::new(4, 1) };
    assert_eq!(
        device.pixel_format_bits_query(&descriptor),
        Err(Error::RequiredExtensionUnavailable)
    );
}

#[test]
fn descriptor_attributes_from_reported_widths() {
    let device = device_with_pixel_format();
    let descriptor = ContextDescriptor { pixel_format: 9, gl_version: GLVersion::new(4, 1) };
    let bits = PixelFormatBits { alpha_bits: 8, depth_bits: 0, stencil_bits: 8 };
    assert_eq!(
        device.context_descriptor_attributes(&descriptor, bits),
        ContextAttributes {
            version: GLVersion { major: 4, minor: 1 },
            flags: ContextAttributeFlags { alpha: true, depth: false, stencil: true },
        }
    );
}

#[test]
fn descriptor_attributes_round_trip_of_requested_widths() {
    let device = device_with_pixel_format();
    let requested = attributes(true, true, false);
    let reply = PixelFormatReply { status: 1, pixel_format: 11, pixel_format_count: 1 };
    let descriptor = device.create_context_descriptor(&requested, reply).unwrap();
    let list = pixel_format_attributes(requested.flags);
    let bits = PixelFormatBits {
        alpha_bits: list[13],
        depth_bits: list[15],
        stencil_bits: list[17],
    };
    assert_eq!(device.context_descriptor_attributes(&descriptor, bits), requested);
}
