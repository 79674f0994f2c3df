use wgl_context::bootstrap::{
    extension_loader_thread_step, extension_loader_window_proc, false_window_class_name,
    FalseWindow, PixelFormatDescriptor, PumpAction, WindowProcAction,
};
use wgl_context::extensions::{
    detect_extensions, extensions_string_symbol, DetectedExtensions, WGLExtension,
};
use wgl_context::registry::{
    entry_point, ExtensionRegistry, WGLDXInteropExtensionFunctions, WGLExtensionFunctions,
    WGLPixelFormatExtensionFunctions,
};

fn detected(pixel_format: bool, create_context: bool, dx_interop: bool) -> DetectedExtensions {
    DetectedExtensions { pixel_format, create_context, dx_interop }
}

#[test]
fn detect_in_empty_string() {
    assert_eq!(detect_extensions(b""), detected(false, false, false));
}

#[test]
fn detect_single_name() {
    assert_eq!(detect_extensions(b"WGL_ARB_pixel_format"), detected(true, false, false));
    assert_eq!(detect_extensions(b"WGL_ARB_create_context"), detected(false, true, false));
    assert_eq!(detect_extensions(b"WGL_NV_DX_interop"), detected(false, false, true));
}

#[test]
fn detect_among_other_names() {
    let extensions = b"WGL_EXT_swap_control WGL_ARB_create_context WGL_ARB_multisample \
                       WGL_NV_DX_interop WGL_ARB_pixel_format WGL_EXT_depth_float";
    assert_eq!(detect_extensions(extensions), detected(true, true, true));
}

#[test]
fn detect_ignores_longer_names() {
    let extensions = b"WGL_ARB_pixel_format_float WGL_ARB_create_context_profile \
                       WGL_NV_DX_interop2";
    assert_eq!(detect_extensions(extensions), detected(false, false, false));
}

#[test]
fn detect_ignores_shorter_names_and_suffixes() {
    assert_eq!(detect_extensions(b"WGL_ARB_pixel_forma"), detected(false, false, false));
    assert_eq!(detect_extensions(b"XWGL_ARB_pixel_format"), detected(false, false, false));
    assert_eq!(detect_extensions(b"GL_ARB_pixel_format"), detected(false, false, false));
}

#[test]
fn detect_with_extra_separators() {
    assert_eq!(detect_extensions(b" WGL_ARB_pixel_format "), detected(true, false, false));
    assert_eq!(
        detect_extensions(b"WGL_ARB_pixel_format  WGL_NV_DX_interop"),
        detected(true, false, true)
    );
    assert_eq!(detect_extensions(b"   "), detected(false, false, false));
}

#[test]
fn detect_last_name_without_trailing_separator() {
    assert_eq!(
        detect_extensions(b"WGL_EXT_swap_control WGL_ARB_create_context"),
        detected(false, true, false)
    );
}

#[test]
fn detect_is_case_sensitive_and_splits_on_spaces_only() {
    assert_eq!(detect_extensions(b"wgl_arb_pixel_format"), detected(false, false, false));
    assert_eq!(
        detect_extensions(b"WGL_ARB_pixel_format\tWGL_ARB_create_context"),
        detected(false, false, false)
    );
    assert_eq!(
        detect_extensions(b"WGL_ARB_pixel_format,WGL_ARB_create_context"),
        detected(false, false, false)
    );
}

#[test]
fn detect_repeated_name() {
    assert_eq!(
        detect_extensions(b"WGL_ARB_pixel_format WGL_ARB_pixel_format"),
        detected(true, false, false)
    );
}

#[test]
fn listed_extensions_in_fixed_order() {
    assert_eq!(
        detected(true, true, true).listed(),
        vec![WGLExtension::PixelFormat, WGLExtension::CreateContext, WGLExtension::DXInterop]
    );
    assert_eq!(detected(false, true, false).listed(), vec![WGLExtension::CreateContext]);
    assert_eq!(detected(false, false, false).listed(), Vec::<WGLExtension>::new());
}

#[test]
fn extension_names() {
    assert_eq!(WGLExtension::PixelFormat.name(), "WGL_ARB_pixel_format");
    assert_eq!(WGLExtension::CreateContext.name(), "WGL_ARB_create_context");
    assert_eq!(WGLExtension::DXInterop.name(), "WGL_NV_DX_interop");
    assert_eq!(extensions_string_symbol(), "wglGetExtensionsStringARB");
}

#[test]
fn extension_symbols() {
    assert_eq!(
        WGLExtension::PixelFormat.symbols(),
        vec!["wglChoosePixelFormatARB", "wglGetPixelFormatAttribivARB"]
    );
    assert_eq!(WGLExtension::CreateContext.symbols(), vec!["wglCreateContextAttribsARB"]);
    assert_eq!(
        WGLExtension::DXInterop.symbols(),
        vec![
            "wglDXCloseDeviceNV",
            "wglDXLockObjectsNV",
            "wglDXOpenDeviceNV",
            "wglDXRegisterObjectNV",
            "wglDXSetResourceShareHandleNV",
            "wglDXUnlockObjectsNV",
            "wglDXUnregisterObjectNV"
        ]
    );
}

#[test]
fn null_address_is_no_entry_point() {
    assert_eq!(entry_point(0), None);
    assert_eq!(entry_point(0x1234), Some(0x1234));
    assert_eq!(entry_point(usize::MAX), Some(usize::MAX));
}

#[test]
fn empty_table_has_no_entry() {
    let table = WGLExtensionFunctions::empty();
    assert_eq!(table.create_context_attribs_arb, None);
    assert_eq!(table.get_extensions_string_arb, None);
    assert_eq!(table.pixel_format_functions, None);
    assert_eq!(table.dx_interop_functions, None);
}

#[test]
fn table_records_extensions_string_function() {
    let mut table = WGLExtensionFunctions::empty();
    table.set_extensions_string_function(0x10);
    assert_eq!(table.get_extensions_string_arb, Some(0x10));
    table.set_extensions_string_function(0);
    assert_eq!(table.get_extensions_string_arb, None);
    assert_eq!(table.create_context_attribs_arb, None);
}

#[test]
fn table_loads_pixel_format_functions() {
    let mut table = WGLExtensionFunctions::empty();
    table.load(WGLExtension::PixelFormat, &[0x20, 0x30]);
    assert_eq!(
        table.pixel_format_functions,
        Some(WGLPixelFormatExtensionFunctions {
            choose_pixel_format_arb: 0x20,
            get_pixel_format_attribiv_arb: 0x30,
        })
    );
    assert_eq!(table.create_context_attribs_arb, None);
    assert_eq!(table.dx_interop_functions, None);
}

#[test]
fn table_loads_create_context_function() {
    let mut table = WGLExtensionFunctions::empty();
    table.load(WGLExtension::CreateContext, &[0x40]);
    assert_eq!(table.create_context_attribs_arb, Some(0x40));
    table.load(WGLExtension::CreateContext, &[0]);
    assert_eq!(table.create_context_attribs_arb, None);
}

#[test]
fn table_loads_dx_interop_functions() {
    let mut table = WGLExtensionFunctions::empty();
    table.load(WGLExtension::DXInterop, &[1, 2, 3, 4, 5, 6, 7]);
    assert_eq!(
        table.dx_interop_functions,
        Some(WGLDXInteropExtensionFunctions {
            dx_close_device_nv: 1,
            dx_lock_objects_nv: 2,
            dx_open_device_nv: 3,
            dx_register_object_nv: 4,
            dx_set_resource_share_handle_nv: 5,
            dx_unlock_objects_nv: 6,
            dx_unregister_object_nv: 7,
        })
    );
    assert_eq!(table.pixel_format_functions, None);
}

#[test]
fn table_from_detected_extensions() {
    let found = detect_extensions(b"WGL_ARB_create_context WGL_ARB_pixel_format");
    let mut table = WGLExtensionFunctions::empty();
    table.set_extensions_string_function(0x5);
    let mut address = 0x100;
    for extension in found.listed() {
        let mut addresses = Vec::new();
        for _ in extension.symbols() {
            address += 1;
            addresses.push(address);
        }
        table.load(extension, &addresses);
    }
    assert_eq!(
        table,
        WGLExtensionFunctions {
            create_context_attribs_arb: Some(0x103),
            get_extensions_string_arb: Some(0x5),
            pixel_format_functions: Some(WGLPixelFormatExtensionFunctions {
                choose_pixel_format_arb: 0x101,
                get_pixel_format_attribiv_arb: 0x102,
            }),
            dx_interop_functions: None,
        }
    );
}

#[test]
fn registry_starts_empty() {
    let registry = ExtensionRegistry::new();
    assert!(registry.needs_bootstrap());
    assert_eq!(registry.get(), None);
}

#[test]
fn registry_keeps_the_first_table() {
    let mut first = WGLExtensionFunctions::empty();
    first.load(WGLExtension::CreateContext, &[0x40]);
    let mut second = WGLExtensionFunctions::empty();
    second.load(WGLExtension::CreateContext, &[0x50]);

    let mut registry = ExtensionRegistry::new();
    let mut bootstraps = 0;
    let mut seen = Vec::new();
    for candidate in [first, second, second, first] {
        if registry.needs_bootstrap() {
            bootstraps += 1;
        }
        seen.push(registry.resolve(candidate));
    }
    assert_eq!(bootstraps, 1);
    assert_eq!(seen, vec![first, first, first, first]);
    assert!(!registry.needs_bootstrap());
    assert_eq!(registry.get(), Some(first));
}

#[test]
fn window_proc_reacts_to_creation_only() {
    assert_eq!(extension_loader_window_proc(0x0001), WindowProcAction::LoadExtensions);
    assert_eq!(extension_loader_window_proc(0x0002), WindowProcAction::Default);
    assert_eq!(extension_loader_window_proc(0), WindowProcAction::Default);
    assert_eq!(extension_loader_window_proc(0x0001_0001), WindowProcAction::Default);
}

#[test]
fn message_loop_steps() {
    assert_eq!(extension_loader_thread_step(0, 0x0002), PumpAction::Stop);
    assert_eq!(extension_loader_thread_step(0, 0x000f), PumpAction::Stop);
    assert_eq!(extension_loader_thread_step(1, 0x000f), PumpAction::Dispatch);
    assert_eq!(extension_loader_thread_step(1, 0x0002), PumpAction::DispatchAndStop);
    assert_eq!(extension_loader_thread_step(-1, 0x0001), PumpAction::Dispatch);
    assert_eq!(extension_loader_thread_step(-1, 0x0002), PumpAction::DispatchAndStop);
}

#[test]
fn message_loop_looks_at_the_low_word_only() {
    assert_eq!(extension_loader_thread_step(1, 0xabcd_0002), PumpAction::DispatchAndStop);
    assert_eq!(extension_loader_thread_step(1, 0x0002_0000), PumpAction::Dispatch);
}

#[test]
fn false_window_shape() {
    let window = FalseWindow::new();
    assert_eq!(window.class_style, 0x20);
    assert_eq!(window.background, 1);
    assert_eq!(window.window_style, 0x10cf_0000);
    assert_eq!((window.x, window.y, window.width, window.height), (0, 0, 640, 480));
    assert_eq!(false_window_class_name(), "WglContextFalseWindow");
}

#[test]
fn bootstrap_pixel_format() {
    let descriptor = PixelFormatDescriptor::bootstrap();
    assert_eq!(descriptor.version, 1);
    assert_eq!(descriptor.flags, 0x25);
    assert_eq!(descriptor.pixel_type, 0);
    assert_eq!(descriptor.color_bits, 32);
    assert_eq!(descriptor.alpha_bits, 0);
    assert_eq!(descriptor.depth_bits, 24);
    assert_eq!(descriptor.stencil_bits, 8);
    assert_eq!(descriptor.layer_type, 0);
    assert_eq!(descriptor.layer_mask, 0);
    assert_eq!(descriptor.accum_bits, 0);
}
