//! The one-time bootstrap that discovers the driver's extensions.
//!
//! Discovery needs a live context, so the bootstrap opens a short-lived
//! window on a thread of its own, creates a minimal context on it while the
//! window handles its creation message, reads the extension string, and
//! tears both down again. This module holds what the bootstrap decides: the
//! shape of the window, the pixel format of the minimal context, and how the
//! message loop and the window procedure react to a message.

use vstd::prelude::*;

verus! {

/// The message a window receives while it is being created.
pub const WM_CREATE: u32 = 0x0001;

/// The message a window receives while it is being destroyed.
pub const WM_DESTROY: u32 = 0x0002;

/// Window class style: each window of the class has a device context of its
/// own.
pub const CS_OWNDC: u32 = 0x0020;

/// The system colour used for the window background.
pub const COLOR_BACKGROUND: i32 = 1;

/// Window style: an overlapped window with caption, menu, frame and both
/// boxes.
pub const WS_OVERLAPPEDWINDOW: u32 = 0x00CF_0000;

/// Window style: the window is visible from the start.
pub const WS_VISIBLE: u32 = 0x1000_0000;

/// Pixel format flag: the buffer is double-buffered.
pub const PFD_DOUBLEBUFFER: u32 = 0x0000_0001;

/// Pixel format flag: the buffer can draw to a window.
pub const PFD_DRAW_TO_WINDOW: u32 = 0x0000_0004;

/// Pixel format flag: the buffer supports OpenGL.
pub const PFD_SUPPORT_OPENGL: u32 = 0x0000_0020;

/// Pixel type: red, green, blue and alpha.
pub const PFD_TYPE_RGBA: u8 = 0;

/// Layer type: the main plane.
pub const PFD_MAIN_PLANE: u8 = 0;

/// The window class and the window that host the bootstrap.
#[derive(Clone, Copy, Debug, PartialEq, Eq, Structural)]
pub struct FalseWindow {
    pub class_style: u32,
    pub background: i32,
    pub window_style: u32,
    pub x: i32,
    pub y: i32,
    pub width: i32,
    pub height: i32,
}

impl FalseWindow {
    pub open spec fn new_spec() -> FalseWindow {
        FalseWindow {
            class_style: CS_OWNDC,
            background: COLOR_BACKGROUND,
            window_style: WS_OVERLAPPEDWINDOW | WS_VISIBLE,
            x: 0,
            y: 0,
            width: 640,
            height: 480,
        }
    }

    pub fn new() -> (window: FalseWindow)
        ensures
            window == FalseWindow::new_spec(),
    {
        FalseWindow {
            class_style: CS_OWNDC,
            background: COLOR_BACKGROUND,
            window_style: WS_OVERLAPPEDWINDOW | WS_VISIBLE,
            x: 0,
            y: 0,
            width: 640,
            height: 480,
        }
    }
}

/// The name under which the window class of the bootstrap is registered.
pub fn false_window_class_name() -> (name: &'static str)
    ensures
        name@ == "WglContextFalseWindow"@,
{
    "WglContextFalseWindow"
}

/// A legacy pixel format description, field for field without its size.
#[derive(Clone, Copy, Debug, PartialEq, Eq, Structural)]
pub struct PixelFormatDescriptor {
    pub version: u16,
    pub flags: u32,
    pub pixel_type: u8,
    pub color_bits: u8,
    pub red_bits: u8,
    pub red_shift: u8,
    pub green_bits: u8,
    pub green_shift: u8,
    pub blue_bits: u8,
    pub blue_shift: u8,
    pub alpha_bits: u8,
    pub alpha_shift: u8,
    pub accum_bits: u8,
    pub accum_red_bits: u8,
    pub accum_green_bits: u8,
    pub accum_blue_bits: u8,
    pub accum_alpha_bits: u8,
    pub depth_bits: u8,
    pub stencil_bits: u8,
    pub aux_buffers: u8,
    pub layer_type: u8,
    pub reserved: u8,
    pub layer_mask: u32,
    pub visible_mask: u32,
    pub damage_mask: u32,
}

impl PixelFormatDescriptor {
    /// The format of the minimal context: a double-buffered OpenGL window
    /// with 32 colour bits, 24 depth bits and 8 stencil bits on the main
    /// plane, and nothing else asked for.
    pub open spec fn bootstrap_spec() -> PixelFormatDescriptor {
        PixelFormatDescriptor {
            version: 1,
            flags: PFD_DRAW_TO_WINDOW | PFD_SUPPORT_OPENGL | PFD_DOUBLEBUFFER,
            pixel_type: PFD_TYPE_RGBA,
            color_bits: 32,
            red_bits: 0,
            red_shift: 0,
            green_bits: 0,
            green_shift: 0,
            blue_bits: 0,
            blue_shift: 0,
            alpha_bits: 0,
            alpha_shift: 0,
            accum_bits: 0,
            accum_red_bits: 0,
            accum_green_bits: 0,
            accum_blue_bits: 0,
            accum_alpha_bits: 0,
            depth_bits: 24,
            stencil_bits: 8,
            aux_buffers: 0,
            layer_type: PFD_MAIN_PLANE,
            reserved: 0,
            layer_mask: 0,
            visible_mask: 0,
            damage_mask: 0,
        }
    }

    pub fn bootstrap() -> (descriptor: PixelFormatDescriptor)
        ensures
            descriptor == PixelFormatDescriptor::bootstrap_spec(),
    {
        PixelFormatDescriptor {
            version: 1,
            flags: PFD_DRAW_TO_WINDOW | PFD_SUPPORT_OPENGL | PFD_DOUBLEBUFFER,
            pixel_type: PFD_TYPE_RGBA,
            color_bits: 32,
            red_bits: 0,
            red_shift: 0,
            green_bits: 0,
            green_shift: 0,
            blue_bits: 0,
            blue_shift: 0,
            alpha_bits: 0,
            alpha_shift: 0,
            accum_bits: 0,
            accum_red_bits: 0,
            accum_green_bits: 0,
            accum_blue_bits: 0,
            accum_alpha_bits: 0,
            depth_bits: 24,
            stencil_bits: 8,
            aux_buffers: 0,
            layer_type: PFD_MAIN_PLANE,
            reserved: 0,
            layer_mask: 0,
            visible_mask: 0,
            damage_mask: 0,
        }
    }
}

/// What the window procedure of the bootstrap window does with a message.
#[derive(Clone, Copy, Debug, PartialEq, Eq, Structural)]
pub enum WindowProcAction {
    /// Create the minimal context, fill the extension table, destroy the
    /// context and the window, and answer the message with zero.
    LoadExtensions,
    /// Leave the message to the default window procedure.
    Default,
}

/// Only the creation message triggers the discovery.
pub fn extension_loader_window_proc(message: u32) -> (action: WindowProcAction)
    ensures
        action == if message == WM_CREATE {
            WindowProcAction::LoadExtensions
        } else {
            WindowProcAction::Default
        },
{
    if message == WM_CREATE {
        WindowProcAction::LoadExtensions
    } else {
        WindowProcAction::Default
    }
}

/// What the message loop of the bootstrap thread does after it asked for
/// the next message.
#[derive(Clone, Copy, Debug, PartialEq, Eq, Structural)]
pub enum PumpAction {
    /// Leave the loop without dispatching anything.
    Stop,
    /// Translate and dispatch the message, then ask for the next one.
    Dispatch,
    /// Translate and dispatch the message, then leave the loop.
    DispatchAndStop,
}

/// The low-order word of a message identifier.
pub open spec fn low_word(message: u32) -> u32 {
    message & 0xffff
}

/// The loop runs until no message is left or the window was destroyed.
///
/// `retrieved` is what the retrieval call returned: zero ends the loop, any
/// other value, an error report included, has the message dispatched.
pub open spec fn pump_spec(retrieved: i32, message: u32) -> PumpAction {
    if retrieved == 0 {
        PumpAction::Stop
    } else if low_word(message) == WM_DESTROY {
        PumpAction::DispatchAndStop
    } else {
        PumpAction::Dispatch
    }
}

pub fn extension_loader_thread_step(retrieved: i32, message: u32) -> (action: PumpAction)
    ensures
        action == pump_spec(retrieved, message),
{
    if retrieved == 0 {
        PumpAction::Stop
    } else if message & 0xffff == WM_DESTROY {
        PumpAction::DispatchAndStop
    } else {
        PumpAction::Dispatch
    }
}

} // verus!
