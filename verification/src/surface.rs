//! Surfaces as the lifecycle manager sees them.
//!
//! How a surface stores its pixels is not decided here. A surface is known
//! by the context it was made for and by the native object that backs it.

use vstd::prelude::*;
use crate::types::ContextID;

verus! {

/// A window that the caller owns.
#[derive(Clone, Copy, Debug, PartialEq, Eq, Structural)]
pub struct NativeWidget {
    pub window_handle: usize,
}

/// What kind of surface a context starts with.
#[derive(Clone, Copy, Debug, PartialEq, Eq, Structural)]
pub enum SurfaceType {
    /// An off-screen surface of the given size.
    Generic { width: i32, height: i32 },
    /// A surface that shows in the caller's window.
    Widget { native_widget: NativeWidget },
}

/// The native object behind a surface.
#[derive(Debug, PartialEq, Eq)]
pub enum Win32Objects {
    /// An off-screen texture, found again by its share handle.
    Texture { share_handle: usize },
    /// A window.
    Window { window: usize },
}

/// A drawable that the library manages. It is attached to at most one
/// context at a time, and only to the one it was created for.
#[derive(Debug, PartialEq, Eq)]
pub struct Surface {
    pub context_id: ContextID,
    pub win32_objects: Win32Objects,
}

} // verus!
