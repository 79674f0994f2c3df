//! The device from which descriptors and contexts are made.

use vstd::prelude::*;
use crate::registry::WGLExtensionFunctions;

verus! {

/// An invisible window that stands in as drawable where the caller brings
/// none. Its owner destroys it.
#[derive(Debug, PartialEq, Eq)]
pub struct HiddenWindow {
    pub window: usize,
}

/// A connection to the display driver: the hidden window it negotiates
/// pixel formats on, and the entry points that the extension registry
/// resolved.
#[derive(Debug, PartialEq, Eq)]
pub struct Device {
    pub hidden_window: HiddenWindow,
    pub extensions: WGLExtensionFunctions,
}

impl Device {
    pub fn new(hidden_window: HiddenWindow, extensions: WGLExtensionFunctions) -> (device: Device)
        ensures
            device.hidden_window == hidden_window,
            device.extensions == extensions,
    {
        Device { hidden_window, extensions }
    }
}

} // verus!
