//! Error kinds reported by the lifecycle operations.

use vstd::prelude::*;

verus! {

/// What the windowing layer reported about a failed native call.
#[derive(Clone, Copy, Debug, PartialEq, Eq, Structural)]
pub enum WindowingApiError {
    /// The native call failed without further detail.
    Failed,
}

/// Failures of negotiation, creation and surface replacement.
#[derive(Clone, Copy, Debug, PartialEq, Eq, Structural)]
pub enum Error {
    /// The driver lacks an optional capability that the operation needs.
    RequiredExtensionUnavailable,
    /// The driver's pixel-format selection call itself failed.
    PixelFormatSelectionFailed(WindowingApiError),
    /// The selection call succeeded but matched no pixel format.
    NoPixelFormatFound,
    /// The driver refused to create a native context.
    ContextCreationFailed(WindowingApiError),
    /// A managed-surface operation was attempted on an unmanaged drawable.
    ExternalRenderTarget,
    /// A surface created for one context was offered to another.
    IncompatibleSurface,
}

} // verus!
