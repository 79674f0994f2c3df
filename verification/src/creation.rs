//! Creation of a context, one native call at a time.
//!
//! Creating a context takes a series of native calls with a decision after
//! each. [`ContextCreation`] holds the progress: it names the call to make
//! next, takes what the call returned, and ends with the finished context
//! or with the error and what is left to release. The caller makes the
//! calls, under the lock that guards the identity counter.

use vstd::prelude::*;
use crate::context::{Context, ContextDescriptor, Framebuffer};
use crate::device::{Device, HiddenWindow};
use crate::error::{Error, WindowingApiError};
use crate::format::FALSE;
use crate::guard::{CurrentContextGuard, CurrentContextSnapshot};
use crate::surface::{Surface, SurfaceType};
use crate::types::{assign_context_id, ContextID, GLVersion};

verus! {

pub const WGL_CONTEXT_MAJOR_VERSION_ARB: i32 = 0x2091;

pub const WGL_CONTEXT_MINOR_VERSION_ARB: i32 = 0x2092;

pub const WGL_CONTEXT_PROFILE_MASK_ARB: i32 = 0x9126;

pub const WGL_CONTEXT_CORE_PROFILE_BIT_ARB: i32 = 0x0000_0001;

/// The attribute list of a context request: a core profile of the given
/// version, as pairs of attribute and value, closed by a zero.
pub open spec fn context_attributes_spec(version: GLVersion) -> Seq<i32> {
    seq![
        WGL_CONTEXT_MAJOR_VERSION_ARB,
        version.major as i32,
        WGL_CONTEXT_MINOR_VERSION_ARB,
        version.minor as i32,
        WGL_CONTEXT_PROFILE_MASK_ARB,
        WGL_CONTEXT_CORE_PROFILE_BIT_ARB,
        0,
    ]
}

pub fn context_attributes(version: GLVersion) -> (list: [i32; 7])
    ensures
        list@ == context_attributes_spec(version),
{
    let list: [i32; 7] = [
        WGL_CONTEXT_MAJOR_VERSION_ARB,
        version.major as i32,
        WGL_CONTEXT_MINOR_VERSION_ARB,
        version.minor as i32,
        WGL_CONTEXT_PROFILE_MASK_ARB,
        WGL_CONTEXT_CORE_PROFILE_BIT_ARB,
        0,
    ];
    assert(list@ =~= context_attributes_spec(version));
    list
}

/// The drawable that a new context is configured on.
#[derive(Debug, PartialEq, Eq)]
pub struct Drawable {
    /// The hidden window that the context will own, where the caller
    /// brought no window.
    pub hidden_window: Option<HiddenWindow>,
    /// The device context of the window.
    pub dc: usize,
}

/// How far a creation has come; each stage but the last two waits for the
/// result of one native call.
#[derive(Debug, PartialEq, Eq)]
pub enum CreationStage {
    /// A hidden window is being made.
    HiddenWindow,
    /// The device context of the caller's window is being fetched.
    WindowDC { window: usize },
    /// The negotiated pixel format is being described.
    FormatDescription { drawable: Drawable },
    /// The pixel format is being applied to the drawable.
    FormatApplication { drawable: Drawable },
    /// The native context is being created.
    NativeContext { drawable: Drawable },
    /// The pair that is current on the thread is being read.
    CurrentPair { drawable: Drawable, glrc: usize },
    /// The new context is being made current.
    Activation { drawable: Drawable, glrc: usize, guard: CurrentContextGuard },
    /// The function table is being loaded.
    FunctionTable { drawable: Drawable, glrc: usize, guard: CurrentContextGuard },
    /// The pair that was current before is being made current again.
    Restoration { drawable: Drawable, glrc: usize, restored: CurrentContextSnapshot },
    /// The device context of the hidden window is being released.
    DCRelease { hidden_window: HiddenWindow, dc: usize, glrc: usize },
    /// The initial surface is being created.
    Surface { context: Context },
    /// The initial surface is being locked.
    SurfaceLock { context: Context, surface: Surface },
    /// The context is finished.
    Created { context: Context },
    /// The creation failed; the hidden window and the native context, as
    /// far as they were made, are left to release.
    Failed { error: Error, hidden_window: Option<HiddenWindow>, glrc: usize },
}

/// The native call to make next.
#[derive(Clone, Copy, Debug, PartialEq, Eq, Structural)]
pub enum CreationRequest {
    /// Make a hidden window and fetch its device context.
    CreateHiddenWindow,
    /// Fetch the device context of the caller's window.
    GetWindowDC { window: usize },
    /// Describe the pixel format on the device context.
    DescribePixelFormat { dc: usize, pixel_format: i32 },
    /// Apply the described pixel format to the device context.
    SetPixelFormat { dc: usize, pixel_format: i32 },
    /// Create a native context through the given entry point, sharing with
    /// no other context, with the attribute list of `version`.
    CreateContext { create_context_attribs_arb: usize, dc: usize, version: GLVersion },
    /// Read the pair that is current on the thread.
    QueryCurrent,
    /// Make the new context current on its drawable.
    MakeCurrent { dc: usize, glrc: usize },
    /// Load the function table of the context that is current now.
    LoadFunctions,
    /// Make the given pair current; whether that works is of no concern.
    Restore { current: CurrentContextSnapshot },
    /// Release the device context of the hidden window.
    ReleaseDC { window: usize, dc: usize },
    /// Create the initial surface for the context of the given identity.
    CreateSurface { context_id: ContextID, surface_type: SurfaceType },
    /// Lock the surface that was just created.
    LockSurface,
}

/// What a native call returned.
#[derive(Debug, PartialEq, Eq)]
pub enum CreationEvent {
    /// The hidden window was made.
    HiddenWindowCreated { hidden_window: HiddenWindow, dc: usize },
    /// The device context of the caller's window was fetched.
    WindowDC { dc: usize },
    /// The pixel format was described; `count` is what the call returned.
    FormatDescribed { count: i32 },
    /// The pixel format was applied; `status` is what the call returned.
    FormatApplied { status: i32 },
    /// The creation call returned a native context, null if it failed.
    NativeContextCreated { glrc: usize },
    /// The pair that is current on the thread was read.
    CurrentPair { current: CurrentContextSnapshot },
    /// The activation call returned `status`.
    Activated { status: i32 },
    /// The function table was loaded.
    FunctionsLoaded,
    /// The restoring call was made.
    Restored,
    /// The device context of the hidden window was released.
    DCReleased,
    /// The initial surface was created.
    SurfaceCreated { surface: Surface },
    /// The initial surface could not be created.
    SurfaceFailed { error: Error },
    /// The initial surface was locked.
    SurfaceLocked,
}

/// A context creation in progress.
#[derive(Debug, PartialEq, Eq)]
pub struct ContextCreation {
    pub descriptor: ContextDescriptor,
    pub surface_type: SurfaceType,
    /// The address of the creation entry point.
    pub create_context_attribs_arb: usize,
    pub stage: CreationStage,
}

impl ContextCreation {
    /// The stage in which the creation of a context with an initial surface
    /// of the given type starts.
    pub open spec fn first_stage_spec(surface_type: SurfaceType) -> CreationStage {
        match surface_type {
            SurfaceType::Generic { .. } => CreationStage::HiddenWindow,
            SurfaceType::Widget { native_widget } => CreationStage::WindowDC {
                window: native_widget.window_handle,
            },
        }
    }

    /// The native call that the creation waits for, if it waits for one.
    pub open spec fn request_spec(self) -> Option<CreationRequest> {
        match self.stage {
            CreationStage::HiddenWindow => Some(CreationRequest::CreateHiddenWindow),
            CreationStage::WindowDC { window } => Some(CreationRequest::GetWindowDC { window }),
            CreationStage::FormatDescription { drawable } => Some(
                CreationRequest::DescribePixelFormat {
                    dc: drawable.dc,
                    pixel_format: self.descriptor.pixel_format,
                },
            ),
            CreationStage::FormatApplication { drawable } => Some(
                CreationRequest::SetPixelFormat {
                    dc: drawable.dc,
                    pixel_format: self.descriptor.pixel_format,
                },
            ),
            CreationStage::NativeContext { drawable } => Some(
                CreationRequest::CreateContext {
                    create_context_attribs_arb: self.create_context_attribs_arb,
                    dc: drawable.dc,
                    version: self.descriptor.gl_version,
                },
            ),
            CreationStage::CurrentPair { .. } => Some(CreationRequest::QueryCurrent),
            CreationStage::Activation { drawable, glrc, .. } => Some(
                CreationRequest::MakeCurrent { dc: drawable.dc, glrc },
            ),
            CreationStage::FunctionTable { .. } => Some(CreationRequest::LoadFunctions),
            CreationStage::Restoration { restored, .. } => Some(
                CreationRequest::Restore { current: restored },
            ),
            CreationStage::DCRelease { hidden_window, dc, .. } => Some(
                CreationRequest::ReleaseDC { window: hidden_window.window, dc },
            ),
            CreationStage::Surface { context } => Some(
                CreationRequest::CreateSurface {
                    context_id: context.id,
                    surface_type: self.surface_type,
                },
            ),
            CreationStage::SurfaceLock { .. } => Some(CreationRequest::LockSurface),
            CreationStage::Created { .. } => None,
            CreationStage::Failed { .. } => None,
        }
    }

    /// Whether the creation cannot go on after `event`: a pixel format that
    /// was negotiated before cannot be described or applied, the new context
    /// cannot be made current, or the identities have run out.
    pub open spec fn aborts_spec(self, event: CreationEvent, next_context_id: ContextID) -> bool {
        match (self.stage, event) {
            (CreationStage::FormatDescription { .. }, CreationEvent::FormatDescribed { count }) => count
                == 0,
            (CreationStage::FormatApplication { .. }, CreationEvent::FormatApplied { status }) => status
                == FALSE,
            (CreationStage::Activation { .. }, CreationEvent::Activated { status }) => status
                == FALSE,
            (
                CreationStage::Restoration { drawable, .. },
                CreationEvent::Restored,
            ) => drawable.hidden_window is None && next_context_id.0 == u64::MAX,
            (CreationStage::DCRelease { .. }, CreationEvent::DCReleased) => next_context_id.0
                == u64::MAX,
            _ => false,
        }
    }

    /// The stage after `event`. An event that the stage does not wait for
    /// changes nothing.
    pub open spec fn stage_after_spec(
        self,
        event: CreationEvent,
        next_context_id: ContextID,
    ) -> CreationStage {
        match (self.stage, event) {
            (
                CreationStage::HiddenWindow,
                CreationEvent::HiddenWindowCreated { hidden_window, dc },
            ) => CreationStage::FormatDescription {
                drawable: Drawable { hidden_window: Some(hidden_window), dc },
            },
            (
                CreationStage::WindowDC { .. },
                CreationEvent::WindowDC { dc },
            ) => CreationStage::FormatDescription { drawable: Drawable { hidden_window: None, dc } },
            (
                CreationStage::FormatDescription { drawable },
                CreationEvent::FormatDescribed { .. },
            ) => CreationStage::FormatApplication { drawable },
            (
                CreationStage::FormatApplication { drawable },
                CreationEvent::FormatApplied { .. },
            ) => CreationStage::NativeContext { drawable },
            (
                CreationStage::NativeContext { drawable },
                CreationEvent::NativeContextCreated { glrc },
            ) => if glrc == 0 {
                CreationStage::Failed {
                    error: Error::ContextCreationFailed(WindowingApiError::Failed),
                    hidden_window: drawable.hidden_window,
                    glrc: 0,
                }
            } else {
                CreationStage::CurrentPair { drawable, glrc }
            },
            (
                CreationStage::CurrentPair { drawable, glrc },
                CreationEvent::CurrentPair { current },
            ) => CreationStage::Activation {
                drawable,
                glrc,
                guard: CurrentContextGuard::new_spec(current),
            },
            (
                CreationStage::Activation { drawable, glrc, guard },
                CreationEvent::Activated { .. },
            ) => CreationStage::FunctionTable { drawable, glrc, guard },
            (
                CreationStage::FunctionTable { drawable, glrc, guard },
                CreationEvent::FunctionsLoaded,
            ) => CreationStage::Restoration { drawable, glrc, restored: guard.restores() },
            (
                CreationStage::Restoration { drawable, glrc, .. },
                CreationEvent::Restored,
            ) => match drawable.hidden_window {
                Some(hidden_window) => CreationStage::DCRelease {
                    hidden_window,
                    dc: drawable.dc,
                    glrc,
                },
                None => CreationStage::Surface {
                    context: Context {
                        id: next_context_id,
                        glrc,
                        hidden_window: None,
                        framebuffer: Framebuffer::Empty,
                    },
                },
            },
            (
                CreationStage::DCRelease { hidden_window, glrc, .. },
                CreationEvent::DCReleased,
            ) => CreationStage::Surface {
                context: Context {
                    id: next_context_id,
                    glrc,
                    hidden_window: Some(hidden_window),
                    framebuffer: Framebuffer::Empty,
                },
            },
            (
                CreationStage::Surface { context },
                CreationEvent::SurfaceCreated { surface },
            ) => CreationStage::SurfaceLock { context, surface },
            (
                CreationStage::Surface { context },
                CreationEvent::SurfaceFailed { error },
            ) => CreationStage::Failed {
                error,
                hidden_window: context.hidden_window,
                glrc: context.glrc,
            },
            (
                CreationStage::SurfaceLock { context, surface },
                CreationEvent::SurfaceLocked,
            ) => CreationStage::Created {
                context: Context { framebuffer: Framebuffer::OwnedSurface(surface), ..context },
            },
            (stage, _) => stage,
        }
    }

    /// The creation after `event`.
    pub open spec fn step_spec(self, event: CreationEvent, next_context_id: ContextID) -> ContextCreation {
        ContextCreation { stage: self.stage_after_spec(event, next_context_id), ..self }
    }

    /// Whether `event` has the context take its identity: the event with
    /// which the creation has done with the drawable.
    pub open spec fn assigns_identity_spec(self, event: CreationEvent) -> bool {
        match (self.stage, event) {
            (
                CreationStage::Restoration { drawable, .. },
                CreationEvent::Restored,
            ) => drawable.hidden_window is None,
            (CreationStage::DCRelease { .. }, CreationEvent::DCReleased) => true,
            _ => false,
        }
    }

    /// The identity counter after `event`.
    pub open spec fn next_identity_spec(
        self,
        event: CreationEvent,
        next_context_id: ContextID,
    ) -> ContextID {
        if self.assigns_identity_spec(event) {
            next_context_id.next_spec()
        } else {
            next_context_id
        }
    }

    /// The native call to make next; none once the creation has ended.
    pub fn request(&self) -> (request: Option<CreationRequest>)
        ensures
            request == self.request_spec(),
    {
        match &self.stage {
            CreationStage::HiddenWindow => Some(CreationRequest::CreateHiddenWindow),
            CreationStage::WindowDC { window } => Some(
                CreationRequest::GetWindowDC { window: *window },
            ),
            CreationStage::FormatDescription { drawable } => Some(
                CreationRequest::DescribePixelFormat {
                    dc: drawable.dc,
                    pixel_format: self.descriptor.pixel_format,
                },
            ),
            CreationStage::FormatApplication { drawable } => Some(
                CreationRequest::SetPixelFormat {
                    dc: drawable.dc,
                    pixel_format: self.descriptor.pixel_format,
                },
            ),
            CreationStage::NativeContext { drawable } => Some(
                CreationRequest::CreateContext {
                    create_context_attribs_arb: self.create_context_attribs_arb,
                    dc: drawable.dc,
                    version: self.descriptor.gl_version,
                },
            ),
            CreationStage::CurrentPair { .. } => Some(CreationRequest::QueryCurrent),
            CreationStage::Activation { drawable, glrc, .. } => Some(
                CreationRequest::MakeCurrent { dc: drawable.dc, glrc: *glrc },
            ),
            CreationStage::FunctionTable { .. } => Some(CreationRequest::LoadFunctions),
            CreationStage::Restoration { restored, .. } => Some(
                CreationRequest::Restore { current: *restored },
            ),
            CreationStage::DCRelease { hidden_window, dc, .. } => Some(
                CreationRequest::ReleaseDC { window: hidden_window.window, dc: *dc },
            ),
            CreationStage::Surface { context } => Some(
                CreationRequest::CreateSurface {
                    context_id: context.id,
                    surface_type: self.surface_type,
                },
            ),
            CreationStage::SurfaceLock { .. } => Some(CreationRequest::LockSurface),
            CreationStage::Created { .. } => None,
            CreationStage::Failed { .. } => None,
        }
    }

    /// Whether the creation cannot go on after `event`.
    pub fn aborts(&self, event: &CreationEvent, next_context_id: &ContextID) -> (aborts: bool)
        ensures
            aborts == self.aborts_spec(*event, *next_context_id),
    {
        match (&self.stage, event) {
            (
                CreationStage::FormatDescription { .. },
                CreationEvent::FormatDescribed { count },
            ) => *count == 0,
            (
                CreationStage::FormatApplication { .. },
                CreationEvent::FormatApplied { status },
            ) => *status == FALSE,
            (CreationStage::Activation { .. }, CreationEvent::Activated { status }) => *status
                == FALSE,
            (
                CreationStage::Restoration { drawable, .. },
                CreationEvent::Restored,
            ) => drawable.hidden_window.is_none() && next_context_id.0 == u64::MAX,
            (CreationStage::DCRelease { .. }, CreationEvent::DCReleased) => next_context_id.0
                == u64::MAX,
            _ => false,
        }
    }

    /// Takes what a native call returned and moves on.
    ///
    /// The context takes its identity from `next_context_id`, and the
    /// counter moves on, with the event that ends the work on the drawable:
    /// the release of the hidden window's device context, or, where the
    /// caller brought the window, the restoring call. No other event touches
    /// the counter. An event after which the creation cannot go on
    /// must not be handed in: [`ContextCreation::aborts`] finds it.
    pub fn step(self, event: CreationEvent, next_context_id: &mut ContextID) -> (after:
        ContextCreation)
        requires
            !self.aborts_spec(event, *old(next_context_id)),
        ensures
            after == self.step_spec(event, *old(next_context_id)),
            *final(next_context_id) == self.next_identity_spec(event, *old(next_context_id)),
    {
        let ContextCreation { descriptor, surface_type, create_context_attribs_arb, stage } = self;
        let stage = match (stage, event) {
            (
                CreationStage::HiddenWindow,
                CreationEvent::HiddenWindowCreated { hidden_window, dc },
            ) => CreationStage::FormatDescription {
                drawable: Drawable { hidden_window: Some(hidden_window), dc },
            },
            (
                CreationStage::WindowDC { .. },
                CreationEvent::WindowDC { dc },
            ) => CreationStage::FormatDescription { drawable: Drawable { hidden_window: None, dc } },
            (
                CreationStage::FormatDescription { drawable },
                CreationEvent::FormatDescribed { .. },
            ) => CreationStage::FormatApplication { drawable },
            (
                CreationStage::FormatApplication { drawable },
                CreationEvent::FormatApplied { .. },
            ) => CreationStage::NativeContext { drawable },
            (
                CreationStage::NativeContext { drawable },
                CreationEvent::NativeContextCreated { glrc },
            ) => if glrc == 0 {
                CreationStage::Failed {
                    error: Error::ContextCreationFailed(WindowingApiError::Failed),
                    hidden_window: drawable.hidden_window,
                    glrc: 0,
                }
            } else {
                CreationStage::CurrentPair { drawable, glrc }
            },
            (
                CreationStage::CurrentPair { drawable, glrc },
                CreationEvent::CurrentPair { current },
            ) => CreationStage::Activation {
                drawable,
                glrc,
                guard: CurrentContextGuard::new(current),
            },
            (
                CreationStage::Activation { drawable, glrc, guard },
                CreationEvent::Activated { .. },
            ) => CreationStage::FunctionTable { drawable, glrc, guard },
            (
                CreationStage::FunctionTable { drawable, glrc, guard },
                CreationEvent::FunctionsLoaded,
            ) => CreationStage::Restoration { drawable, glrc, restored: guard.release() },
            (
                CreationStage::Restoration { drawable, glrc, .. },
                CreationEvent::Restored,
            ) => match drawable.hidden_window {
                Some(hidden_window) => CreationStage::DCRelease {
                    hidden_window,
                    dc: drawable.dc,
                    glrc,
                },
                None => {
                    let id = assign_context_id(next_context_id);
                    CreationStage::Surface { context: Context::new(id, glrc, None) }
                },
            },
            (CreationStage::DCRelease { hidden_window, glrc, .. }, CreationEvent::DCReleased) => {
                let id = assign_context_id(next_context_id);
                CreationStage::Surface { context: Context::new(id, glrc, Some(hidden_window)) }
            },
            (
                CreationStage::Surface { context },
                CreationEvent::SurfaceCreated { surface },
            ) => CreationStage::SurfaceLock { context, surface },
            (
                CreationStage::Surface { context },
                CreationEvent::SurfaceFailed { error },
            ) => CreationStage::Failed {
                error,
                hidden_window: context.hidden_window,
                glrc: context.glrc,
            },
            (CreationStage::SurfaceLock { context, surface }, CreationEvent::SurfaceLocked) => {
                let Context { id, glrc, hidden_window, framebuffer: _ } = context;
                CreationStage::Created {
                    context: Context {
                        id,
                        glrc,
                        hidden_window,
                        framebuffer: Framebuffer::OwnedSurface(surface),
                    },
                }
            },
            (stage, _) => stage,
        };
        ContextCreation { descriptor, surface_type, create_context_attribs_arb, stage }
    }

    /// Ends the creation: hands out the context if it is finished, and
    /// hands the creation back if it failed or is still under way.
    pub fn finish(self) -> (result: Result<Context, ContextCreation>)
        ensures
            self.stage matches CreationStage::Created { context } ==> result == Ok::<
                Context,
                ContextCreation,
            >(context),
            self.stage !is Created ==> result == Err::<Context, ContextCreation>(self),
    {
        let ContextCreation { descriptor, surface_type, create_context_attribs_arb, stage } = self;
        match stage {
            CreationStage::Created { context } => Ok(context),
            stage => Err(
                ContextCreation { descriptor, surface_type, create_context_attribs_arb, stage },
            ),
        }
    }
}

impl Device {
    /// Starts the creation of a context from a negotiated descriptor, with
    /// an initial surface of the given type.
    ///
    /// Fails with `RequiredExtensionUnavailable`, before any native call,
    /// exactly if the creation entry point was not resolved. Otherwise the
    /// creation starts with the drawable: a hidden window of the context's
    /// own for a generic surface, the caller's window for a widget.
    pub fn create_context(&self, descriptor: &ContextDescriptor, surface_type: &SurfaceType) -> (creation:
        Result<ContextCreation, Error>)
        ensures
            self.extensions.create_context_attribs_arb is None ==> creation == Err::<
                ContextCreation,
                Error,
            >(Error::RequiredExtensionUnavailable),
            self.extensions.create_context_attribs_arb matches Some(entry) ==> creation == Ok::<
                ContextCreation,
                Error,
            >(
                ContextCreation {
                    descriptor: *descriptor,
                    surface_type: *surface_type,
                    create_context_attribs_arb: entry,
                    stage: ContextCreation::first_stage_spec(*surface_type),
                },
            ),
    {
        let entry = match self.extensions.create_context_attribs_arb {
            None => return Err(Error::RequiredExtensionUnavailable),
            Some(entry) => entry,
        };
        let stage = match surface_type {
            SurfaceType::Generic { .. } => CreationStage::HiddenWindow,
            SurfaceType::Widget { native_widget } => CreationStage::WindowDC {
                window: native_widget.window_handle,
            },
        };
        Ok(
            ContextCreation {
                descriptor: *descriptor,
                surface_type: *surface_type,
                create_context_attribs_arb: entry,
                stage,
            },
        )
    }
}

impl ContextCreation {
    /// The creation and the identity counter after a series of events.
    pub open spec fn run_spec(self, events: Seq<CreationEvent>, next_context_id: ContextID) -> (
        ContextCreation,
        ContextID,
    )
        decreases events.len(),
    {
        if events.len() == 0 {
            (self, next_context_id)
        } else {
            let (before, next) = self.run_spec(events.drop_last(), next_context_id);
            (before.step_spec(events.last(), next), before.next_identity_spec(events.last(), next))
        }
    }
}

/// The events of a creation in which every native call succeeds, from the
/// arrival of the drawable on.
pub open spec fn successful_events(
    drawable: CreationEvent,
    count: i32,
    status: i32,
    glrc: usize,
    current: CurrentContextSnapshot,
    activated: i32,
    surface: Surface,
) -> Seq<CreationEvent> {
    seq![
        drawable,
        CreationEvent::FormatDescribed { count },
        CreationEvent::FormatApplied { status },
        CreationEvent::NativeContextCreated { glrc },
        CreationEvent::CurrentPair { current },
        CreationEvent::Activated { status: activated },
        CreationEvent::FunctionsLoaded,
        CreationEvent::Restored,
    ] + (if drawable is HiddenWindowCreated {
        seq![CreationEvent::DCReleased]
    } else {
        Seq::empty()
    }) + seq![CreationEvent::SurfaceCreated { surface }, CreationEvent::SurfaceLocked]
}

/// A creation in which every native call succeeds ends with a context that
/// has the identity which the counter held, the native context that the
/// driver returned, the hidden window that was made for it, if one was, and
/// the initial surface attached; it holds its own surface if the surface was
/// created for the identity that the creation asked for. The counter has
/// moved on by one, and the call after the loading of the function table
/// restored the pair that was current when the new context was activated.
pub proof fn lemma_creation_succeeds(
    creation: ContextCreation,
    drawable: CreationEvent,
    count: i32,
    status: i32,
    glrc: usize,
    current: CurrentContextSnapshot,
    activated: i32,
    surface: Surface,
    next_context_id: ContextID,
)
    requires
        creation.stage == ContextCreation::first_stage_spec(creation.surface_type),
        creation.stage is HiddenWindow ==> drawable is HiddenWindowCreated,
        creation.stage is WindowDC ==> drawable is WindowDC,
        count != 0,
        status != FALSE,
        glrc != 0,
        activated != FALSE,
        next_context_id.0 < u64::MAX,
    ensures
        ({
            let events = successful_events(
                drawable,
                count,
                status,
                glrc,
                current,
                activated,
                surface,
            );
            let hidden_window = match drawable {
                CreationEvent::HiddenWindowCreated { hidden_window, .. } => Some(hidden_window),
                _ => None,
            };
            &&& creation.run_spec(events, next_context_id).0.stage == CreationStage::Created {
                context: Context {
                    id: next_context_id,
                    glrc,
                    hidden_window,
                    framebuffer: Framebuffer::OwnedSurface(surface),
                },
            }
            &&& creation.run_spec(events, next_context_id).1 == next_context_id.next_spec()
            &&& surface.context_id == next_context_id ==> (Context {
                id: next_context_id,
                glrc,
                hidden_window,
                framebuffer: Framebuffer::OwnedSurface(surface),
            }).holds_own_surface()
            &&& creation.run_spec(events.take(7), next_context_id).0.request_spec() == Some(
                CreationRequest::Restore { current },
            )
        }),
{
    let events = successful_events(drawable, count, status, glrc, current, activated, surface);
    let id = next_context_id;
    assert(events.take(0) =~= Seq::<CreationEvent>::empty());
    assert(creation.run_spec(events.take(0), id) == (creation, id));
    lemma_run_extend(creation, events, 1, id);
    lemma_run_extend(creation, events, 2, id);
    lemma_run_extend(creation, events, 3, id);
    lemma_run_extend(creation, events, 4, id);
    lemma_run_extend(creation, events, 5, id);
    lemma_run_extend(creation, events, 6, id);
    lemma_run_extend(creation, events, 7, id);
    lemma_run_extend(creation, events, 8, id);
    lemma_run_extend(creation, events, 9, id);
    lemma_run_extend(creation, events, 10, id);
    if drawable is HiddenWindowCreated {
        lemma_run_extend(creation, events, 11, id);
        assert(events.take(11) =~= events);
    } else {
        assert(events.take(10) =~= events);
    }
}

/// One more event is one more step.
proof fn lemma_run_extend(
    creation: ContextCreation,
    events: Seq<CreationEvent>,
    n: int,
    next_context_id: ContextID,
)
    requires
        0 < n <= events.len(),
    ensures
        ({
            let (before, next) = creation.run_spec(events.take(n - 1), next_context_id);
            creation.run_spec(events.take(n), next_context_id) == (
                before.step_spec(events[n - 1], next),
                before.next_identity_spec(events[n - 1], next),
            )
        }),
{
    assert(events.take(n).drop_last() =~= events.take(n - 1));
}

} // verus!
