//! Contexts and the drawable they render to.
//!
//! A context renders to nothing, to a drawable that the caller owns, or to a
//! surface that the library manages. The operations here are the only way
//! from one of these states to another, so a surface is never held by two
//! contexts and never lost.

use vstd::prelude::*;
use crate::device::{Device, HiddenWindow};
use crate::error::Error;
use crate::guard::{CurrentContextGuard, CurrentContextSnapshot};
use crate::surface::{Surface, Win32Objects};
use crate::types::{ContextID, GLVersion};

verus! {

/// A negotiated pixel format together with the API version asked for. One
/// descriptor can serve any number of context creations.
#[derive(Clone, Copy, Debug, PartialEq, Eq, Structural)]
pub struct ContextDescriptor {
    pub pixel_format: i32,
    pub gl_version: GLVersion,
}

/// What a context renders to.
#[derive(Debug, PartialEq, Eq)]
pub enum Framebuffer {
    /// Nothing is attached.
    Empty,
    /// A drawable of the caller's. The context never destroys it and never
    /// swaps it.
    ExternalDrawable { dc: usize },
    /// A managed surface, owned by the context while it is attached.
    OwnedSurface(Surface),
}

/// A native rendering context with its identity and its drawable.
#[derive(Debug, PartialEq, Eq)]
pub struct Context {
    pub id: ContextID,
    pub glrc: usize,
    pub hidden_window: Option<HiddenWindow>,
    pub framebuffer: Framebuffer,
}

/// The outcome of a surface replacement.
#[derive(Debug, PartialEq, Eq)]
pub struct SurfaceReplacement {
    /// The surface that was attached before; it is the caller's again.
    pub old_surface: Surface,
    /// Whether the context was current and has to be made current again,
    /// now that its drawable has changed.
    pub reactivate: bool,
}

/// Where the device context of a context's drawable comes from.
#[derive(Clone, Copy, Debug, PartialEq, Eq, Structural)]
pub enum ContextDC {
    /// The caller's drawable, used as it is and not released afterwards.
    External { dc: usize },
    /// The device context of the surface's window, to be released to that
    /// window after use.
    Window { window: usize },
    /// The device context of the hidden window that the context owns.
    HiddenWindow { window: usize },
}

/// The state in which a context is made current for a while.
#[derive(Debug, PartialEq, Eq)]
pub struct TemporaryActivation {
    /// Restores what was current before.
    pub guard: CurrentContextGuard,
    /// The drawable to activate the context on.
    pub drawable: ContextDC,
    /// The native context to activate.
    pub glrc: usize,
}

impl Framebuffer {
    pub fn is_empty(&self) -> (empty: bool)
        ensures
            empty == (*self is Empty),
    {
        match self {
            Framebuffer::Empty => true,
            _ => false,
        }
    }
}

impl Context {
    /// A context that renders to nothing yet.
    pub fn new(id: ContextID, glrc: usize, hidden_window: Option<HiddenWindow>) -> (context: Context)
        ensures
            context == (Context { id, glrc, hidden_window, framebuffer: Framebuffer::Empty }),
    {
        Context { id, glrc, hidden_window, framebuffer: Framebuffer::Empty }
    }

    /// Every surface that the context holds was created for it.
    pub open spec fn holds_own_surface(self) -> bool {
        self.framebuffer matches Framebuffer::OwnedSurface(surface) ==> surface.context_id
            == self.id
    }

    /// The context is the one that is current in `current`.
    pub open spec fn is_current_spec(self, current: CurrentContextSnapshot) -> bool {
        current.glrc == self.glrc
    }

    /// The source of the device context of the context's drawable, where it
    /// has one.
    pub open spec fn dc_spec(self) -> Option<ContextDC> {
        match self.framebuffer {
            Framebuffer::Empty => None,
            Framebuffer::ExternalDrawable { dc } => Some(ContextDC::External { dc }),
            Framebuffer::OwnedSurface(surface) => match surface.win32_objects {
                Win32Objects::Window { window } => Some(ContextDC::Window { window }),
                Win32Objects::Texture { .. } => match self.hidden_window {
                    Some(hidden_window) => Some(
                        ContextDC::HiddenWindow { window: hidden_window.window },
                    ),
                    None => None,
                },
            },
        }
    }
}

impl Device {
    /// Whether `context` is the context that is current in `current`.
    pub fn context_is_current(&self, context: &Context, current: CurrentContextSnapshot) -> (is_current: bool)
        ensures
            is_current == context.is_current_spec(current),
    {
        current.glrc == context.glrc
    }

    /// Attaches `surface` to a context that renders to nothing.
    ///
    /// To attach to a context that has a drawable already is a programming
    /// error; [`Device::try_attach_surface`] tells the two cases apart. The
    /// identity of the surface is not looked at here: it is the caller who
    /// creates the first surface of a context for that context, and
    /// [`Device::replace_context_surface`] that compares from then on.
    pub fn attach_surface(&self, context: &mut Context, surface: Surface)
        requires
            old(context).framebuffer is Empty,
        ensures
            *final(context) == (Context {
                framebuffer: Framebuffer::OwnedSurface(surface),
                ..*old(context)
            }),
    {
        context.framebuffer = Framebuffer::OwnedSurface(surface);
    }

    /// Attaches `surface` if the context renders to nothing, and hands it
    /// back untouched if the context has a drawable already, whether a
    /// managed surface or a drawable of the caller's.
    pub fn try_attach_surface(&self, context: &mut Context, surface: Surface) -> (refused: Option<
        Surface,
    >)
        ensures
            old(context).framebuffer is Empty ==> refused is None && *final(context) == (Context {
                framebuffer: Framebuffer::OwnedSurface(surface),
                ..*old(context)
            }),
            old(context).framebuffer !is Empty ==> refused == Some(surface) && *final(context)
                == *old(context),
    {
        if context.framebuffer.is_empty() {
            self.attach_surface(context, surface);
            None
        } else {
            Some(surface)
        }
    }

    /// Makes a drawable of the caller's the render target of a context that
    /// renders to nothing, and reports whether it did: a context that has a
    /// drawable already is left as it is.
    pub fn attach_external_drawable(&self, context: &mut Context, dc: usize) -> (attached: bool)
        ensures
            attached == (old(context).framebuffer is Empty),
            attached ==> *final(context) == (Context {
                framebuffer: Framebuffer::ExternalDrawable { dc },
                ..*old(context)
            }),
            !attached ==> *final(context) == *old(context),
    {
        if context.framebuffer.is_empty() {
            context.framebuffer = Framebuffer::ExternalDrawable { dc };
            true
        } else {
            false
        }
    }

    /// Detaches the managed surface of a context and hands it out. A context
    /// without one is left as it is.
    pub fn release_surface(&self, context: &mut Context) -> (released: Option<Surface>)
        ensures
            old(context).framebuffer matches Framebuffer::OwnedSurface(surface) ==> released
                == Some(surface) && *final(context) == (Context {
                framebuffer: Framebuffer::Empty,
                ..*old(context)
            }),
            old(context).framebuffer !is OwnedSurface ==> released is None && *final(context)
                == *old(context),
    {
        if let Framebuffer::OwnedSurface(_) = context.framebuffer {
            let mut framebuffer = Framebuffer::Empty;
            core::mem::swap(&mut context.framebuffer, &mut framebuffer);
            match framebuffer {
                Framebuffer::OwnedSurface(surface) => Some(surface),
                _ => None,
            }
        } else {
            None
        }
    }

    /// Swaps the managed surface of a context for `new_surface`.
    ///
    /// A context on a drawable of the caller's refuses with
    /// `ExternalRenderTarget`; otherwise a surface that was created for
    /// another context is refused with `IncompatibleSurface`. In both cases
    /// the context is left as it is. Otherwise the old surface goes back to
    /// the caller, and the context has to be made current again if it is the
    /// current one in `current`, because its drawable has changed.
    ///
    /// To replace the surface of a context that has none is a programming
    /// error.
    pub fn replace_context_surface(
        &self,
        context: &mut Context,
        new_surface: Surface,
        current: CurrentContextSnapshot,
    ) -> (result: Result<SurfaceReplacement, Error>)
        requires
            old(context).framebuffer is Empty ==> old(context).id != new_surface.context_id,
        ensures
            old(context).framebuffer is ExternalDrawable ==> result == Err::<
                SurfaceReplacement,
                Error,
            >(Error::ExternalRenderTarget) && *final(context) == *old(context),
            old(context).framebuffer !is ExternalDrawable && old(context).id
                != new_surface.context_id ==> result == Err::<SurfaceReplacement, Error>(
                Error::IncompatibleSurface,
            ) && *final(context) == *old(context),
            result is Ok ==> final(context).holds_own_surface(),
            old(context).framebuffer is OwnedSurface && old(context).id
                == new_surface.context_id ==> result == Ok::<SurfaceReplacement, Error>(
                SurfaceReplacement {
                    old_surface: old(context).framebuffer->OwnedSurface_0,
                    reactivate: old(context).is_current_spec(current),
                },
            ) && *final(context) == (Context {
                framebuffer: Framebuffer::OwnedSurface(new_surface),
                ..*old(context)
            }),
    {
        if let Framebuffer::ExternalDrawable { .. } = context.framebuffer {
            return Err(Error::ExternalRenderTarget);
        }
        if context.id.0 != new_surface.context_id.0 {
            return Err(Error::IncompatibleSurface);
        }
        let is_current = self.context_is_current(context, current);
        let old_surface = self.release_surface(context).unwrap();
        self.attach_surface(context, new_surface);
        Ok(SurfaceReplacement { old_surface, reactivate: is_current })
    }

    /// Says where the device context of a context's drawable comes from.
    ///
    /// The context must have a drawable, and a context whose surface is a
    /// texture must own a hidden window.
    pub fn get_context_dc(&self, context: &Context) -> (source: ContextDC)
        requires
            context.dc_spec() is Some,
        ensures
            Some(source) == context.dc_spec(),
    {
        self.try_get_context_dc(context).unwrap()
    }

    /// The source of the device context of a context's drawable, or nothing
    /// where [`Device::get_context_dc`] has no answer.
    pub fn try_get_context_dc(&self, context: &Context) -> (source: Option<ContextDC>)
        ensures
            source == context.dc_spec(),
    {
        match &context.framebuffer {
            Framebuffer::Empty => None,
            Framebuffer::ExternalDrawable { dc } => Some(ContextDC::External { dc: *dc }),
            Framebuffer::OwnedSurface(surface) => match &surface.win32_objects {
                Win32Objects::Window { window } => Some(ContextDC::Window { window: *window }),
                Win32Objects::Texture { .. } => match &context.hidden_window {
                    Some(hidden_window) => Some(
                        ContextDC::HiddenWindow { window: hidden_window.window },
                    ),
                    None => None,
                },
            },
        }
    }

    /// Prepares to make `context` current for a while: the guard remembers
    /// the pair that is current now, and the rest names what to activate.
    pub fn temporarily_make_context_current(
        &self,
        context: &Context,
        current: CurrentContextSnapshot,
    ) -> (activation: TemporaryActivation)
        requires
            context.dc_spec() is Some,
        ensures
            activation.guard == CurrentContextGuard::new_spec(current),
            Some(activation.drawable) == context.dc_spec(),
            activation.glrc == context.glrc,
    {
        let guard = CurrentContextGuard::new(current);
        let drawable = self.get_context_dc(context);
        TemporaryActivation { guard, drawable, glrc: context.glrc }
    }
}

} // verus!
