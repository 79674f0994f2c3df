//! Negotiation of a pixel format.
//!
//! The caller says which optional buffers it wants; the driver is asked for
//! one matching pixel format; its reply becomes a descriptor or an error.
//! Some choices are fixed: the format draws to a window, supports OpenGL, is
//! double-buffered, fully accelerated and has 32 colour bits. An optional
//! buffer is either absent or has one fixed width.

use vstd::prelude::*;
use crate::context::ContextDescriptor;
use crate::device::Device;
use crate::error::{Error, WindowingApiError};
use crate::types::{ContextAttributeFlags, ContextAttributes};

verus! {

pub const WGL_DRAW_TO_WINDOW_ARB: i32 = 0x2001;

pub const WGL_ACCELERATION_ARB: i32 = 0x2003;

pub const WGL_SUPPORT_OPENGL_ARB: i32 = 0x2010;

pub const WGL_DOUBLE_BUFFER_ARB: i32 = 0x2011;

pub const WGL_PIXEL_TYPE_ARB: i32 = 0x2013;

pub const WGL_COLOR_BITS_ARB: i32 = 0x2014;

pub const WGL_ALPHA_BITS_ARB: i32 = 0x201b;

pub const WGL_DEPTH_BITS_ARB: i32 = 0x2022;

pub const WGL_STENCIL_BITS_ARB: i32 = 0x2023;

pub const WGL_FULL_ACCELERATION_ARB: i32 = 0x2027;

pub const WGL_TYPE_RGBA_ARB: i32 = 0x202b;

/// The value that switches a boolean attribute on.
pub const GL_TRUE: i32 = 1;

/// Colour bits of every format asked for.
pub const COLOR_BITS: i32 = 32;

/// Width of the alpha buffer where one is asked for.
pub const ALPHA_BITS: i32 = 8;

/// Width of the depth buffer where one is asked for.
pub const DEPTH_BITS: i32 = 24;

/// Width of the stencil buffer where one is asked for.
pub const STENCIL_BITS: i32 = 8;

/// The status with which a native call reports failure.
pub const FALSE: i32 = 0;

/// The width asked for a buffer: `bits` if it is wanted, none otherwise.
pub open spec fn width_spec(wanted: bool, bits: i32) -> i32 {
    if wanted {
        bits
    } else {
        0
    }
}

/// The attribute list of a pixel-format request: pairs of attribute and
/// value, closed by a zero.
pub open spec fn pixel_format_attributes_spec(flags: ContextAttributeFlags) -> Seq<i32> {
    seq![
        WGL_DRAW_TO_WINDOW_ARB,
        GL_TRUE,
        WGL_SUPPORT_OPENGL_ARB,
        GL_TRUE,
        WGL_DOUBLE_BUFFER_ARB,
        GL_TRUE,
        WGL_PIXEL_TYPE_ARB,
        WGL_TYPE_RGBA_ARB,
        WGL_ACCELERATION_ARB,
        WGL_FULL_ACCELERATION_ARB,
        WGL_COLOR_BITS_ARB,
        COLOR_BITS,
        WGL_ALPHA_BITS_ARB,
        width_spec(flags.alpha, ALPHA_BITS),
        WGL_DEPTH_BITS_ARB,
        width_spec(flags.depth, DEPTH_BITS),
        WGL_STENCIL_BITS_ARB,
        width_spec(flags.stencil, STENCIL_BITS),
        0,
    ]
}

pub fn pixel_format_attributes(flags: ContextAttributeFlags) -> (list: [i32; 19])
    ensures
        list@ == pixel_format_attributes_spec(flags),
{
    let alpha_bits: i32 = if flags.alpha { ALPHA_BITS } else { 0 };
    let depth_bits: i32 = if flags.depth { DEPTH_BITS } else { 0 };
    let stencil_bits: i32 = if flags.stencil { STENCIL_BITS } else { 0 };
    let list: [i32; 19] = [
        WGL_DRAW_TO_WINDOW_ARB,
        GL_TRUE,
        WGL_SUPPORT_OPENGL_ARB,
        GL_TRUE,
        WGL_DOUBLE_BUFFER_ARB,
        GL_TRUE,
        WGL_PIXEL_TYPE_ARB,
        WGL_TYPE_RGBA_ARB,
        WGL_ACCELERATION_ARB,
        WGL_FULL_ACCELERATION_ARB,
        WGL_COLOR_BITS_ARB,
        COLOR_BITS,
        WGL_ALPHA_BITS_ARB,
        alpha_bits,
        WGL_DEPTH_BITS_ARB,
        depth_bits,
        WGL_STENCIL_BITS_ARB,
        stencil_bits,
        0,
    ];
    assert(list@ =~= pixel_format_attributes_spec(flags));
    list
}

/// What the caller asks of the driver to have one pixel format chosen.
#[derive(Clone, Copy, Debug, PartialEq, Eq)]
pub struct PixelFormatQuery {
    /// The address of the selection entry point.
    pub choose_pixel_format_arb: usize,
    /// The hidden window on whose device context the formats are matched.
    pub window: usize,
    /// The integer attribute list; there is no floating-point list.
    pub attributes: [i32; 19],
    /// How many formats the driver may return.
    pub max_formats: u32,
}

/// What the driver answered to a [`PixelFormatQuery`].
#[derive(Clone, Copy, Debug, PartialEq, Eq, Structural)]
pub struct PixelFormatReply {
    /// The status of the call.
    pub status: i32,
    /// The first format returned.
    pub pixel_format: i32,
    /// How many formats matched.
    pub pixel_format_count: u32,
}

/// What the caller asks of the driver to learn the widths of the optional
/// buffers of an existing pixel format.
#[derive(Clone, Copy, Debug, PartialEq, Eq)]
pub struct PixelFormatBitsQuery {
    /// The address of the attribute entry point.
    pub get_pixel_format_attribiv_arb: usize,
    /// The hidden window on whose device context the format is looked up.
    pub window: usize,
    /// The pixel format to look up, on the main plane.
    pub pixel_format: i32,
    /// The attributes to report, in the order of [`PixelFormatBits`].
    pub attributes: [i32; 3],
}

/// The bit widths that the driver reports of an existing pixel format.
#[derive(Clone, Copy, Debug, PartialEq, Eq, Structural)]
pub struct PixelFormatBits {
    pub alpha_bits: i32,
    pub depth_bits: i32,
    pub stencil_bits: i32,
}

impl PixelFormatBits {
    /// The widths of the format that is asked for on behalf of `flags`.
    pub open spec fn requested_spec(flags: ContextAttributeFlags) -> PixelFormatBits {
        PixelFormatBits {
            alpha_bits: width_spec(flags.alpha, ALPHA_BITS),
            depth_bits: width_spec(flags.depth, DEPTH_BITS),
            stencil_bits: width_spec(flags.stencil, STENCIL_BITS),
        }
    }

    /// The buffers that a format with these widths has.
    pub open spec fn flags_spec(self) -> ContextAttributeFlags {
        ContextAttributeFlags {
            alpha: self.alpha_bits > 0,
            depth: self.depth_bits > 0,
            stencil: self.stencil_bits > 0,
        }
    }
}

impl Device {
    /// The descriptor or the error that the driver's reply amounts to.
    pub open spec fn create_context_descriptor_spec(
        self,
        attributes: ContextAttributes,
        reply: PixelFormatReply,
    ) -> Result<ContextDescriptor, Error> {
        if self.extensions.pixel_format_functions is None {
            Err(Error::RequiredExtensionUnavailable)
        } else if reply.status == FALSE {
            Err(Error::PixelFormatSelectionFailed(WindowingApiError::Failed))
        } else if reply.pixel_format_count == 0 {
            Err(Error::NoPixelFormatFound)
        } else {
            Ok(
                ContextDescriptor {
                    pixel_format: reply.pixel_format,
                    gl_version: attributes.version,
                },
            )
        }
    }

    /// Prepares the request for one pixel format that matches `attributes`.
    ///
    /// Fails with `RequiredExtensionUnavailable`, before the driver is
    /// asked anything, exactly if extended pixel-format enumeration was not
    /// resolved.
    pub fn pixel_format_query(&self, attributes: &ContextAttributes) -> (query: Result<
        PixelFormatQuery,
        Error,
    >)
        ensures
            self.extensions.pixel_format_functions is None ==> query == Err::<
                PixelFormatQuery,
                Error,
            >(Error::RequiredExtensionUnavailable),
            self.extensions.pixel_format_functions matches Some(functions) ==> {
                &&& query matches Ok(q)
                &&& q.choose_pixel_format_arb == functions.choose_pixel_format_arb
                &&& q.window == self.hidden_window.window
                &&& q.attributes@ == pixel_format_attributes_spec(attributes.flags)
                &&& q.max_formats == 1
            },
    {
        match self.extensions.pixel_format_functions {
            None => Err(Error::RequiredExtensionUnavailable),
            Some(functions) => Ok(
                PixelFormatQuery {
                    choose_pixel_format_arb: functions.choose_pixel_format_arb,
                    window: self.hidden_window.window,
                    attributes: pixel_format_attributes(attributes.flags),
                    max_formats: 1,
                },
            ),
        }
    }

    /// Turns the driver's reply to the query for `attributes` into a
    /// descriptor.
    ///
    /// Fails with `RequiredExtensionUnavailable` if extended pixel-format
    /// enumeration was not resolved, else with `PixelFormatSelectionFailed`
    /// if the call itself failed, else with `NoPixelFormatFound` if no
    /// format matched. The descriptor takes the version as it was asked for:
    /// whether the driver has it shows when a context is created.
    pub fn create_context_descriptor(
        &self,
        attributes: &ContextAttributes,
        reply: PixelFormatReply,
    ) -> (descriptor: Result<ContextDescriptor, Error>)
        ensures
            descriptor == self.create_context_descriptor_spec(*attributes, reply),
    {
        if self.extensions.pixel_format_functions.is_none() {
            return Err(Error::RequiredExtensionUnavailable);
        }
        if reply.status == FALSE {
            return Err(Error::PixelFormatSelectionFailed(WindowingApiError::Failed));
        }
        if reply.pixel_format_count == 0 {
            return Err(Error::NoPixelFormatFound);
        }
        Ok(ContextDescriptor { pixel_format: reply.pixel_format, gl_version: attributes.version })
    }

    /// Prepares the request for the widths of the optional buffers of a
    /// descriptor's pixel format.
    ///
    /// Fails with `RequiredExtensionUnavailable` exactly if extended
    /// pixel-format enumeration was not resolved.
    pub fn pixel_format_bits_query(&self, context_descriptor: &ContextDescriptor) -> (query:
        Result<PixelFormatBitsQuery, Error>)
        ensures
            self.extensions.pixel_format_functions is None ==> query == Err::<
                PixelFormatBitsQuery,
                Error,
            >(Error::RequiredExtensionUnavailable),
            self.extensions.pixel_format_functions matches Some(functions) ==> {
                &&& query matches Ok(q)
                &&& q.get_pixel_format_attribiv_arb == functions.get_pixel_format_attribiv_arb
                &&& q.window == self.hidden_window.window
                &&& q.pixel_format == context_descriptor.pixel_format
                &&& q.attributes@ == seq![
                    WGL_ALPHA_BITS_ARB,
                    WGL_DEPTH_BITS_ARB,
                    WGL_STENCIL_BITS_ARB,
                ]
            },
    {
        match self.extensions.pixel_format_functions {
            None => Err(Error::RequiredExtensionUnavailable),
            Some(functions) => {
                let attributes: [i32; 3] = [
                    WGL_ALPHA_BITS_ARB,
                    WGL_DEPTH_BITS_ARB,
                    WGL_STENCIL_BITS_ARB,
                ];
                assert(attributes@ =~= seq![
                    WGL_ALPHA_BITS_ARB,
                    WGL_DEPTH_BITS_ARB,
                    WGL_STENCIL_BITS_ARB,
                ]);
                Ok(
                    PixelFormatBitsQuery {
                        get_pixel_format_attribiv_arb: functions.get_pixel_format_attribiv_arb,
                        window: self.hidden_window.window,
                        pixel_format: context_descriptor.pixel_format,
                        attributes,
                    },
                )
            },
        }
    }

    /// Reconstructs the attributes that a descriptor stands for from the
    /// widths that the driver reports of its pixel format: a buffer counts
    /// as present if it has any width.
    pub fn context_descriptor_attributes(
        &self,
        context_descriptor: &ContextDescriptor,
        bits: PixelFormatBits,
    ) -> (attributes: ContextAttributes)
        ensures
            attributes == (ContextAttributes {
                version: context_descriptor.gl_version,
                flags: bits.flags_spec(),
            }),
    {
        ContextAttributes {
            version: context_descriptor.gl_version,
            flags: ContextAttributeFlags {
                alpha: bits.alpha_bits > 0,
                depth: bits.depth_bits > 0,
                stencil: bits.stencil_bits > 0,
            },
        }
    }
}

/// A negotiated descriptor gives back the attributes it was negotiated
/// from, provided that the format which the driver chose has exactly the
/// widths that were asked for.
pub proof fn lemma_descriptor_round_trip(
    device: Device,
    attributes: ContextAttributes,
    reply: PixelFormatReply,
)
    requires
        device.create_context_descriptor_spec(attributes, reply) is Ok,
    ensures
        ({
            let descriptor = device.create_context_descriptor_spec(attributes, reply)->Ok_0;
            let bits = PixelFormatBits::requested_spec(attributes.flags);
            (ContextAttributes { version: descriptor.gl_version, flags: bits.flags_spec() })
                == attributes
        }),
{
}

} // verus!
