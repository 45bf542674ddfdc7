//! What a pair of formats asks of the context that is created for them.

use vstd::prelude::*;

verus! {

#[verifier::external_type_specification]
#[verifier::external_body]
pub struct ExFormat(gfx_core::format::Format);

/// How the channels of a surface are read.
#[derive(Clone, Copy, Debug, PartialEq, Eq, Structural)]
pub enum ChannelType {
    Int,
    Uint,
    Inorm,
    Unorm,
    Float,
    Srgb,
}

/// A run-time format: a surface layout together with the encoding of its
/// channels, as gfx_core describes it.
#[derive(Clone, Copy, Debug)]
pub struct FormatDescriptor {
    pub raw: gfx_core::format::Format,
}

/// The bits that one texel of the format's surface takes: what
/// `SurfaceType::get_total_bits` of gfx_core answers for it.
pub uninterp spec fn format_total_bits(format: FormatDescriptor) -> u8;

/// The bits of one texel that hold alpha, or stencil in a depth-stencil
/// surface: what `SurfaceType::get_alpha_stencil_bits` of gfx_core answers.
pub uninterp spec fn format_alpha_stencil_bits(format: FormatDescriptor) -> u8;

/// The encoding of the format's channels: the variant of gfx_core's
/// `ChannelType` that the format carries.
pub uninterp spec fn format_channel(format: FormatDescriptor) -> ChannelType;

/// The surface layout of the format: the position of its variant among
/// those of gfx_core's `SurfaceType`.
pub uninterp spec fn format_surface(format: FormatDescriptor) -> u8;

/// The parameters that a context is created with.
#[derive(Clone, Copy, Debug, PartialEq, Eq, Structural)]
pub struct PixelFormatRequest {
    /// Bits of the colour buffer, alpha left out.
    pub color_bits: u8,
    /// Alpha bits of the colour buffer.
    pub alpha_bits: u8,
    /// Bits of the depth buffer.
    pub depth_bits: u8,
    /// Bits of the stencil buffer.
    pub stencil_bits: u8,
    /// Whether the framebuffer is to be sRGB-capable.
    pub srgb: bool,
}

/// The request for a colour surface of `color_total` bits, `alpha` of them
/// alpha, with channels read as `channel`, and a depth-stencil surface of
/// `depth_total` bits, `stencil` of them stencil.
pub open spec fn request_for(
    color_total: u8,
    alpha: u8,
    channel: ChannelType,
    depth_total: u8,
    stencil: u8,
) -> PixelFormatRequest
    recommends
        alpha <= color_total,
        stencil <= depth_total,
{
    PixelFormatRequest {
        color_bits: (color_total - alpha) as u8,
        alpha_bits: alpha,
        depth_bits: (depth_total - stencil) as u8,
        stencil_bits: stencil,
        srgb: channel == ChannelType::Srgb,
    }
}

impl FormatDescriptor {
    /// Calls `SurfaceType::get_total_bits` of gfx_core on the format's
    /// surface. Trusted: the answer depends on the surface alone.
    #[verifier::external_body]
    fn total_bits(&self) -> (bits: u8)
        ensures
            bits == format_total_bits(*self),
    {
        self.raw.0.get_total_bits()
    }

    /// Calls `SurfaceType::get_alpha_stencil_bits` of gfx_core on the format's
    /// surface. Trusted: the answer depends on the surface alone, and for no
    /// surface is it more than the surface's total bits.
    #[verifier::external_body]
    fn alpha_stencil_bits(&self) -> (bits: u8)
        ensures
            bits == format_alpha_stencil_bits(*self),
            bits <= format_total_bits(*self),
    {
        self.raw.0.get_alpha_stencil_bits()
    }

    /// Tells the variants of gfx_core's `ChannelType` apart. Trusted: the
    /// answer is the variant of the same name.
    #[verifier::external_body]
    fn channel(&self) -> (channel: ChannelType)
        ensures
            channel == format_channel(*self),
    {
        match self.raw.1 {
            gfx_core::format::ChannelType::Int => ChannelType::Int,
            gfx_core::format::ChannelType::Uint => ChannelType::Uint,
            gfx_core::format::ChannelType::Inorm => ChannelType::Inorm,
            gfx_core::format::ChannelType::Unorm => ChannelType::Unorm,
            gfx_core::format::ChannelType::Float => ChannelType::Float,
            gfx_core::format::ChannelType::Srgb => ChannelType::Srgb,
        }
    }

    /// Reads the variant of gfx_core's `SurfaceType` that the format carries,
    /// as its position among the variants. Trusted: the answer depends on
    /// the surface alone.
    #[verifier::external_body]
    fn surface_position(&self) -> (surface: u8)
        ensures
            surface == format_surface(*self),
    {
        self.raw.0 as u8
    }

    /// The surface layout of the format, as the position of its variant.
    pub fn surface(&self) -> (surface: u8)
        ensures
            surface == format_surface(*self),
    {
        self.surface_position()
    }

    /// Wraps a format of gfx_core.
    pub fn new(raw: gfx_core::format::Format) -> (format: FormatDescriptor)
        ensures
            format.raw == raw,
    {
        FormatDescriptor { raw }
    }
}

/// Splits the bits of a colour surface and of a depth-stencil surface, given
/// as numbers: the colour buffer gets what is left of the colour surface
/// without its alpha bits, the depth buffer what is left of the depth-stencil
/// surface without its stencil bits, and sRGB is asked for exactly when the
/// colour channels are read as sRGB.
pub fn negotiate_bits(
    color_total: u8,
    alpha: u8,
    channel: ChannelType,
    depth_total: u8,
    stencil: u8,
) -> (request: PixelFormatRequest)
    requires
        alpha <= color_total,
        stencil <= depth_total,
    ensures
        request == request_for(color_total, alpha, channel, depth_total, stencil),
        request.color_bits == color_total - alpha,
        request.alpha_bits == alpha,
        request.depth_bits == depth_total - stencil,
        request.stencil_bits == stencil,
        request.srgb <==> channel == ChannelType::Srgb,
{
    PixelFormatRequest {
        color_bits: color_total - alpha,
        alpha_bits: alpha,
        depth_bits: depth_total - stencil,
        stencil_bits: stencil,
        srgb: channel == ChannelType::Srgb,
    }
}

/// Computes what to ask of a new context so that its framebuffer matches the
/// colour format and the depth-stencil format of the main render targets.
pub fn negotiate(color_format: &FormatDescriptor, ds_format: &FormatDescriptor) -> (request:
    PixelFormatRequest)
    ensures
        request == request_for(
            format_total_bits(*color_format),
            format_alpha_stencil_bits(*color_format),
            format_channel(*color_format),
            format_total_bits(*ds_format),
            format_alpha_stencil_bits(*ds_format),
        ),
        request.color_bits + request.alpha_bits == format_total_bits(*color_format),
        request.alpha_bits == format_alpha_stencil_bits(*color_format),
        request.depth_bits + request.stencil_bits == format_total_bits(*ds_format),
        request.stencil_bits == format_alpha_stencil_bits(*ds_format),
        request.srgb <==> format_channel(*color_format) == ChannelType::Srgb,
{
    let color_total: u8 = color_format.total_bits();
    let alpha: u8 = color_format.alpha_stencil_bits();
    let depth_total: u8 = ds_format.total_bits();
    let stencil: u8 = ds_format.alpha_stencil_bits();
    negotiate_bits(color_total, alpha, color_format.channel(), depth_total, stencil)
}

/// The bits of a request add up to the bits of the surfaces it was made for:
/// colour and alpha to the colour surface, depth and stencil to the
/// depth-stencil surface, with alpha and stencil as given. sRGB is asked for
/// exactly for the sRGB encoding.
pub proof fn lemma_request_splits_bits(
    color_total: u8,
    alpha: u8,
    channel: ChannelType,
    depth_total: u8,
    stencil: u8,
)
    requires
        alpha <= color_total,
        stencil <= depth_total,
    ensures
        ({
            let request = request_for(color_total, alpha, channel, depth_total, stencil);
            &&& request.color_bits == color_total - alpha
            &&& request.alpha_bits == alpha
            &&& request.color_bits + request.alpha_bits == color_total
            &&& request.depth_bits == depth_total - stencil
            &&& request.stencil_bits == stencil
            &&& request.depth_bits + request.stencil_bits == depth_total
            &&& request.srgb <==> channel == ChannelType::Srgb
        }),
{
}

} // verus!
