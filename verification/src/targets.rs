//! The colour view and the depth-stencil view of the main framebuffer, and
//! how they follow the size of the window.

use vstd::prelude::*;
use crate::dimensions::{AaMode, Dimensions};
use crate::format::{format_surface, FormatDescriptor};

verus! {

/// The view through which the colour attachment of the main framebuffer is
/// rendered to. It holds the handle of gfx_core, which carries the
/// dimensions that the view was made with.
///
/// The handle's type is generic over a trait of gfx_core that the verifier
/// cannot be told of, so the struct is opaque to it: what it knows of a view
/// is `render_target_dimensions`.
#[verifier::external_body]
#[derive(Debug)]
pub struct RenderTargetView {
    pub handle: gfx_core::handle::RawRenderTargetView<gfx_device_gl::Resources>,
}

/// The view of the depth-stencil attachment of the main framebuffer. Opaque
/// to the verifier as `RenderTargetView` is: what it knows of a view is
/// `depth_stencil_dimensions`.
#[verifier::external_body]
#[derive(Debug)]
pub struct DepthStencilView {
    pub handle: gfx_core::handle::RawDepthStencilView<gfx_device_gl::Resources>,
}

/// The dimensions that a colour view carries: what
/// `RawRenderTargetView::get_dimensions` of gfx_core answers for its handle.
pub uninterp spec fn render_target_dimensions(view: RenderTargetView) -> Dimensions;

/// The dimensions that a depth-stencil view carries: what
/// `RawDepthStencilView::get_dimensions` of gfx_core answers for its handle.
pub uninterp spec fn depth_stencil_dimensions(view: DepthStencilView) -> Dimensions;

/// The surface layout of the texture behind a colour view: the position,
/// among the variants of gfx_core's `SurfaceType`, of the format in the
/// texture's `Info`.
pub uninterp spec fn render_target_surface(view: RenderTargetView) -> u8;

/// The surface layout of the texture behind a depth-stencil view, as
/// `render_target_surface` gives it for a colour view.
pub uninterp spec fn depth_stencil_surface(view: DepthStencilView) -> u8;

/// Calls `RawRenderTargetView::get_dimensions` of gfx_core. Trusted: the
/// answer depends on the view alone.
#[verifier::external_body]
fn color_dimensions(view: &RenderTargetView) -> (dimensions: Dimensions)
    ensures
        dimensions == render_target_dimensions(*view),
{
    let (width, height, depth, aa) = view.handle.get_dimensions();
    let aa = match aa {
        gfx_core::texture::AaMode::Single => AaMode::Single,
        gfx_core::texture::AaMode::Multi(n) => AaMode::Multi(n),
        gfx_core::texture::AaMode::Coverage(n, f) => AaMode::Coverage(n, f),
    };
    Dimensions { width, height, depth, aa }
}

/// Calls `RawDepthStencilView::get_dimensions` of gfx_core. Trusted: the
/// answer depends on the view alone.
#[verifier::external_body]
fn ds_dimensions(view: &DepthStencilView) -> (dimensions: Dimensions)
    ensures
        dimensions == depth_stencil_dimensions(*view),
{
    let (width, height, depth, aa) = view.handle.get_dimensions();
    let aa = match aa {
        gfx_core::texture::AaMode::Single => AaMode::Single,
        gfx_core::texture::AaMode::Multi(n) => AaMode::Multi(n),
        gfx_core::texture::AaMode::Coverage(n, f) => AaMode::Coverage(n, f),
    };
    Dimensions { width, height, depth, aa }
}

/// Calls `RawRenderTargetView::get_texture` of gfx_core and reads the format
/// in the texture's `Info`. Trusted: the answer depends on the view alone.
#[verifier::external_body]
fn color_surface(view: &RenderTargetView) -> (surface: u8)
    ensures
        surface == render_target_surface(*view),
{
    view.handle.get_texture().get_info().format as u8
}

/// Calls `RawDepthStencilView::get_texture` of gfx_core and reads the format
/// in the texture's `Info`. Trusted: the answer depends on the view alone.
#[verifier::external_body]
fn ds_surface(view: &DepthStencilView) -> (surface: u8)
    ensures
        surface == depth_stencil_surface(*view),
{
    view.handle.get_texture().get_info().format as u8
}

/// Calls `create_main_targets_raw` of gfx_device_gl with the dimensions, the
/// surface of the colour format and the surface of the depth-stencil format,
/// in this order. Trusted: each of the two views it makes carries the
/// dimensions it was called with; the texture behind the first has the
/// surface of the colour format, the texture behind the second that of the
/// depth-stencil format.
#[verifier::external_body]
fn create_main_targets_raw(
    dimensions: Dimensions,
    color_format: &FormatDescriptor,
    ds_format: &FormatDescriptor,
) -> (views: (RenderTargetView, DepthStencilView))
    ensures
        render_target_dimensions(views.0) == dimensions,
        depth_stencil_dimensions(views.1) == dimensions,
        render_target_surface(views.0) == format_surface(*color_format),
        depth_stencil_surface(views.1) == format_surface(*ds_format),
{
    let aa = match dimensions.aa {
        AaMode::Single => gfx_core::texture::AaMode::Single,
        AaMode::Multi(n) => gfx_core::texture::AaMode::Multi(n),
        AaMode::Coverage(n, f) => gfx_core::texture::AaMode::Coverage(n, f),
    };
    let (color, ds) = gfx_device_gl::create_main_targets_raw(
        (dimensions.width, dimensions.height, dimensions.depth, aa),
        color_format.raw.0,
        ds_format.raw.0,
    );
    (RenderTargetView { handle: color }, DepthStencilView { handle: ds })
}

impl RenderTargetView {
    /// The dimensions that the view carries.
    pub open spec fn spec_dimensions(&self) -> Dimensions {
        render_target_dimensions(*self)
    }

    /// The dimensions that the view carries.
    #[verifier::when_used_as_spec(spec_dimensions)]
    pub fn dimensions(&self) -> (dimensions: Dimensions)
        ensures
            dimensions == self.spec_dimensions(),
    {
        color_dimensions(self)
    }

    /// The surface layout of the texture behind the view.
    pub fn surface(&self) -> (surface: u8)
        ensures
            surface == render_target_surface(*self),
    {
        color_surface(self)
    }
}

impl DepthStencilView {
    /// The dimensions that the view carries.
    pub open spec fn spec_dimensions(&self) -> Dimensions {
        depth_stencil_dimensions(*self)
    }

    /// The dimensions that the view carries.
    #[verifier::when_used_as_spec(spec_dimensions)]
    pub fn dimensions(&self) -> (dimensions: Dimensions)
        ensures
            dimensions == self.spec_dimensions(),
    {
        ds_dimensions(self)
    }

    /// The surface layout of the texture behind the view.
    pub fn surface(&self) -> (surface: u8)
        ensures
            surface == depth_stencil_surface(*self),
    {
        ds_surface(self)
    }
}

/// Whether both views of a pair carry the given dimensions.
pub open spec fn sized_to(views: (RenderTargetView, DepthStencilView), dimensions: Dimensions) -> bool {
    views.0.dimensions() == dimensions && views.1.dimensions() == dimensions
}

/// Whether a pair of views is what the allocator makes for the given
/// dimensions and formats: both views carry the dimensions, the colour view
/// stands on the surface of the colour format and the depth-stencil view on
/// the surface of the depth-stencil format.
pub open spec fn made_for(
    views: (RenderTargetView, DepthStencilView),
    dimensions: Dimensions,
    color_format: FormatDescriptor,
    ds_format: FormatDescriptor,
) -> bool {
    &&& sized_to(views, dimensions)
    &&& render_target_surface(views.0) == format_surface(color_format)
    &&& depth_stencil_surface(views.1) == format_surface(ds_format)
}

/// The two views of a pair that do not carry the same dimensions.
#[derive(Clone, Copy, Debug, PartialEq, Eq, Structural)]
pub struct DimensionsMismatch {
    /// The dimensions of the colour view.
    pub color: Dimensions,
    /// The dimensions of the depth-stencil view.
    pub depth_stencil: Dimensions,
}

/// Allocates the main render targets for a window of the given dimensions,
/// whatever views there were before.
pub fn new_views(
    window_dimensions: Dimensions,
    color_format: &FormatDescriptor,
    ds_format: &FormatDescriptor,
) -> (views: (RenderTargetView, DepthStencilView))
    ensures
        made_for(views, window_dimensions, *color_format, *ds_format),
{
    create_main_targets_raw(window_dimensions, color_format, ds_format)
}

/// Allocates new main render targets if the window no longer has the
/// dimensions `old_dimensions` that the present ones were made with, and
/// answers `None` if it still has them.
pub fn update_views_raw(
    window_dimensions: Dimensions,
    old_dimensions: Dimensions,
    color_format: &FormatDescriptor,
    ds_format: &FormatDescriptor,
) -> (views: Option<(RenderTargetView, DepthStencilView)>)
    ensures
        views is None <==> window_dimensions == old_dimensions,
        views is Some <==> (window_dimensions.width != old_dimensions.width
            || window_dimensions.height != old_dimensions.height || window_dimensions.depth
            != old_dimensions.depth || window_dimensions.aa != old_dimensions.aa),
        views matches Some(fresh) ==> made_for(fresh, window_dimensions, *color_format, *ds_format),
{
    if window_dimensions != old_dimensions {
        Some(create_main_targets_raw(window_dimensions, color_format, ds_format))
    } else {
        None
    }
}

/// Brings a pair of views up to the dimensions of the window: where the
/// window still has the dimensions of the views, both are left as they are;
/// where it has others, both are replaced by newly allocated views.
///
/// The two views must carry the same dimensions; `try_update_views` takes
/// any pair and tells when they do not.
pub fn update_views(
    window_dimensions: Dimensions,
    color_view: &mut RenderTargetView,
    ds_view: &mut DepthStencilView,
    color_format: &FormatDescriptor,
    ds_format: &FormatDescriptor,
)
    requires
        old(color_view).dimensions() == old(ds_view).dimensions(),
    ensures
        window_dimensions == old(color_view).dimensions() ==> *final(color_view) == *old(
            color_view,
        ) && *final(ds_view) == *old(ds_view),
        window_dimensions != old(color_view).dimensions() ==> made_for(
            (*final(color_view), *final(ds_view)),
            window_dimensions,
            *color_format,
            *ds_format,
        ),
        final(color_view).dimensions() == window_dimensions,
        final(ds_view).dimensions() == window_dimensions,
{
    let dimensions = color_view.dimensions();
    if let Some((fresh_color, fresh_ds)) = update_views_raw(
        window_dimensions,
        dimensions,
        color_format,
        ds_format,
    ) {
        *color_view = fresh_color;
        *ds_view = fresh_ds;
    }
}

/// Checks that the two views carry the same dimensions, and only then brings
/// them up to the dimensions of the window as `update_views` does.
///
/// A pair that does not agree is refused, whatever the dimensions of the
/// window are, even where one of the two views already has them: both views
/// are left as they are and the two dimensions are handed back. Otherwise
/// the answer tells whether the views were replaced.
pub fn try_update_views(
    window_dimensions: Dimensions,
    color_view: &mut RenderTargetView,
    ds_view: &mut DepthStencilView,
    color_format: &FormatDescriptor,
    ds_format: &FormatDescriptor,
) -> (outcome: Result<bool, DimensionsMismatch>)
    ensures
        outcome is Err <==> old(color_view).dimensions() != old(ds_view).dimensions(),
        outcome matches Err(mismatch) ==> {
            &&& mismatch.color == old(color_view).dimensions()
            &&& mismatch.depth_stencil == old(ds_view).dimensions()
            &&& *final(color_view) == *old(color_view)
            &&& *final(ds_view) == *old(ds_view)
        },
        outcome matches Ok(replaced) ==> {
            &&& replaced <==> window_dimensions != old(color_view).dimensions()
            &&& !replaced ==> *final(color_view) == *old(color_view) && *final(ds_view) == *old(
                ds_view,
            )
            &&& replaced ==> made_for(
                (*final(color_view), *final(ds_view)),
                window_dimensions,
                *color_format,
                *ds_format,
            )
            &&& final(color_view).dimensions() == window_dimensions
            &&& final(ds_view).dimensions() == window_dimensions
        },
{
    let color = color_view.dimensions();
    let depth_stencil = ds_view.dimensions();
    if color != depth_stencil {
        return Err(DimensionsMismatch { color, depth_stencil });
    }
    let replaced = window_dimensions != color;
    update_views(window_dimensions, color_view, ds_view, color_format, ds_format);
    Ok(replaced)
}

/// Allocating the targets twice for a window that was not resized in between
/// gives two pairs of views with the same dimensions.
pub proof fn lemma_new_views_idempotent(
    window_dimensions: Dimensions,
    first: (RenderTargetView, DepthStencilView),
    second: (RenderTargetView, DepthStencilView),
)
    requires
        sized_to(first, window_dimensions),
        sized_to(second, window_dimensions),
    ensures
        first.0.dimensions() == second.0.dimensions(),
        first.1.dimensions() == second.1.dimensions(),
        first.0.dimensions() == first.1.dimensions(),
{
}

} // verus!
