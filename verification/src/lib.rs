//! Render targets for a window with an OpenGL context.
//!
//! The window toolkit creates the window and reports its size; this library
//! decides what is asked of the toolkit and what is built from its answers:
//!
//! - [`format`] splits a colour format and a depth-stencil format into the bit
//!   counts and the sRGB flag that a context is created with;
//! - [`dimensions`] turns a window's pixel size and sample count into the
//!   [`Dimensions`] of its render targets;
//! - [`targets`] allocates the colour view and the depth-stencil view of the
//!   main framebuffer and replaces them when the window has been resized.

pub mod dimensions;
pub mod format;
pub mod targets;

pub use dimensions::{window_dimensions, AaMode, Dimensions};
pub use format::{negotiate, negotiate_bits, ChannelType, FormatDescriptor, PixelFormatRequest};
pub use targets::{
    new_views, try_update_views, update_views, update_views_raw, DepthStencilView,
    DimensionsMismatch, RenderTargetView,
};
