//! The size and sampling of a render target.

use vstd::prelude::*;

verus! {

/// How the samples of one texel are laid out.
#[derive(Clone, Copy, Debug, PartialEq, Eq, Structural)]
pub enum AaMode {
    /// No multisampling.
    Single,
    /// Multisampling, with the number of samples.
    Multi(u8),
    /// Coverage sampling, with the number of samples and of stored fragments.
    Coverage(u8, u8),
}

impl AaMode {
    /// The mode that a sample count stands for: 0 means that the target is
    /// not multisampled, and every other count is kept as it is, so that two
    /// counts stand for the same mode only if they are the same count.
    pub open spec fn of_samples(samples: u8) -> AaMode {
        if samples == 0 {
            AaMode::Single
        } else {
            AaMode::Multi(samples)
        }
    }
}

/// Width, height, depth and sampling of a render target. Two values are equal
/// when all four fields are.
#[derive(Clone, Copy, Debug, PartialEq, Eq, Structural)]
pub struct Dimensions {
    pub width: u16,
    pub height: u16,
    pub depth: u16,
    pub aa: AaMode,
}

/// The largest width or height that a render target can have.
pub const MAX_SIZE: u16 = 0xffff;

/// A pixel count as a target size: counts beyond `MAX_SIZE` become `MAX_SIZE`.
pub open spec fn target_size(pixels: u32) -> u16 {
    if pixels > MAX_SIZE {
        MAX_SIZE
    } else {
        pixels as u16
    }
}

/// The sample count of a pixel format: 0 where multisampling is off, else the
/// low eight bits of the level.
pub open spec fn sample_count(multisampling: Option<u16>) -> u8 {
    match multisampling {
        Some(level) => (level % 0x100) as u8,
        None => 0,
    }
}

/// The dimensions of the main render targets of a window with the given
/// physical size and multisampling level.
pub open spec fn dimensions_of_window(width: u32, height: u32, multisampling: Option<u16>) -> Dimensions {
    Dimensions {
        width: target_size(width),
        height: target_size(height),
        depth: 1,
        aa: AaMode::of_samples(sample_count(multisampling)),
    }
}

fn narrow_size(pixels: u32) -> (size: u16)
    ensures
        size == target_size(pixels),
{
    if pixels > 0xffff {
        MAX_SIZE
    } else {
        pixels as u16
    }
}

/// Computes the dimensions of a window's main render targets from what the
/// window reports: its physical size in pixels and the multisampling level of
/// its pixel format (`None` where multisampling is off).
pub fn window_dimensions(width: u32, height: u32, multisampling: Option<u16>) -> (dimensions: Dimensions)
    ensures
        dimensions == dimensions_of_window(width, height, multisampling),
        dimensions.depth == 1,
{
    let samples: u8 = match multisampling {
        Some(level) => (level % 0x100) as u8,
        None => 0,
    };
    let aa = if samples == 0 {
        AaMode::Single
    } else {
        AaMode::Multi(samples)
    };
    Dimensions { width: narrow_size(width), height: narrow_size(height), depth: 1, aa }
}

/// Two sample counts stand for the same sampling mode only if they are equal.
pub proof fn lemma_sample_counts_tell_modes_apart(a: u8, b: u8)
    ensures
        AaMode::of_samples(a) == AaMode::of_samples(b) <==> a == b,
{
}

/// Two windows have the same dimensions exactly when they have the same
/// width and height, as far as a target can hold them, and the same sample
/// count. So a window with one sample differs from one without multisampling.
pub proof fn lemma_window_dimensions_tell_windows_apart(
    width: u32,
    height: u32,
    multisampling: Option<u16>,
    other_width: u32,
    other_height: u32,
    other_multisampling: Option<u16>,
)
    ensures
        dimensions_of_window(width, height, multisampling) == dimensions_of_window(
            other_width,
            other_height,
            other_multisampling,
        ) <==> (target_size(width) == target_size(other_width) && target_size(height)
            == target_size(other_height) && sample_count(multisampling) == sample_count(
            other_multisampling,
        )),
        dimensions_of_window(width, height, Some(1)) != dimensions_of_window(width, height, None),
{
}

/// Two dimensions are equal exactly when their four fields are pairwise equal.
pub proof fn lemma_dimensions_equal_by_fields(a: Dimensions, b: Dimensions)
    ensures
        a == b <==> (a.width == b.width && a.height == b.height && a.depth == b.depth && a.aa
            == b.aa),
{
}

} // verus!
