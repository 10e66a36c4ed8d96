//! Pixel formats of the rendered output.
use vstd::prelude::*;

verus! {

/// Channel layout, bit depth and colour-space encoding of the pixels a
/// renderer produces.
#[derive(Clone, Copy, Debug, PartialEq, Eq, Structural)]
pub enum TextureFormat {
    /// 8 bits per channel, blue/green/red/alpha order, linear encoding.
    Bgra8Unorm,
    /// 8 bits per channel, blue/green/red/alpha order, sRGB ("gamma
    /// corrected") encoding.
    Bgra8UnormSrgb,
    /// 8 bits per channel, red/green/blue/alpha order, linear encoding.
    Rgba8Unorm,
    /// 8 bits per channel, red/green/blue/alpha order, sRGB ("gamma
    /// corrected") encoding.
    Rgba8UnormSrgb,
}

} // verus!
