//! The plain-value vocabulary shared by every graphics backend: extents,
//! eyes, color spaces, texture bounds and the application's texture record.

use vstd::prelude::*;

verus! {

/// A two-dimensional pixel extent: the region a copy operation actually
/// wrote into a swapchain image.
#[derive(Clone, Copy, Debug, PartialEq, Eq, Structural)]
pub struct Extent {
    pub width: i32,
    pub height: i32,
}

impl Extent {
    /// True of the extent that covers no pixels at all.
    pub open spec fn is_zero(self) -> bool {
        self.width == 0 && self.height == 0
    }
}

impl Default for Extent {
    /// The zero extent: nothing was written.
    fn default() -> (extent: Extent)
        ensures
            extent.is_zero(),
    {
        Extent { width: 0, height: 0 }
    }
}

/// Which eye a stereo submission is for.
#[derive(Clone, Copy, Debug, PartialEq, Eq, Structural)]
pub enum Eye {
    Left,
    Right,
}

/// The color space the application declared for a submitted texture.
#[derive(Clone, Copy, Debug, PartialEq, Eq, Structural)]
pub enum ColorSpace {
    /// Let the compositor pick based on the texture's format.
    Auto,
    /// Gamma-encoded (sRGB-like) data.
    Gamma,
    /// Linear color data.
    Linear,
}

/// Submission flags that accompany an eye texture and are passed through to
/// the copy operation unchanged; the bridging layer gives no meaning to
/// individual bits.
#[derive(Clone, Copy, Debug, PartialEq, Eq, Structural)]
pub struct SubmitFlags {
    pub bits: u32,
}

/// The sub-rectangle of a submitted texture the application wants shown, in
/// normalized texture coordinates. Bounds flow through to the copy operation
/// uninterpreted, so each coordinate is carried as the raw bit pattern of
/// the submitted 32-bit value.
#[derive(Clone, Copy, Debug, PartialEq, Eq, Structural)]
pub struct TextureBounds {
    pub u_min_bits: u32,
    pub v_min_bits: u32,
    pub u_max_bits: u32,
    pub v_max_bits: u32,
}

/// One texture record as the application submits it through the source API:
/// the native graphics handle as an address value, together with the
/// declared color space. A handle of zero stands for the null handle — the
/// application had nothing to show for this frame.
#[derive(Clone, Copy, Debug, PartialEq, Eq, Structural)]
pub struct SourceTexture {
    pub handle: usize,
    pub color_space: ColorSpace,
}

impl SourceTexture {
    /// True when the record carries no texture at all.
    pub open spec fn is_null(self) -> bool {
        self.handle == 0
    }
}

} // verus!
