//! Pixel representations and the limits of their channels.

use vstd::prelude::*;

verus! {

/// Largest value of an 8-bit channel.
pub const MAX_CHANNEL8: u32 = 255;

/// Half of the 8-bit channel range, the rounding bias when dividing by it.
pub const HALF_CHANNEL8: u32 = 128;

/// Largest value of a 16-bit channel: the host uses 15 bits of dynamic range.
pub const MAX_CHANNEL16: u32 = 32768;

/// Half of the 16-bit channel range, the rounding bias when dividing by it.
pub const HALF_CHANNEL16: u32 = 16384;

/// An RGBA colour with 8-bit channels, each in `[0, 255]`.
#[derive(Clone, Copy, Debug, PartialEq, Eq, Structural)]
pub struct Pixel8 {
    pub alpha: u8,
    pub red: u8,
    pub green: u8,
    pub blue: u8,
}

/// An RGBA colour with 16-bit channels, nominally in `[0, 32768]`.
#[derive(Clone, Copy, Debug, PartialEq, Eq, Structural)]
pub struct Pixel16 {
    pub alpha: u16,
    pub red: u16,
    pub green: u16,
    pub blue: u16,
}

impl Pixel16 {
    /// All four channels lie within the 15-bit range of the representation.
    pub open spec fn in_range(self) -> bool {
        &&& self.alpha <= MAX_CHANNEL16
        &&& self.red <= MAX_CHANNEL16
        &&& self.green <= MAX_CHANNEL16
        &&& self.blue <= MAX_CHANNEL16
    }
}

/// The number of steps between zero and full scale of a fixed-point
/// channel: four decimal digits.
pub const FIXED_ONE: i32 = 10000;

/// An RGBA colour of the high-precision representation, held in fixed
/// point: a channel value `k` stands for `k / 10000`. The nominal range is
/// `[0, 10000]`, but values outside it are representable and accepted.
#[derive(Clone, Copy, Debug, PartialEq, Eq, Structural)]
pub struct PixelFixed {
    pub alpha: i32,
    pub red: i32,
    pub green: i32,
    pub blue: i32,
}

impl PixelFixed {
    /// All four channels lie within the nominal range.
    pub open spec fn in_range(self) -> bool {
        &&& 0 <= self.alpha <= FIXED_ONE
        &&& 0 <= self.red <= FIXED_ONE
        &&& 0 <= self.green <= FIXED_ONE
        &&& 0 <= self.blue <= FIXED_ONE
    }
}

/// A pixel in one of the three representations a frame can have.
#[derive(Clone, Copy, Debug, PartialEq, Eq, Structural)]
pub enum GenericPixel {
    Depth8(Pixel8),
    Depth16(Pixel16),
    Fixed(PixelFixed),
}

impl GenericPixel {
    /// Whether two pixels are of the same representation.
    pub open spec fn same_format(self, other: GenericPixel) -> bool {
        match (self, other) {
            (GenericPixel::Depth8(_), GenericPixel::Depth8(_)) => true,
            (GenericPixel::Depth16(_), GenericPixel::Depth16(_)) => true,
            (GenericPixel::Fixed(_), GenericPixel::Fixed(_)) => true,
            _ => false,
        }
    }
}

/// Why a pixel could not be rendered.
#[derive(Clone, Copy, Debug, PartialEq, Eq, Structural)]
pub enum RenderError {
    /// The input and the output pixel are of different representations.
    UnsupportedPixelFormat,
}

} // verus!
