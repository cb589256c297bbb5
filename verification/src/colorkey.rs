//! Colour key: pixels of the key colour become transparent.

use vstd::prelude::*;
use crate::pixel::{GenericPixel, Pixel8, RenderError};
use crate::substitution::{apply_pair, single_rule, substituted, ColorPair};

verus! {

/// The controls of the effect, in the order in which the host lists them.
#[derive(Clone, Copy, Debug, PartialEq, Eq, Hash, Structural)]
pub enum Params {
    Threshold,
    KeyColor,
    BackColor,
}

/// What the effect says of itself.
pub fn about() -> (message: &'static str)
    ensures
        message@ == "fs-rs colorkey"@,
{
    "fs-rs colorkey"
}

/// The settings of one frame: the tolerance, the colour to key out and
/// the colour left behind it.
#[derive(Clone, Copy, Debug, PartialEq, Eq, Structural)]
pub struct ColorKey {
    pub threshold: u8,
    pub key_color: Pixel8,
    pub back_color: Pixel8,
}

impl ColorKey {
    /// The rule that the settings amount to: the key colour is replaced by
    /// the background colour.
    pub open spec fn pair(self) -> ColorPair {
        ColorPair { source: self.key_color, destination: self.back_color }
    }

    /// Renders one pixel: where the key colour matches the input pixel,
    /// the output pixel gets the background colour and an alpha of zero.
    pub fn render_pixel(&self, pixel: &GenericPixel, out_pixel: &mut GenericPixel) -> (r: Result<
        (),
        RenderError,
    >)
        ensures
            r.is_ok() == pixel.same_format(*old(out_pixel)),
            r.is_err() ==> r == Err::<(), RenderError>(RenderError::UnsupportedPixelFormat),
            *final(out_pixel) == substituted(
                single_rule(self.pair()),
                self.threshold,
                true,
                *pixel,
                *old(out_pixel),
            ),
    {
        let pair: ColorPair = ColorPair { source: self.key_color, destination: self.back_color };
        apply_pair(&pair, self.threshold, true, pixel, out_pixel)
    }
}

} // verus!
