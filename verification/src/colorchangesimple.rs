//! Simple colour change: one rule, always enabled.

use vstd::prelude::*;
use crate::pixel::{GenericPixel, RenderError};
use crate::substitution::{apply_pair, single_rule, substituted, ColorPair};

verus! {

/// The controls of the effect, in the order in which the host lists them.
#[derive(Clone, Copy, Debug, PartialEq, Eq, Hash, Structural)]
pub enum Params {
    Level,
    SrcColor,
    DstColor,
}

/// What the effect says of itself.
pub fn about() -> (message: &'static str)
    ensures
        message@ == "fs-rs colorchangesimple"@,
{
    "fs-rs colorchangesimple"
}

/// The settings of one frame: the tolerance and the one rule.
#[derive(Clone, Copy, Debug, PartialEq, Eq, Structural)]
pub struct ColorChangeSimple {
    pub level: u8,
    pub pair: ColorPair,
}

impl ColorChangeSimple {
    /// Renders one pixel as a set of the one rule, always enabled, would:
    /// where the source colour matches the input pixel, the destination
    /// colour goes to the output pixel; alpha is kept.
    pub fn render_pixel(&self, pixel: &GenericPixel, out_pixel: &mut GenericPixel) -> (r: Result<
        (),
        RenderError,
    >)
        ensures
            r.is_ok() == pixel.same_format(*old(out_pixel)),
            r.is_err() ==> r == Err::<(), RenderError>(RenderError::UnsupportedPixelFormat),
            *final(out_pixel) == substituted(
                single_rule(self.pair),
                self.level,
                false,
                *pixel,
                *old(out_pixel),
            ),
    {
        apply_pair(&self.pair, self.level, false, pixel, out_pixel)
    }
}

} // verus!
