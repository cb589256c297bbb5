//! Colour select: pixels are cleared to transparent white according to
//! whether they are near a target colour.

use vstd::prelude::*;
use crate::matcher::color_matches;
use crate::pixel::{GenericPixel, Pixel16, Pixel8, PixelFixed, RenderError};
use crate::utils::{comp_pix8_lv, conv_16_to_8, conv_32_to_8, pixel_16_to_8, pixel_fixed_to_8};

verus! {

/// The controls of the effect, in the order in which the host lists them.
#[derive(Clone, Copy, Debug, PartialEq, Eq, Hash, Structural)]
pub enum Params {
    OptionsStart,
    OptionInvert,
    OptionsEnd,
    Target1Start,
    Target1Enabled,
    Target1Color,
    Target1End,
    Level,
}

/// What the effect says of itself.
pub fn about() -> (message: &'static str)
    ensures
        message@ == "SDK_Noise v5.6\rCopyright 2007-2023 Adobe Inc.\rSimple noise effect."@,
{
    "SDK_Noise v5.6\rCopyright 2007-2023 Adobe Inc.\rSimple noise effect."
}

/// The settings of one frame.
#[derive(Clone, Copy, Debug, PartialEq, Eq, Structural)]
pub struct ColorSelect {
    /// The colour that pixels are compared with.
    pub target_color: Pixel8,
    /// The tolerance of the comparison, per channel.
    pub level: u8,
    /// Cleared are the pixels whose comparison comes out as this flag:
    /// those that match where it is set, those that do not where it is not.
    pub invert: bool,
}

/// A pixel of any representation brought to 8 bits per channel.
pub open spec fn as_pixel8(pixel: GenericPixel) -> Pixel8 {
    match pixel {
        GenericPixel::Depth8(p) => p,
        GenericPixel::Depth16(p) => pixel_16_to_8(p),
        GenericPixel::Fixed(p) => pixel_fixed_to_8(p),
    }
}

/// Transparent white in the representation of `like`.
pub open spec fn cleared(like: GenericPixel) -> GenericPixel {
    match like {
        GenericPixel::Depth8(_) => GenericPixel::Depth8(
            Pixel8 { alpha: 0, red: 255, green: 255, blue: 255 },
        ),
        GenericPixel::Depth16(_) => GenericPixel::Depth16(
            Pixel16 { alpha: 0, red: 32768, green: 32768, blue: 32768 },
        ),
        GenericPixel::Fixed(_) => GenericPixel::Fixed(
            PixelFixed { alpha: 0, red: 10000, green: 10000, blue: 10000 },
        ),
    }
}

impl ColorSelect {
    /// Whether the effect clears the output pixel for this input pixel.
    pub open spec fn clears(self, pixel: GenericPixel) -> bool {
        color_matches(self.target_color, as_pixel8(pixel), self.level) == self.invert
    }

    /// What the effect makes of the output pixel `out` given the input
    /// pixel `pixel` of the same representation.
    pub open spec fn selected(self, pixel: GenericPixel, out: GenericPixel) -> GenericPixel {
        if pixel.same_format(out) && self.clears(pixel) {
            cleared(out)
        } else {
            out
        }
    }

    /// Decides whether a pixel whose 8-bit conversion is `pixel` is cleared.
    pub fn clears8(&self, pixel: &Pixel8) -> (r: bool)
        ensures
            r == self.clears(GenericPixel::Depth8(*pixel)),
    {
        comp_pix8_lv(&self.target_color, pixel, self.level) == self.invert
    }

    /// Renders one pixel. Where the input and the output pixel are of
    /// different representations, nothing is written and the mismatch is
    /// reported.
    pub fn render_pixel(&self, pixel: &GenericPixel, out_pixel: &mut GenericPixel) -> (r: Result<
        (),
        RenderError,
    >)
        ensures
            r.is_ok() == pixel.same_format(*old(out_pixel)),
            r.is_err() ==> r == Err::<(), RenderError>(RenderError::UnsupportedPixelFormat),
            *final(out_pixel) == self.selected(*pixel, *old(out_pixel)),
    {
        let current: GenericPixel = *out_pixel;
        match (*pixel, current) {
            (GenericPixel::Depth8(p), GenericPixel::Depth8(_)) => {
                let b: bool = comp_pix8_lv(&self.target_color, &p, self.level);
                if b == self.invert {
                    *out_pixel = GenericPixel::Depth8(
                        Pixel8 { alpha: 0, red: 255, green: 255, blue: 255 },
                    );
                }
                Ok(())
            },
            (GenericPixel::Depth16(p), GenericPixel::Depth16(_)) => {
                let b: bool = comp_pix8_lv(&self.target_color, &conv_16_to_8(&p), self.level);
                if b == self.invert {
                    *out_pixel = GenericPixel::Depth16(
                        Pixel16 { alpha: 0, red: 32768, green: 32768, blue: 32768 },
                    );
                }
                Ok(())
            },
            (GenericPixel::Fixed(p), GenericPixel::Fixed(_)) => {
                let b: bool = comp_pix8_lv(&self.target_color, &conv_32_to_8(&p), self.level);
                if b == self.invert {
                    *out_pixel = GenericPixel::Fixed(
                        PixelFixed { alpha: 0, red: 10000, green: 10000, blue: 10000 },
                    );
                }
                Ok(())
            },
            _ => Err(RenderError::UnsupportedPixelFormat),
        }
    }
}

} // verus!
