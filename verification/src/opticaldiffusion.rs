//! Optical diffusion: the bright part of a frame is extracted into alpha
//! by a luma keying curve, and pixels near a reference colour are boosted.

use vstd::prelude::*;
use crate::extraction::{boosted_alpha, chroma_boost_of, ExtractionSet};
use crate::hls::{hls_of, HLSA};
use crate::keying::{
    alpha_multiplier, keyed_alpha, keyed_luma, luma_with_alpha, scale_alpha, KeyingCurveParams,
};
use crate::pixel::{GenericPixel, Pixel8, PixelFixed, RenderError};
use crate::utils::{conv_8_to_32, pixel_8_to_fixed};

verus! {

/// The controls of the effect, in the order in which the host lists them.
#[derive(Clone, Copy, Debug, PartialEq, Eq, Hash, Structural)]
pub enum Params {
    ExtractEnabled,
    ExtractLightnessGroupStart,
    BlackPoint,
    WhitePoint,
    BlackSoftness,
    WhiteSoftness,
    Invert,
    ExtractLightnessGroupEnd,
    ExtractColorGroupStart,
    UseCount,
    Range,
    Color1,
    Color2,
    Color3,
    Color4,
    Color5,
    Color6,
    Color7,
    Color8,
    ExtractColorGroupEnd,
    Minimax1st,
    Minimax2nd,
    Blur,
    BlendMode,
    BlendOpacity,
    Noise,
}

impl Params {
    /// The position of the control in the order in which the host lists
    /// them, counted from zero.
    pub open spec fn ordinal(self) -> int {
        match self {
            Params::ExtractEnabled => 0,
            Params::ExtractLightnessGroupStart => 1,
            Params::BlackPoint => 2,
            Params::WhitePoint => 3,
            Params::BlackSoftness => 4,
            Params::WhiteSoftness => 5,
            Params::Invert => 6,
            Params::ExtractLightnessGroupEnd => 7,
            Params::ExtractColorGroupStart => 8,
            Params::UseCount => 9,
            Params::Range => 10,
            Params::Color1 => 11,
            Params::Color2 => 12,
            Params::Color3 => 13,
            Params::Color4 => 14,
            Params::Color5 => 15,
            Params::Color6 => 16,
            Params::Color7 => 17,
            Params::Color8 => 18,
            Params::ExtractColorGroupEnd => 19,
            Params::Minimax1st => 20,
            Params::Minimax2nd => 21,
            Params::Blur => 22,
            Params::BlendMode => 23,
            Params::BlendOpacity => 24,
            Params::Noise => 25,
        }
    }

    /// The position of the control, counted from zero.
    pub fn index(&self) -> (i: usize)
        ensures
            i == self.ordinal(),
            i < 26,
    {
        match self {
            Params::ExtractEnabled => 0,
            Params::ExtractLightnessGroupStart => 1,
            Params::BlackPoint => 2,
            Params::WhitePoint => 3,
            Params::BlackSoftness => 4,
            Params::WhiteSoftness => 5,
            Params::Invert => 6,
            Params::ExtractLightnessGroupEnd => 7,
            Params::ExtractColorGroupStart => 8,
            Params::UseCount => 9,
            Params::Range => 10,
            Params::Color1 => 11,
            Params::Color2 => 12,
            Params::Color3 => 13,
            Params::Color4 => 14,
            Params::Color5 => 15,
            Params::Color6 => 16,
            Params::Color7 => 17,
            Params::Color8 => 18,
            Params::ExtractColorGroupEnd => 19,
            Params::Minimax1st => 20,
            Params::Minimax2nd => 21,
            Params::Blur => 22,
            Params::BlendMode => 23,
            Params::BlendOpacity => 24,
            Params::Noise => 25,
        }
    }

    /// The control at a position, if there is one.
    pub fn from_index(index: usize) -> (r: Option<Params>)
        ensures
            r.is_some() == (index < 26),
            r.is_some() ==> r.unwrap().ordinal() == index,
    {
        match index {
            0 => Some(Params::ExtractEnabled),
            1 => Some(Params::ExtractLightnessGroupStart),
            2 => Some(Params::BlackPoint),
            3 => Some(Params::WhitePoint),
            4 => Some(Params::BlackSoftness),
            5 => Some(Params::WhiteSoftness),
            6 => Some(Params::Invert),
            7 => Some(Params::ExtractLightnessGroupEnd),
            8 => Some(Params::ExtractColorGroupStart),
            9 => Some(Params::UseCount),
            10 => Some(Params::Range),
            11 => Some(Params::Color1),
            12 => Some(Params::Color2),
            13 => Some(Params::Color3),
            14 => Some(Params::Color4),
            15 => Some(Params::Color5),
            16 => Some(Params::Color6),
            17 => Some(Params::Color7),
            18 => Some(Params::Color8),
            19 => Some(Params::ExtractColorGroupEnd),
            20 => Some(Params::Minimax1st),
            21 => Some(Params::Minimax2nd),
            22 => Some(Params::Blur),
            23 => Some(Params::BlendMode),
            24 => Some(Params::BlendOpacity),
            25 => Some(Params::Noise),
            _ => None,
        }
    }

    /// The control of a reference colour. There are eight of them.
    pub fn color(slot: usize) -> (r: Option<Params>)
        ensures
            r.is_some() == (slot < 8),
            r.is_some() ==> r.unwrap().ordinal() == 11 + slot,
    {
        if slot >= 8 {
            None
        } else {
            Params::from_index(11 + slot)
        }
    }
}

/// What the effect says of itself.
pub fn about() -> (message: &'static str)
    ensures
        message@ == "JK Optical Diffusion"@,
{
    "JK Optical Diffusion"
}

/// A reference colour as the extraction compares it: brought to the
/// high-precision representation, then to hue, lightness and saturation.
pub open spec fn reference_of(color: Pixel8) -> HLSA {
    hls_of(pixel_8_to_fixed(color))
}

/// The alpha that extraction leaves in a pixel whose alpha was `alpha`:
/// the keying curve scales it by the pixel's luma, and the first reference
/// colour that qualifies may raise it.
pub open spec fn extracted_alpha(
    curve: KeyingCurveParams,
    references: Seq<HLSA>,
    range: i32,
    pixel: Pixel8,
    alpha: u8,
) -> u8 {
    let keyed = keyed_alpha(alpha, curve.multiplier(keyed_luma(pixel, alpha))) as u8;
    boosted_alpha(keyed, chroma_boost_of(references, reference_of(pixel), range))
}

/// The settings of one frame.
pub struct OpticalDiffusion {
    /// Whether extraction takes place at all.
    pub extract_enabled: bool,
    /// The luma keying curve.
    pub curve: KeyingCurveParams,
    /// The reference colours and their tolerance.
    pub references: ExtractionSet,
}

impl OpticalDiffusion {
    /// The reference colours are well formed.
    pub open spec fn wf(&self) -> bool {
        self.references.wf()
    }

    /// What the effect makes of the output pixel `out` of an 8-bit frame
    /// given the input pixel `pixel`: only alpha changes, and only where
    /// extraction is enabled.
    pub open spec fn extracted8(&self, pixel: Pixel8, out: Pixel8) -> Pixel8 {
        if self.extract_enabled {
            Pixel8 {
                alpha: extracted_alpha(
                    self.curve,
                    self.references.references(),
                    self.references.range,
                    pixel,
                    out.alpha,
                ),
                ..out
            }
        } else {
            out
        }
    }

    /// What the effect makes of an output pixel of any representation.
    /// Extraction works on 8-bit frames; pixels of the other
    /// representations are left as they are.
    pub open spec fn extracted(&self, pixel: GenericPixel, out: GenericPixel) -> GenericPixel {
        match (pixel, out) {
            (GenericPixel::Depth8(p), GenericPixel::Depth8(o)) => GenericPixel::Depth8(
                self.extracted8(p, o),
            ),
            _ => out,
        }
    }

    /// Builds the settings from the colours as the host gives them. At
    /// most eight reference colours are taken, in their order.
    pub fn new(
        extract_enabled: bool,
        curve: KeyingCurveParams,
        range: i32,
        colors: &Vec<Pixel8>,
    ) -> (r: OpticalDiffusion)
        ensures
            r.wf(),
            r.extract_enabled == extract_enabled,
            r.curve == curve,
            r.references.range == range,
            r.references.references().len() == if colors@.len() <= 8 {
                colors@.len()
            } else {
                8
            },
            forall|i: int|
                0 <= i < r.references.references().len() ==> r.references.references()[i]
                    == reference_of(#[trigger] colors@[i]),
    {
        let mut references: ExtractionSet = ExtractionSet::new(range);
        let n: usize = if colors.len() <= 8 { colors.len() } else { 8 };
        let mut i: usize = 0;
        while i < n
            invariant
                n <= colors@.len(),
                n <= 8,
                i <= n,
                references.wf(),
                references.range == range,
                references.references().len() == i,
                forall|j: int|
                    0 <= j < i ==> references.references()[j] == reference_of(
                        #[trigger] colors@[j],
                    ),
            decreases n - i,
        {
            let fixed: PixelFixed = conv_8_to_32(&colors[i]);
            let color: HLSA = HLSA::rgb_to_hls(&fixed);
            let accepted: bool = references.push(color);
            assert(accepted);
            i = i + 1;
        }
        OpticalDiffusion { extract_enabled, curve, references }
    }

    /// Extracts one pixel of an 8-bit frame: the output pixel's alpha is
    /// scaled by the keying curve at the input pixel's luma, then raised to
    /// the boost of the first reference colour that qualifies, if any.
    pub fn extract8(&self, pixel: &Pixel8, out_pixel: &mut Pixel8)
        requires
            self.wf(),
        ensures
            *final(out_pixel) == self.extracted8(*pixel, *old(out_pixel)),
    {
        if self.extract_enabled {
            let alpha: u8 = out_pixel.alpha;
            let luma: i32 = luma_with_alpha(pixel, alpha);
            let multiplier: i32 = alpha_multiplier(luma, &self.curve);
            out_pixel.alpha = scale_alpha(alpha, multiplier);
            if self.references.len() > 0 && out_pixel.alpha < 255 {
                let fixed: PixelFixed = conv_8_to_32(pixel);
                let hlsa: HLSA = HLSA::rgb_to_hls(&fixed);
                match self.references.chroma_boost(&hlsa) {
                    Some(boost) => {
                        if out_pixel.alpha < boost {
                            out_pixel.alpha = boost;
                        }
                    },
                    None => {},
                }
            } else {
                proof {
                    crate::extraction::lemma_boost_never_lowers(
                        self.references.references(),
                        reference_of(*pixel),
                        self.references.range,
                        out_pixel.alpha,
                    );
                }
            }
        }
    }

    /// Renders one pixel. Where the input and the output pixel are of
    /// different representations, nothing is written and the mismatch is
    /// reported.
    pub fn render_pixel(&self, pixel: &GenericPixel, out_pixel: &mut GenericPixel) -> (r: Result<
        (),
        RenderError,
    >)
        requires
            self.wf(),
        ensures
            r.is_ok() == pixel.same_format(*old(out_pixel)),
            r.is_err() ==> r == Err::<(), RenderError>(RenderError::UnsupportedPixelFormat),
            *final(out_pixel) == self.extracted(*pixel, *old(out_pixel)),
    {
        let current: GenericPixel = *out_pixel;
        match (*pixel, current) {
            (GenericPixel::Depth8(p), GenericPixel::Depth8(o)) => {
                let mut o: Pixel8 = o;
                self.extract8(&p, &mut o);
                *out_pixel = GenericPixel::Depth8(o);
                Ok(())
            },
            (GenericPixel::Depth16(_), GenericPixel::Depth16(_)) => Ok(()),
            (GenericPixel::Fixed(_), GenericPixel::Fixed(_)) => Ok(()),
            _ => Err(RenderError::UnsupportedPixelFormat),
        }
    }
}

} // verus!
