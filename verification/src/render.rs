//! Rendering of whole frames: a frame is a sequence of pixels, and an
//! effect is applied to it pixel by pixel. No pixel depends on another.

use vstd::prelude::*;
use crate::colorchange::ColorChange;
use crate::colorchangesimple::ColorChangeSimple;
use crate::colorkey::ColorKey;
use crate::colorselect::ColorSelect;
use crate::opticaldiffusion::OpticalDiffusion;
use crate::pixel::{GenericPixel, RenderError};
use crate::substitution::{single_rule, substituted};

verus! {

/// One of the effects, with its settings for a frame.
pub enum Effect {
    ColorChange(ColorChange),
    ColorChangeSimple(ColorChangeSimple),
    ColorKey(ColorKey),
    ColorSelect(ColorSelect),
    OpticalDiffusion(OpticalDiffusion),
}

impl Effect {
    /// The settings are well formed.
    pub open spec fn wf(&self) -> bool {
        match self {
            Effect::OpticalDiffusion(e) => e.wf(),
            _ => true,
        }
    }

    /// What the effect makes of the output pixel `out` given the input
    /// pixel `pixel`. Where the two are of different representations the
    /// output pixel stays as it is.
    pub open spec fn rendered(&self, pixel: GenericPixel, out: GenericPixel) -> GenericPixel {
        match self {
            Effect::ColorChange(e) => substituted(e.rules@, e.level, false, pixel, out),
            Effect::ColorChangeSimple(e) => substituted(
                single_rule(e.pair),
                e.level,
                false,
                pixel,
                out,
            ),
            Effect::ColorKey(e) => substituted(
                single_rule(e.pair()),
                e.threshold,
                true,
                pixel,
                out,
            ),
            Effect::ColorSelect(e) => e.selected(pixel, out),
            Effect::OpticalDiffusion(e) => e.extracted(pixel, out),
        }
    }

    /// Renders one pixel. Where the input and the output pixel are of
    /// different representations, nothing is written and the mismatch is
    /// reported.
    pub fn render_pixel(&self, pixel: &GenericPixel, out_pixel: &mut GenericPixel) -> (r: Result<
        (),
        RenderError,
    >)
        requires
            self.wf(),
        ensures
            r.is_ok() == pixel.same_format(*old(out_pixel)),
            r.is_err() ==> r == Err::<(), RenderError>(RenderError::UnsupportedPixelFormat),
            *final(out_pixel) == self.rendered(*pixel, *old(out_pixel)),
            !pixel.same_format(*old(out_pixel)) ==> *final(out_pixel) == *old(out_pixel),
            final(out_pixel).same_format(*old(out_pixel)),
    {
        match self {
            Effect::ColorChange(e) => e.render_pixel(pixel, out_pixel),
            Effect::ColorChangeSimple(e) => e.render_pixel(pixel, out_pixel),
            Effect::ColorKey(e) => e.render_pixel(pixel, out_pixel),
            Effect::ColorSelect(e) => e.render_pixel(pixel, out_pixel),
            Effect::OpticalDiffusion(e) => e.render_pixel(pixel, out_pixel),
        }
    }

    /// Renders a frame into a buffer of the caller, which holds as many
    /// pixels as the frame. Each output pixel is rendered from the input
    /// pixel at its place and from what the buffer held there. Rendering
    /// stops at the first place where the two are of different
    /// representations: the pixels before it are rendered, those from it on
    /// are left as they were, and the mismatch is reported.
    pub fn render_into(&self, input: &Vec<GenericPixel>, output: &mut Vec<GenericPixel>) -> (r:
        Result<(), RenderError>)
        requires
            self.wf(),
            input@.len() == old(output)@.len(),
        ensures
            final(output)@.len() == old(output)@.len(),
            r.is_ok() <==> forall|i: int|
                0 <= i < input@.len() ==> (#[trigger] input@[i]).same_format(old(output)@[i]),
            r.is_ok() ==> forall|i: int|
                0 <= i < input@.len() ==> #[trigger] final(output)@[i] == self.rendered(
                    input@[i],
                    old(output)@[i],
                ),
            r.is_err() ==> r == Err::<(), RenderError>(RenderError::UnsupportedPixelFormat),
            r.is_err() ==> exists|k: int|
                {
                    &&& 0 <= k < input@.len()
                    &&& !(#[trigger] input@[k]).same_format(old(output)@[k])
                    &&& forall|i: int|
                        0 <= i < k ==> #[trigger] final(output)@[i] == self.rendered(
                            input@[i],
                            old(output)@[i],
                        ) && input@[i].same_format(old(output)@[i])
                    &&& forall|i: int|
                        k <= i < input@.len() ==> #[trigger] final(output)@[i] == old(output)@[i]
                },
    {
        let ghost before = output@;
        let n: usize = input.len();
        let mut i: usize = 0;
        while i < n
            invariant
                self.wf(),
                n == input@.len(),
                output@.len() == n,
                before == old(output)@,
                before.len() == n,
                i <= n,
                forall|j: int| 0 <= j < i ==> (#[trigger] input@[j]).same_format(before[j]),
                forall|j: int|
                    0 <= j < i ==> #[trigger] output@[j] == self.rendered(input@[j], before[j]),
                forall|j: int| i <= j < n ==> #[trigger] output@[j] == before[j],
            decreases n - i,
        {
            let mut out: GenericPixel = output[i];
            match self.render_pixel(&input[i], &mut out) {
                Ok(()) => {
                    output.set(i, out);
                },
                Err(e) => {
                    assert(!input@[i as int].same_format(before[i as int]));
                    assert(output@[i as int] == before[i as int]);
                    return Err(e);
                },
            }
            i = i + 1;
        }
        Ok(())
    }

    /// Renders a frame into a new buffer of the same size: each pixel is
    /// copied from the input and then rendered in place.
    pub fn render(&self, input: &Vec<GenericPixel>) -> (output: Vec<GenericPixel>)
        requires
            self.wf(),
        ensures
            output@.len() == input@.len(),
            forall|i: int|
                0 <= i < input@.len() ==> #[trigger] output@[i] == self.rendered(
                    input@[i],
                    input@[i],
                ),
    {
        let n: usize = input.len();
        let mut output: Vec<GenericPixel> = Vec::new();
        let mut i: usize = 0;
        while i < n
            invariant
                self.wf(),
                n == input@.len(),
                output@.len() == i,
                i <= n,
                forall|j: int|
                    0 <= j < i ==> #[trigger] output@[j] == self.rendered(input@[j], input@[j]),
            decreases n - i,
        {
            let mut out: GenericPixel = input[i];
            let _ = self.render_pixel(&input[i], &mut out);
            output.push(out);
            i = i + 1;
        }
        output
    }
}

} // verus!
