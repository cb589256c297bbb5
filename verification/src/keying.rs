//! Luma keying: a pixel's weighted luma is mapped to an alpha multiplier
//! along a four-point ramp.

use vstd::prelude::*;
use vstd::arithmetic::div_mod::lemma_div_is_ordered;
use crate::pixel::Pixel8;

verus! {

/// The four points of the keying ramp, in luma units, and whether the
/// result is inverted.
#[derive(Clone, Copy, Debug, PartialEq, Eq, Structural)]
pub struct KeyingCurveParams {
    pub black_point: i32,
    pub white_point: i32,
    pub black_softness: i32,
    pub white_softness: i32,
    pub invert: bool,
}

/// `x`, or zero where `x` is negative.
pub open spec fn at_least_zero(x: int) -> int {
    if x < 0 {
        0
    } else {
        x
    }
}

impl KeyingCurveParams {
    /// Every point and softness lies in the luma range `[0, 255]`.
    pub open spec fn valid(self) -> bool {
        &&& 0 <= self.black_point <= 255
        &&& 0 <= self.white_point <= 255
        &&& 0 <= self.black_softness <= 255
        &&& 0 <= self.white_softness <= 255
    }

    /// The parameters with a black point above the white point resolved:
    /// the black point and the black softness both come down by the excess,
    /// but not below zero.
    pub open spec fn normalized_spec(self) -> KeyingCurveParams {
        if self.black_point > self.white_point {
            let excess = self.black_point - self.white_point;
            KeyingCurveParams {
                black_point: at_least_zero(self.black_point - excess) as i32,
                black_softness: at_least_zero(self.black_softness - excess) as i32,
                ..self
            }
        } else {
            self
        }
    }

    /// Where the black ramp starts.
    pub open spec fn b0(self) -> int {
        self.black_point - self.black_softness
    }

    /// Where the black ramp ends and the plateau starts.
    pub open spec fn b1(self) -> int {
        self.black_point as int
    }

    /// Where the plateau ends and the white ramp starts.
    pub open spec fn w0(self) -> int {
        self.white_point as int
    }

    /// Where the white ramp ends.
    pub open spec fn w1(self) -> int {
        self.white_point + self.white_softness
    }

    /// The value of the ramp at `luma`, before any inversion. A ramp of no
    /// width is a hard step: no branch divides by zero, because a ramp
    /// branch is only reached for a luma strictly inside the ramp.
    pub open spec fn ramp(self, luma: int) -> int {
        if luma < self.b0() {
            0
        } else if luma < self.b1() {
            255 * (luma - self.b0()) / (self.b1() - self.b0())
        } else if luma <= self.w0() {
            255
        } else if luma < self.w1() {
            255 - 255 * (luma - self.w0()) / (self.w1() - self.w0())
        } else {
            0
        }
    }

    /// The alpha multiplier at `luma`: the ramp of the normalised
    /// parameters, inverted where asked for.
    pub open spec fn multiplier(self, luma: int) -> int {
        let p = self.normalized_spec();
        if p.invert {
            255 - p.ramp(luma)
        } else {
            p.ramp(luma)
        }
    }

    /// Resolves a black point above the white point.
    pub fn normalized(&self) -> (r: KeyingCurveParams)
        ensures
            r == self.normalized_spec(),
            self.black_point <= self.white_point ==> r == *self,
            self.valid() ==> r.valid() && r.black_point <= r.white_point,
    {
        if self.black_point > self.white_point {
            let excess: i64 = self.black_point as i64 - self.white_point as i64;
            let point: i64 = self.black_point as i64 - excess;
            let softness: i64 = self.black_softness as i64 - excess;
            KeyingCurveParams {
                black_point: if point < 0 { 0 } else { point as i32 },
                white_point: self.white_point,
                black_softness: if softness < 0 { 0 } else { softness as i32 },
                white_softness: self.white_softness,
                invert: self.invert,
            }
        } else {
            *self
        }
    }

    /// The ramp stays within `[0, 255]` whatever the parameters.
    pub proof fn lemma_ramp_bounds(self, luma: int)
        ensures
            0 <= self.ramp(luma) <= 255,
    {
        if self.b0() <= luma < self.b1() {
            lemma_ramp_fraction(luma - self.b0(), self.b1() - self.b0());
        } else if self.b1() <= luma && self.w0() < luma < self.w1() {
            lemma_ramp_fraction(luma - self.w0(), self.w1() - self.w0());
        }
    }
}

/// A fraction `x / d` of 255, for `0 <= x < d`, lies in `[0, 255)`.
pub proof fn lemma_ramp_fraction(x: int, d: int)
    requires
        0 <= x < d,
    ensures
        0 <= 255 * x / d < 255,
{
    assert(0 <= 255 * x < 255 * d) by (nonlinear_arith)
        requires
            0 <= x < d,
    ;
    lemma_div_is_ordered(0, 255 * x, d);
    assert(0int / d == 0) by (nonlinear_arith)
        requires
            d > 0,
    ;
    assert(255 * x / d < 255) by (nonlinear_arith)
        requires
            0 <= 255 * x < 255 * d,
            d > 0,
    ;
}

/// Computes the alpha multiplier for a luma value.
pub fn alpha_multiplier(luma: i32, params: &KeyingCurveParams) -> (r: i32)
    ensures
        r == params.multiplier(luma as int),
        0 <= r <= 255,
{
    let p: KeyingCurveParams = params.normalized();
    let l: i64 = luma as i64;
    let b0: i64 = p.black_point as i64 - p.black_softness as i64;
    let b1: i64 = p.black_point as i64;
    let w0: i64 = p.white_point as i64;
    let w1: i64 = p.white_point as i64 + p.white_softness as i64;
    proof {
        p.lemma_ramp_bounds(luma as int);
    }
    let value: i64 = if l < b0 {
        0
    } else if l < b1 {
        255 * (l - b0) / (b1 - b0)
    } else if l <= w0 {
        255
    } else if l < w1 {
        255 - 255 * (l - w0) / (w1 - w0)
    } else {
        0
    };
    if p.invert {
        (255 - value) as i32
    } else {
        value as i32
    }
}

/// On the black ramp, from its start to the black point, the multiplier
/// of a curve that is not inverted never falls as luma grows.
pub proof fn lemma_black_ramp_rises(params: KeyingCurveParams, x: int, y: int)
    requires
        params.valid(),
        !params.invert,
        params.normalized_spec().b0() <= x <= y <= params.normalized_spec().b1(),
    ensures
        params.multiplier(x) <= params.multiplier(y),
{
    let p = params.normalized_spec();
    p.lemma_ramp_bounds(x);
    p.lemma_ramp_bounds(y);
    if y < p.b1() {
        let d = p.b1() - p.b0();
        lemma_div_is_ordered(255 * (x - p.b0()), 255 * (y - p.b0()), d);
    }
}

/// On the white ramp, from the white point to the ramp's end, the
/// multiplier of a curve that is not inverted never rises as luma grows.
pub proof fn lemma_white_ramp_falls(params: KeyingCurveParams, x: int, y: int)
    requires
        params.valid(),
        !params.invert,
        params.normalized_spec().w0() <= x <= y <= params.normalized_spec().w1(),
    ensures
        params.multiplier(x) >= params.multiplier(y),
{
    let p = params.normalized_spec();
    p.lemma_ramp_bounds(x);
    p.lemma_ramp_bounds(y);
    if p.w0() < x && y < p.w1() {
        let d = p.w1() - p.w0();
        lemma_div_is_ordered(255 * (x - p.w0()), 255 * (y - p.w0()), d);
    }
}

/// Below the start of the black ramp and above the end of the white ramp
/// the multiplier of a curve that is not inverted is zero; on the plateau
/// between the black and the white point it is 255.
pub proof fn lemma_multiplier_outside_and_plateau(params: KeyingCurveParams, luma: int)
    requires
        params.valid(),
        !params.invert,
    ensures
        luma < params.normalized_spec().b0() ==> params.multiplier(luma) == 0,
        luma > params.normalized_spec().w1() ==> params.multiplier(luma) == 0,
        params.normalized_spec().b1() <= luma <= params.normalized_spec().w0()
            ==> params.multiplier(luma) == 255,
{
}

/// Inverting the curve mirrors the multiplier within `[0, 255]`.
pub proof fn lemma_invert_mirrors(params: KeyingCurveParams, luma: int)
    ensures
        (KeyingCurveParams { invert: !params.invert, ..params }).multiplier(luma) == 255
            - params.multiplier(luma),
{
}

/// The weighted luma of a colour in hundred-thousandths of a luma unit:
/// red, green and blue weigh 0.29891, 0.58661 and 0.11448.
pub open spec fn weighted_luma(p: Pixel8) -> int {
    29891 * p.red + 58661 * p.green + 11448 * p.blue
}

/// The luma that the keying curve is given: the weighted luma scaled by
/// `alpha / 255` and rounded to the nearest unit, halves upward. This is
/// `floor(weighted / 100000 * alpha / 255 + 1/2)` with numerator and
/// denominator doubled.
pub open spec fn keyed_luma(p: Pixel8, alpha: u8) -> int {
    (2 * (weighted_luma(p) * alpha) + 25500000) / 51000000
}

/// The alpha that keying leaves: `alpha` scaled by `multiplier / 255` and
/// clamped to a channel's range.
pub open spec fn keyed_alpha(alpha: u8, multiplier: int) -> int {
    let scaled = alpha * multiplier / 255;
    if scaled < 0 {
        0
    } else if scaled > 255 {
        255
    } else {
        scaled
    }
}

/// Computes the weighted luma of a colour, in hundred-thousandths.
pub fn get_luma(pixel: &Pixel8) -> (r: u32)
    ensures
        r == weighted_luma(*pixel),
        r <= 25500000,
{
    29891 * (pixel.red as u32) + 58661 * (pixel.green as u32) + 11448 * (pixel.blue as u32)
}

/// Computes the luma of a colour as weighted by `alpha`.
pub fn luma_with_alpha(pixel: &Pixel8, alpha: u8) -> (r: i32)
    ensures
        r == keyed_luma(*pixel, alpha),
        0 <= r <= 255,
{
    let weighted: u64 = get_luma(pixel) as u64;
    assert(0 <= weighted * alpha <= 25500000 * 255) by (nonlinear_arith)
        requires
            0 <= weighted <= 25500000,
            0 <= alpha <= 255,
    ;
    let scaled: u64 = weighted * (alpha as u64);
    let luma: u64 = (2 * scaled + 25500000) / 51000000;
    luma as i32
}

/// Scales `alpha` by a multiplier out of 255.
pub fn scale_alpha(alpha: u8, multiplier: i32) -> (r: u8)
    ensures
        r == keyed_alpha(alpha, multiplier as int),
        0 <= multiplier <= 255 ==> r <= alpha,
{
    let m: i64 = multiplier as i64;
    let a: i64 = alpha as i64;
    assert(-2147483648 * 255 <= a * m <= 2147483647 * 255) by (nonlinear_arith)
        requires
            0 <= a <= 255,
            -2147483648 <= m <= 2147483647,
    ;
    let product: i64 = a * m;
    if product < 0 {
        0
    } else {
        let scaled: i64 = product / 255;
        proof {
            if 0 <= multiplier <= 255 {
                assert(a * m <= a * 255) by (nonlinear_arith)
                    requires
                        0 <= a,
                        0 <= m <= 255,
                ;
            }
        }
        if scaled > 255 {
            255
        } else {
            scaled as u8
        }
    }
}

} // verus!
