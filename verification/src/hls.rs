//! Conversion from red, green and blue to hue, lightness and saturation.
//!
//! The conversion is exact: each component is held as a fraction of two
//! integers, so that nothing is lost to rounding.

use vstd::prelude::*;
use crate::pixel::PixelFixed;

verus! {

/// The largest denominator that a component of a converted colour has.
pub const MAX_DENOMINATOR: i64 = 60000;

/// A non-negative fraction `num / den`.
#[derive(Clone, Copy, Debug, PartialEq, Eq, Structural)]
pub struct Ratio {
    pub num: i64,
    pub den: i64,
}

impl Ratio {
    /// The fraction is defined, not negative, and of bounded size.
    pub open spec fn wf(self) -> bool {
        &&& 0 < self.den <= MAX_DENOMINATOR
        &&& 0 <= self.num <= MAX_DENOMINATOR
    }

    /// The fraction is well formed and lies in `[0, 1]`.
    pub open spec fn is_unit(self) -> bool {
        self.wf() && self.num <= self.den
    }

    /// Whether two fractions stand for the same number.
    pub open spec fn same_value(self, other: Ratio) -> bool {
        self.num * other.den == other.num * self.den
    }

    /// Whether the fraction stands for zero.
    pub open spec fn is_zero(self) -> bool {
        self.num == 0
    }
}

/// A colour as hue, lightness, saturation and alpha, each in `[0, 1]`.
/// Hue is circular: 1 stands for a full turn. A colour without chroma has
/// hue 0 and saturation 0.
#[derive(Clone, Copy, Debug, PartialEq, Eq, Structural)]
pub struct HLSA {
    pub hue: Ratio,
    pub lightness: Ratio,
    pub saturation: Ratio,
    pub alpha: Ratio,
}

/// The largest of three values.
pub open spec fn max3(a: int, b: int, c: int) -> int {
    if a >= b && a >= c {
        a
    } else if b >= c {
        b
    } else {
        c
    }
}

/// The smallest of three values.
pub open spec fn min3(a: int, b: int, c: int) -> int {
    if a <= b && a <= c {
        a
    } else if b <= c {
        b
    } else {
        c
    }
}

/// The lightness of a colour: the mean of its largest and its smallest
/// channel, the channels being in ten-thousandths.
pub open spec fn lightness_of(c: PixelFixed) -> Ratio {
    let c_max = max3(c.red as int, c.green as int, c.blue as int);
    let c_min = min3(c.red as int, c.green as int, c.blue as int);
    Ratio { num: (c_max + c_min) as i64, den: 20000 }
}

/// The saturation of a colour: the spread of its channels over twice the
/// lightness where that is at most one half, else over two less twice the
/// lightness; zero for a colour without spread.
pub open spec fn saturation_of(c: PixelFixed) -> Ratio {
    let c_max = max3(c.red as int, c.green as int, c.blue as int);
    let c_min = min3(c.red as int, c.green as int, c.blue as int);
    let delta = c_max - c_min;
    let sum = c_max + c_min;
    if delta == 0 {
        Ratio { num: 0, den: 1 }
    } else if sum <= 10000 {
        Ratio { num: delta as i64, den: sum as i64 }
    } else {
        Ratio { num: delta as i64, den: (20000 - sum) as i64 }
    }
}

/// The hue of a colour as a fraction of a full turn, by the six-sector
/// formula. Where channels tie for the largest, red decides before green
/// and green before blue. A colour without spread has hue zero.
pub open spec fn hue_of(c: PixelFixed) -> Ratio {
    let c_max = max3(c.red as int, c.green as int, c.blue as int);
    let c_min = min3(c.red as int, c.green as int, c.blue as int);
    let delta = c_max - c_min;
    if delta == 0 {
        Ratio { num: 0, den: 1 }
    } else if c.red == c_max {
        if c.green - c.blue < 0 {
            Ratio { num: (c.green - c.blue + 6 * delta) as i64, den: (6 * delta) as i64 }
        } else {
            Ratio { num: (c.green - c.blue) as i64, den: (6 * delta) as i64 }
        }
    } else if c.green == c_max {
        Ratio { num: (c.blue - c.red + 2 * delta) as i64, den: (6 * delta) as i64 }
    } else {
        Ratio { num: (c.red - c.green + 4 * delta) as i64, den: (6 * delta) as i64 }
    }
}

/// The colour `c` as hue, lightness, saturation and alpha.
pub open spec fn hls_of(c: PixelFixed) -> HLSA {
    HLSA {
        hue: hue_of(c),
        lightness: lightness_of(c),
        saturation: saturation_of(c),
        alpha: Ratio { num: c.alpha as i64, den: 10000 },
    }
}

impl HLSA {
    /// Every component is a well-formed fraction in `[0, 1]`, and the hue
    /// is below a full turn.
    pub open spec fn wf(self) -> bool {
        &&& self.hue.is_unit()
        &&& self.hue.num < self.hue.den
        &&& self.lightness.is_unit()
        &&& self.saturation.is_unit()
        &&& self.alpha.is_unit()
    }

    /// Black without chroma, fully opaque.
    pub fn new() -> (r: HLSA)
        ensures
            r.hue == (Ratio { num: 0, den: 1 }),
            r.lightness == (Ratio { num: 0, den: 1 }),
            r.saturation == (Ratio { num: 0, den: 1 }),
            r.alpha == (Ratio { num: 1, den: 1 }),
            r.wf(),
    {
        HLSA {
            hue: Ratio { num: 0, den: 1 },
            lightness: Ratio { num: 0, den: 1 },
            saturation: Ratio { num: 0, den: 1 },
            alpha: Ratio { num: 1, den: 1 },
        }
    }

    /// Converts a colour whose channels lie in the nominal range.
    pub fn rgb_to_hls(c: &PixelFixed) -> (r: HLSA)
        requires
            c.in_range(),
        ensures
            r == hls_of(*c),
            r.wf(),
    {
        let red: i64 = c.red as i64;
        let green: i64 = c.green as i64;
        let blue: i64 = c.blue as i64;
        let c_max: i64 = largest(red, green, blue);
        let c_min: i64 = smallest(red, green, blue);
        let c_delta: i64 = c_max - c_min;
        let sum: i64 = c_max + c_min;
        let mut hls: HLSA = HLSA::new();
        hls.alpha = Ratio { num: c.alpha as i64, den: 10000 };
        hls.lightness = Ratio { num: sum, den: 20000 };
        if c_delta != 0 {
            if sum <= 10000 {
                hls.saturation = Ratio { num: c_delta, den: sum };
            } else {
                hls.saturation = Ratio { num: c_delta, den: 20000 - sum };
            }
            let mut sixths: i64 = 0;
            if red == c_max {
                sixths = green - blue;
                if sixths < 0 {
                    sixths = sixths + 6 * c_delta;
                }
            } else if green == c_max {
                sixths = blue - red + 2 * c_delta;
            } else if blue == c_max {
                sixths = red - green + 4 * c_delta;
            }
            hls.hue = Ratio { num: sixths, den: 6 * c_delta };
        }
        hls
    }
}

/// The largest of three values.
pub fn largest(a: i64, b: i64, c: i64) -> (r: i64)
    ensures
        r == max3(a as int, b as int, c as int),
        r >= a && r >= b && r >= c,
        r == a || r == b || r == c,
{
    if a >= b && a >= c {
        a
    } else if b >= c {
        b
    } else {
        c
    }
}

/// The smallest of three values.
pub fn smallest(a: i64, b: i64, c: i64) -> (r: i64)
    ensures
        r == min3(a as int, b as int, c as int),
        r <= a && r <= b && r <= c,
        r == a || r == b || r == c,
{
    if a <= b && a <= c {
        a
    } else if b <= c {
        b
    } else {
        c
    }
}

/// A colour whose red, green and blue are all `v` has no chroma: its hue
/// and its saturation are zero, and its lightness is `v`.
pub proof fn lemma_achromatic_fixed_point(v: i32, alpha: i32)
    requires
        0 <= v <= 10000,
    ensures
        hls_of(PixelFixed { alpha, red: v, green: v, blue: v }).hue.is_zero(),
        hls_of(PixelFixed { alpha, red: v, green: v, blue: v }).saturation.is_zero(),
        hls_of(PixelFixed { alpha, red: v, green: v, blue: v }).lightness.same_value(
            Ratio { num: v as i64, den: 10000 },
        ),
{
}

/// Alpha passes through the conversion unchanged.
pub proof fn lemma_alpha_passes_through(c: PixelFixed)
    ensures
        hls_of(c).alpha.same_value(Ratio { num: c.alpha as i64, den: 10000 }),
{
}

/// Of a colour in the nominal range, every converted component lies in
/// `[0, 1]`, and the hue below a full turn.
pub proof fn lemma_hls_in_unit_range(c: PixelFixed)
    requires
        c.in_range(),
    ensures
        hls_of(c).wf(),
{
}

} // verus!
