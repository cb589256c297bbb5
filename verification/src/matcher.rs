//! Colour matching under a per-channel tolerance.

use vstd::prelude::*;
use crate::pixel::Pixel8;

verus! {

/// The absolute difference of two channel values.
pub open spec fn channel_distance(a: u8, b: u8) -> int {
    if a >= b {
        a - b
    } else {
        b - a
    }
}

/// Whether every colour channel of `a` is within `level` of that of `b`.
/// Alpha takes no part. At level 0 this is equality of red, green and blue.
pub open spec fn color_matches(a: Pixel8, b: Pixel8, level: u8) -> bool {
    &&& channel_distance(a.red, b.red) <= level
    &&& channel_distance(a.green, b.green) <= level
    &&& channel_distance(a.blue, b.blue) <= level
}

/// Whether two channel values differ by at most `level`.
pub fn channel_within(a: u8, b: u8, level: u8) -> (r: bool)
    ensures
        r == (channel_distance(a, b) <= level),
{
    if a >= b {
        a - b <= level
    } else {
        b - a <= level
    }
}

/// Decides whether `a` and `b` are close enough under tolerance `level`.
pub fn matches(a: &Pixel8, b: &Pixel8, level: u8) -> (r: bool)
    ensures
        r == color_matches(*a, *b, level),
        level == 0 ==> r == (a.red == b.red && a.green == b.green && a.blue == b.blue),
{
    if level == 0 {
        a.red == b.red && a.green == b.green && a.blue == b.blue
    } else {
        channel_within(a.red, b.red, level) && channel_within(a.green, b.green, level)
            && channel_within(a.blue, b.blue, level)
    }
}

/// The tolerance on the 8-bit scale for a percentage given in tenths of a
/// percent: 255 times the percentage over 100, cut to its whole part, and
/// at most 255.
pub open spec fn level_of_tenths(tenths: int) -> int {
    let scaled = 255 * tenths / 1000;
    if scaled > 255 {
        255
    } else {
        scaled
    }
}

/// Computes the tolerance on the 8-bit scale from a percentage given in
/// tenths of a percent, the precision of the control.
pub fn level_from_tenths(tenths: u32) -> (level: u8)
    ensures
        level == level_of_tenths(tenths as int),
        tenths >= 1000 ==> level == 255,
{
    if tenths >= 1000 {
        255
    } else {
        let scaled: u32 = 255 * tenths / 1000;
        scaled as u8
    }
}

/// Matching does not depend on the order of the two colours.
pub proof fn lemma_matches_symmetric(a: Pixel8, b: Pixel8, level: u8)
    ensures
        color_matches(a, b, level) == color_matches(b, a, level),
{
}

/// Matching ignores alpha: changing it on either side changes nothing.
pub proof fn lemma_matches_ignores_alpha(a: Pixel8, b: Pixel8, level: u8, alpha_a: u8, alpha_b: u8)
    ensures
        color_matches(a, b, level) == color_matches(
            Pixel8 { alpha: alpha_a, ..a },
            Pixel8 { alpha: alpha_b, ..b },
            level,
        ),
{
}

/// A larger tolerance matches whatever a smaller one does.
pub proof fn lemma_matches_monotone(a: Pixel8, b: Pixel8, level: u8, wider: u8)
    requires
        level <= wider,
        color_matches(a, b, level),
    ensures
        color_matches(a, b, wider),
{
}

} // verus!
