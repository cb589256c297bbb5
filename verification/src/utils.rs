//! Clamping and depth conversion of channels and pixels.

use vstd::prelude::*;
use crate::matcher::{channel_within, color_matches};
use crate::pixel::{
    Pixel8, Pixel16, PixelFixed, FIXED_ONE, HALF_CHANNEL16, HALF_CHANNEL8, MAX_CHANNEL16,
    MAX_CHANNEL8,
};

verus! {

/// `x` limited to the closed interval `[lo, hi]`.
pub open spec fn clamp(x: int, lo: int, hi: int) -> int {
    if x < lo {
        lo
    } else if x > hi {
        hi
    } else {
        x
    }
}

/// The absolute value of `x`.
pub fn abs(x: i64) -> (r: i64)
    requires
        x != i64::MIN,
    ensures
        r >= 0,
        r == x || r == -x,
        r == (if x >= 0 { x as int } else { -x }),
{
    if x >= 0 {
        x
    } else {
        -x
    }
}

/// Whether every colour channel of `s` is within `lv` of that of `d`.
pub fn comp_pix8_lv(s: &Pixel8, d: &Pixel8, lv: u8) -> (r: bool)
    ensures
        r == color_matches(*s, *d, lv),
{
    channel_within(s.blue, d.blue, lv) && channel_within(s.green, d.green, lv) && channel_within(
        s.red,
        d.red,
        lv,
    )
}

/// Clamps an integer to the range of an 8-bit channel.
pub fn round_byte_long(x: i32) -> (r: u8)
    ensures
        r == clamp(x as int, 0, MAX_CHANNEL8 as int),
{
    if x < 0 {
        0
    } else if x > 255 {
        255
    } else {
        x as u8
    }
}

/// Clamps an integer to the range of a 16-bit channel.
pub fn round_short(x: i32) -> (r: u16)
    ensures
        r == clamp(x as int, 0, MAX_CHANNEL16 as int),
{
    if x < 0 {
        0
    } else if x > 32768 {
        32768
    } else {
        x as u16
    }
}

/// The 8-bit value nearest to a 16-bit channel value `a`, scaled from
/// `[0, 32768]` to `[0, 255]` and clamped.
pub open spec fn channel_16_to_8(a: int) -> int {
    clamp((a * MAX_CHANNEL8 + HALF_CHANNEL16) / (MAX_CHANNEL16 as int), 0, MAX_CHANNEL8 as int)
}

/// The 16-bit value nearest to an 8-bit channel value `a`, scaled from
/// `[0, 255]` to `[0, 32768]` and clamped.
pub open spec fn channel_8_to_16(a: int) -> int {
    clamp((a * MAX_CHANNEL16 + HALF_CHANNEL8) / (MAX_CHANNEL8 as int), 0, MAX_CHANNEL16 as int)
}

/// Converts one 16-bit channel to 8 bits, rounding to nearest.
pub fn convert_16_to_8(a: u16) -> (r: u8)
    ensures
        r == channel_16_to_8(a as int),
{
    let scaled: u32 = (a as u32 * MAX_CHANNEL8 + HALF_CHANNEL16) / MAX_CHANNEL16;
    if scaled > MAX_CHANNEL8 {
        255
    } else {
        scaled as u8
    }
}

/// Converts one 8-bit channel to 16 bits, rounding to nearest.
pub fn convert_8_to_16(a: u8) -> (r: u16)
    ensures
        r == channel_8_to_16(a as int),
        r <= MAX_CHANNEL16,
{
    let scaled: u32 = (a as u32 * MAX_CHANNEL16 + HALF_CHANNEL8) / MAX_CHANNEL8;
    if scaled > MAX_CHANNEL16 {
        32768
    } else {
        scaled as u16
    }
}

/// The 8-bit pixel that a 16-bit pixel converts to, channel by channel.
pub open spec fn pixel_16_to_8(p: Pixel16) -> Pixel8 {
    Pixel8 {
        alpha: channel_16_to_8(p.alpha as int) as u8,
        red: channel_16_to_8(p.red as int) as u8,
        green: channel_16_to_8(p.green as int) as u8,
        blue: channel_16_to_8(p.blue as int) as u8,
    }
}

/// The 16-bit pixel that an 8-bit pixel converts to, channel by channel.
pub open spec fn pixel_8_to_16(p: Pixel8) -> Pixel16 {
    Pixel16 {
        alpha: channel_8_to_16(p.alpha as int) as u16,
        red: channel_8_to_16(p.red as int) as u16,
        green: channel_8_to_16(p.green as int) as u16,
        blue: channel_8_to_16(p.blue as int) as u16,
    }
}

/// Converts a 16-bit pixel to 8 bits per channel.
pub fn conv_16_to_8(p: &Pixel16) -> (r: Pixel8)
    ensures
        r == pixel_16_to_8(*p),
{
    Pixel8 {
        alpha: convert_16_to_8(p.alpha),
        red: convert_16_to_8(p.red),
        green: convert_16_to_8(p.green),
        blue: convert_16_to_8(p.blue),
    }
}

/// Converts an 8-bit pixel to 16 bits per channel.
pub fn conv_8_to_16(p: &Pixel8) -> (r: Pixel16)
    ensures
        r == pixel_8_to_16(*p),
        r.in_range(),
{
    Pixel16 {
        alpha: convert_8_to_16(p.alpha),
        red: convert_8_to_16(p.red),
        green: convert_8_to_16(p.green),
        blue: convert_8_to_16(p.blue),
    }
}

/// The fixed-point value of an 8-bit channel value `a`: `a / 255` rounded
/// to the nearest ten-thousandth, halves upward. This is
/// `floor(a * 10000 / 255 + 1/2)`, with numerator and denominator doubled.
pub open spec fn channel_8_to_fixed(a: int) -> int {
    (20000 * a + 255) / 510
}

/// The 8-bit value of a fixed-point channel value `k`: `k * 255 / 10000`
/// rounded to the nearest integer, halves upward, and clamped. This is
/// `floor(k / 10000 * 255 + 1/2)`, with numerator and denominator doubled.
pub open spec fn channel_fixed_to_8(k: int) -> int {
    clamp((510 * k + 10000) / 20000, 0, 255)
}

/// Converts one 8-bit channel to fixed point.
pub fn convert_8_to_fixed(a: u8) -> (r: i32)
    ensures
        r == channel_8_to_fixed(a as int),
        0 <= r <= FIXED_ONE,
{
    let scaled: u32 = (20000 * (a as u32) + 255) / 510;
    scaled as i32
}

/// Converts one fixed-point channel to 8 bits.
pub fn convert_fixed_to_8(k: i32) -> (r: u8)
    ensures
        r == channel_fixed_to_8(k as int),
{
    if k <= 0 {
        0
    } else {
        let scaled: i64 = (510 * (k as i64) + 10000) / 20000;
        if scaled > 255 {
            255
        } else {
            scaled as u8
        }
    }
}

/// The fixed-point pixel that an 8-bit pixel converts to.
pub open spec fn pixel_8_to_fixed(p: Pixel8) -> PixelFixed {
    PixelFixed {
        alpha: channel_8_to_fixed(p.alpha as int) as i32,
        red: channel_8_to_fixed(p.red as int) as i32,
        green: channel_8_to_fixed(p.green as int) as i32,
        blue: channel_8_to_fixed(p.blue as int) as i32,
    }
}

/// The 8-bit pixel that a fixed-point pixel converts to.
pub open spec fn pixel_fixed_to_8(p: PixelFixed) -> Pixel8 {
    Pixel8 {
        alpha: channel_fixed_to_8(p.alpha as int) as u8,
        red: channel_fixed_to_8(p.red as int) as u8,
        green: channel_fixed_to_8(p.green as int) as u8,
        blue: channel_fixed_to_8(p.blue as int) as u8,
    }
}

/// Converts a high-precision pixel to 8 bits per channel.
pub fn conv_32_to_8(p: &PixelFixed) -> (r: Pixel8)
    ensures
        r == pixel_fixed_to_8(*p),
{
    Pixel8 {
        alpha: convert_fixed_to_8(p.alpha),
        red: convert_fixed_to_8(p.red),
        green: convert_fixed_to_8(p.green),
        blue: convert_fixed_to_8(p.blue),
    }
}

/// Converts an 8-bit pixel to the high-precision representation, quantised
/// to four decimal digits.
pub fn conv_8_to_32(p: &Pixel8) -> (r: PixelFixed)
    ensures
        r == pixel_8_to_fixed(*p),
        r.in_range(),
{
    PixelFixed {
        alpha: convert_8_to_fixed(p.alpha),
        red: convert_8_to_fixed(p.red),
        green: convert_8_to_fixed(p.green),
        blue: convert_8_to_fixed(p.blue),
    }
}

/// An 8-bit channel survives the trip to fixed point and back unchanged.
pub proof fn lemma_channel_fixed_round_trip(a: u8)
    ensures
        channel_fixed_to_8(channel_8_to_fixed(a as int)) == a,
{
}

/// An 8-bit pixel survives the trip to the high-precision representation
/// and back unchanged, in spite of the quantisation on the way.
pub proof fn lemma_pixel_fixed_round_trip(p: Pixel8)
    ensures
        pixel_fixed_to_8(pixel_8_to_fixed(p)) == p,
{
    lemma_channel_fixed_round_trip(p.alpha);
    lemma_channel_fixed_round_trip(p.red);
    lemma_channel_fixed_round_trip(p.green);
    lemma_channel_fixed_round_trip(p.blue);
}

/// An 8-bit channel survives the trip to 16 bits and back unchanged.
pub proof fn lemma_channel_16_round_trip(a: u8)
    ensures
        channel_16_to_8(channel_8_to_16(a as int)) == a,
{
}

/// An 8-bit pixel survives the trip to 16 bits and back unchanged.
pub proof fn lemma_pixel_16_round_trip(p: Pixel8)
    ensures
        pixel_16_to_8(pixel_8_to_16(p)) == p,
{
    lemma_channel_16_round_trip(p.alpha);
    lemma_channel_16_round_trip(p.red);
    lemma_channel_16_round_trip(p.green);
    lemma_channel_16_round_trip(p.blue);
}

/// Both conversions from 8 bits keep the order of channel values, and map
/// the ends of the 8-bit range to the ends of the target range.
pub proof fn lemma_conversions_monotone(a: u8, b: u8)
    requires
        a <= b,
    ensures
        channel_8_to_16(a as int) <= channel_8_to_16(b as int),
        channel_8_to_fixed(a as int) <= channel_8_to_fixed(b as int),
        channel_8_to_16(0) == 0,
        channel_8_to_16(255) == MAX_CHANNEL16,
        channel_8_to_fixed(0) == 0,
        channel_8_to_fixed(255) == FIXED_ONE,
{
}

} // verus!
