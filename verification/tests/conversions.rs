use fs_rs::pixel::{Pixel16, Pixel8, PixelFixed};
use fs_rs::utils::{
    abs, comp_pix8_lv, conv_16_to_8, conv_32_to_8, conv_8_to_16, conv_8_to_32, convert_16_to_8,
    convert_8_to_16, convert_8_to_fixed, convert_fixed_to_8, round_byte_long, round_short,
};

fn gray8(v: u8) -> Pixel8 {
    Pixel8 { alpha: v, red: v, green: v, blue: v }
}

#[test]
fn sixteen_to_eight_uses_half_bias() {
    assert_eq!(convert_16_to_8(32768), 255);
    assert_eq!(convert_16_to_8(0), 0);
    assert_eq!(convert_16_to_8(16384), 128);
}

#[test]
fn sixteen_to_eight_edges() {
    assert_eq!(convert_16_to_8(64), 0);
    assert_eq!(convert_16_to_8(32767), 255);
    assert_eq!(convert_16_to_8(65535), 255);
}

#[test]
fn eight_to_sixteen_values() {
    assert_eq!(convert_8_to_16(0), 0);
    assert_eq!(convert_8_to_16(1), 129);
    assert_eq!(convert_8_to_16(128), 16448);
    assert_eq!(convert_8_to_16(254), 32640);
    assert_eq!(convert_8_to_16(255), 32768);
}

#[test]
fn eight_to_fixed_is_quantised_to_four_digits() {
    assert_eq!(convert_8_to_fixed(0), 0);
    assert_eq!(convert_8_to_fixed(1), 39);
    assert_eq!(convert_8_to_fixed(64), 2510);
    assert_eq!(convert_8_to_fixed(127), 4980);
    assert_eq!(convert_8_to_fixed(128), 5020);
    assert_eq!(convert_8_to_fixed(254), 9961);
    assert_eq!(convert_8_to_fixed(255), 10000);
}

#[test]
fn fixed_to_eight_rounds_half_up_and_clamps() {
    assert_eq!(convert_fixed_to_8(-1), 0);
    assert_eq!(convert_fixed_to_8(i32::MIN), 0);
    assert_eq!(convert_fixed_to_8(0), 0);
    assert_eq!(convert_fixed_to_8(19), 0);
    assert_eq!(convert_fixed_to_8(20), 1);
    assert_eq!(convert_fixed_to_8(5020), 128);
    assert_eq!(convert_fixed_to_8(9961), 254);
    assert_eq!(convert_fixed_to_8(10000), 255);
    assert_eq!(convert_fixed_to_8(20000), 255);
    assert_eq!(convert_fixed_to_8(i32::MAX), 255);
}

#[test]
fn every_channel_value_survives_fixed_round_trip() {
    for v in 0..=255u8 {
        assert_eq!(convert_fixed_to_8(convert_8_to_fixed(v)), v);
    }
}

#[test]
fn every_channel_value_survives_sixteen_bit_round_trip() {
    for v in 0..=255u8 {
        assert_eq!(convert_16_to_8(convert_8_to_16(v)), v);
    }
}

#[test]
fn pixel_round_trips() {
    let p = Pixel8 { alpha: 200, red: 1, green: 127, blue: 254 };
    assert_eq!(conv_32_to_8(&conv_8_to_32(&p)), p);
    assert_eq!(conv_16_to_8(&conv_8_to_16(&p)), p);
}

#[test]
fn pixel_conversions_work_channel_by_channel() {
    let p = Pixel8 { alpha: 255, red: 0, green: 128, blue: 1 };
    assert_eq!(
        conv_8_to_16(&p),
        Pixel16 { alpha: 32768, red: 0, green: 16448, blue: 129 }
    );
    assert_eq!(
        conv_8_to_32(&p),
        PixelFixed { alpha: 10000, red: 0, green: 5020, blue: 39 }
    );
    let q = Pixel16 { alpha: 32768, red: 16384, green: 0, blue: 65535 };
    assert_eq!(conv_16_to_8(&q), Pixel8 { alpha: 255, red: 128, green: 0, blue: 255 });
    let f = PixelFixed { alpha: 12000, red: -3, green: 5020, blue: 20 };
    assert_eq!(conv_32_to_8(&f), Pixel8 { alpha: 255, red: 0, green: 128, blue: 1 });
}

#[test]
fn clamps_to_channel_ranges() {
    assert_eq!(round_byte_long(-5), 0);
    assert_eq!(round_byte_long(0), 0);
    assert_eq!(round_byte_long(77), 77);
    assert_eq!(round_byte_long(255), 255);
    assert_eq!(round_byte_long(300), 255);
    assert_eq!(round_short(-1), 0);
    assert_eq!(round_short(12345), 12345);
    assert_eq!(round_short(32768), 32768);
    assert_eq!(round_short(40000), 32768);
}

#[test]
fn absolute_value() {
    assert_eq!(abs(0), 0);
    assert_eq!(abs(17), 17);
    assert_eq!(abs(-17), 17);
    assert_eq!(abs(i64::MAX), i64::MAX);
}

#[test]
fn comp_pix8_lv_compares_colour_channels_only() {
    let a = Pixel8 { alpha: 0, red: 10, green: 20, blue: 30 };
    let b = Pixel8 { alpha: 255, red: 15, green: 15, blue: 35 };
    assert!(comp_pix8_lv(&a, &b, 5));
    assert!(!comp_pix8_lv(&a, &b, 4));
    assert!(comp_pix8_lv(&gray8(9), &gray8(9), 0));
    assert!(!comp_pix8_lv(&gray8(9), &gray8(10), 0));
}
