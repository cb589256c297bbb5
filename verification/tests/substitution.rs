use fs_rs::colorchange::ColorChange;
use fs_rs::colorchangesimple::ColorChangeSimple;
use fs_rs::colorkey::ColorKey;
use fs_rs::pixel::{GenericPixel, Pixel16, Pixel8, PixelFixed, RenderError};
use fs_rs::substitution::{apply_pair, ColorPair, Rule, SubstitutionSet};

fn rgb(red: u8, green: u8, blue: u8) -> Pixel8 {
    Pixel8 { alpha: 255, red, green, blue }
}

fn rule(enabled: bool, source: Pixel8, destination: Pixel8) -> Rule {
    Rule { enabled, pair: ColorPair { source, destination } }
}

fn set_of(rules: Vec<Rule>) -> SubstitutionSet {
    let mut set = SubstitutionSet::new();
    for r in rules {
        assert!(set.push(r));
    }
    set
}

#[test]
fn colorkey_exact_match_becomes_transparent_background() {
    let key = ColorKey {
        threshold: 0,
        key_color: rgb(255, 255, 255),
        back_color: Pixel8 { alpha: 255, red: 10, green: 20, blue: 30 },
    };
    let pixel = GenericPixel::Depth8(rgb(255, 255, 255));
    let mut out = pixel;
    assert_eq!(key.render_pixel(&pixel, &mut out), Ok(()));
    assert_eq!(
        out,
        GenericPixel::Depth8(Pixel8 { alpha: 0, red: 10, green: 20, blue: 30 })
    );
}

#[test]
fn colorkey_near_miss_at_zero_threshold_is_unchanged() {
    let key = ColorKey {
        threshold: 0,
        key_color: rgb(255, 255, 255),
        back_color: rgb(0, 0, 0),
    };
    let pixel = GenericPixel::Depth8(rgb(254, 255, 255));
    let mut out = pixel;
    assert_eq!(key.render_pixel(&pixel, &mut out), Ok(()));
    assert_eq!(out, pixel);
}

#[test]
fn colorkey_zeroes_alpha_in_every_representation() {
    let key = ColorKey {
        threshold: 2,
        key_color: rgb(255, 255, 255),
        back_color: rgb(255, 0, 128),
    };
    let sixteen = GenericPixel::Depth16(Pixel16 { alpha: 32768, red: 32768, green: 32700, blue: 32600 });
    let mut out16 = sixteen;
    assert_eq!(key.render_pixel(&sixteen, &mut out16), Ok(()));
    assert_eq!(
        out16,
        GenericPixel::Depth16(Pixel16 { alpha: 0, red: 32768, green: 0, blue: 16448 })
    );
    let pf = GenericPixel::Fixed(PixelFixed { alpha: 10000, red: 10000, green: 9990, blue: 9950 });
    let mut outf = pf;
    assert_eq!(key.render_pixel(&pf, &mut outf), Ok(()));
    assert_eq!(
        outf,
        GenericPixel::Fixed(PixelFixed { alpha: 0, red: 10000, green: 0, blue: 5020 })
    );
}

#[test]
fn colorchange_within_ten_percent_takes_destination() {
    let change = ColorChange {
        level: 25,
        rules: set_of(vec![rule(true, rgb(255, 0, 0), rgb(1, 2, 3))]),
    };
    let pixel = GenericPixel::Depth8(Pixel8 { alpha: 77, red: 240, green: 5, blue: 3 });
    let mut out = pixel;
    assert_eq!(change.render_pixel(&pixel, &mut out), Ok(()));
    assert_eq!(
        out,
        GenericPixel::Depth8(Pixel8 { alpha: 77, red: 1, green: 2, blue: 3 })
    );
}

#[test]
fn earliest_enabled_matching_slot_wins() {
    let set = set_of(vec![
        rule(true, rgb(100, 100, 100), rgb(1, 1, 1)),
        rule(true, rgb(0, 0, 0), rgb(2, 2, 2)),
        rule(true, rgb(101, 101, 101), rgb(3, 3, 3)),
    ]);
    let pixel = rgb(100, 101, 100);
    assert_eq!(set.find_match(&pixel, 2), Some(0));
    assert_eq!(set.resolve(&pixel, 2), Some(rgb(1, 1, 1)));
    let mut out = pixel;
    set.apply8(2, false, &pixel, &mut out);
    assert_eq!(out, rgb(1, 1, 1));
}

#[test]
fn disabled_slots_are_skipped() {
    let set = set_of(vec![
        rule(false, rgb(100, 100, 100), rgb(1, 1, 1)),
        rule(true, rgb(0, 0, 0), rgb(2, 2, 2)),
        rule(true, rgb(101, 101, 101), rgb(3, 3, 3)),
    ]);
    let pixel = rgb(100, 101, 100);
    assert_eq!(set.find_match(&pixel, 2), Some(2));
    assert_eq!(set.resolve(&pixel, 2), Some(rgb(3, 3, 3)));
}

#[test]
fn no_matching_rule_passes_pixel_through() {
    let set = set_of(vec![
        rule(true, rgb(100, 100, 100), rgb(1, 1, 1)),
        rule(false, rgb(9, 9, 9), rgb(2, 2, 2)),
    ]);
    let pixel = Pixel8 { alpha: 3, red: 9, green: 9, blue: 9 };
    assert_eq!(set.find_match(&pixel, 0), None);
    assert_eq!(set.resolve(&pixel, 0), None);
    let mut out = pixel;
    set.apply8(0, false, &pixel, &mut out);
    assert_eq!(out, pixel);
    let empty = SubstitutionSet::new();
    assert_eq!(empty.resolve(&pixel, 255), None);
}

#[test]
fn sixteen_bit_pixels_are_matched_in_eight_bit_space() {
    let set = set_of(vec![rule(true, rgb(128, 0, 255), rgb(255, 128, 0))]);
    let pixel = Pixel16 { alpha: 1234, red: 16384, green: 0, blue: 32768 };
    let mut out = pixel;
    set.apply16(0, false, &pixel, &mut out);
    assert_eq!(out, Pixel16 { alpha: 1234, red: 32768, green: 16448, blue: 0 });
    let miss = Pixel16 { alpha: 1234, red: 16600, green: 0, blue: 32768 };
    let mut out = miss;
    set.apply16(0, false, &miss, &mut out);
    assert_eq!(out, miss);
}

#[test]
fn fixed_point_pixels_are_matched_in_eight_bit_space() {
    let set = set_of(vec![rule(true, rgb(128, 0, 255), rgb(255, 128, 1))]);
    let pixel = PixelFixed { alpha: 4321, red: 5020, green: -7, blue: 12000 };
    let mut out = pixel;
    set.apply_fixed(0, false, &pixel, &mut out);
    assert_eq!(out, PixelFixed { alpha: 4321, red: 10000, green: 5020, blue: 39 });
    let mut keyed = pixel;
    set.apply_fixed(0, true, &pixel, &mut keyed);
    assert_eq!(keyed, PixelFixed { alpha: 0, red: 10000, green: 5020, blue: 39 });
}

#[test]
fn output_pixel_need_not_be_a_copy_of_the_input() {
    let set = set_of(vec![rule(true, rgb(5, 5, 5), rgb(9, 8, 7))]);
    let pixel = rgb(5, 5, 5);
    let mut out = Pixel8 { alpha: 42, red: 200, green: 201, blue: 202 };
    set.apply8(0, false, &pixel, &mut out);
    assert_eq!(out, Pixel8 { alpha: 42, red: 9, green: 8, blue: 7 });
    let other = rgb(6, 5, 5);
    let mut out = Pixel8 { alpha: 42, red: 200, green: 201, blue: 202 };
    set.apply8(0, false, &other, &mut out);
    assert_eq!(out, Pixel8 { alpha: 42, red: 200, green: 201, blue: 202 });
}

#[test]
fn mismatched_representations_are_refused() {
    let change = ColorChange {
        level: 255,
        rules: set_of(vec![rule(true, rgb(0, 0, 0), rgb(1, 2, 3))]),
    };
    let pixel = GenericPixel::Depth8(rgb(0, 0, 0));
    let before = GenericPixel::Depth16(Pixel16 { alpha: 1, red: 2, green: 3, blue: 4 });
    let mut out = before;
    assert_eq!(
        change.render_pixel(&pixel, &mut out),
        Err(RenderError::UnsupportedPixelFormat)
    );
    assert_eq!(out, before);
    let simple = ColorChangeSimple {
        level: 255,
        pair: ColorPair { source: rgb(0, 0, 0), destination: rgb(1, 2, 3) },
    };
    let fixed = GenericPixel::Fixed(PixelFixed { alpha: 0, red: 0, green: 0, blue: 0 });
    let mut out = before;
    assert_eq!(
        simple.render_pixel(&fixed, &mut out),
        Err(RenderError::UnsupportedPixelFormat)
    );
    assert_eq!(out, before);
}

#[test]
fn single_rule_variant_behaves_as_set_of_one() {
    let pair = ColorPair { source: rgb(50, 60, 70), destination: rgb(7, 6, 5) };
    let simple = ColorChangeSimple { level: 3, pair };
    let change = ColorChange { level: 3, rules: SubstitutionSet::single(pair) };
    for red in [46u8, 47, 50, 53, 54] {
        let pixel = GenericPixel::Depth8(Pixel8 { alpha: 9, red, green: 60, blue: 70 });
        let mut a = pixel;
        let mut b = pixel;
        assert_eq!(simple.render_pixel(&pixel, &mut a), Ok(()));
        assert_eq!(change.render_pixel(&pixel, &mut b), Ok(()));
        assert_eq!(a, b);
        let mut c = pixel;
        assert_eq!(apply_pair(&pair, 3, false, &pixel, &mut c), Ok(()));
        assert_eq!(a, c);
    }
    let hit = GenericPixel::Depth8(Pixel8 { alpha: 9, red: 53, green: 60, blue: 70 });
    let mut out = hit;
    assert_eq!(simple.render_pixel(&hit, &mut out), Ok(()));
    assert_eq!(out, GenericPixel::Depth8(Pixel8 { alpha: 9, red: 7, green: 6, blue: 5 }));
}

#[test]
fn set_holds_at_most_eight_rules() {
    let mut set = SubstitutionSet::new();
    for i in 0..8u8 {
        assert!(set.push(rule(true, rgb(i, i, i), rgb(0, 0, 0))));
    }
    assert_eq!(set.len(), 8);
    assert!(!set.push(rule(true, rgb(9, 9, 9), rgb(0, 0, 0))));
    assert_eq!(set.len(), 8);
    assert_eq!(set.find_match(&rgb(9, 9, 9), 0), None);
    assert_eq!(set.find_match(&rgb(7, 7, 7), 0), Some(7));
}

#[test]
fn enabled_pairs_are_collected_in_slot_order() {
    let set = set_of(vec![
        rule(false, rgb(1, 1, 1), rgb(10, 10, 10)),
        rule(true, rgb(2, 2, 2), rgb(20, 20, 20)),
        rule(false, rgb(3, 3, 3), rgb(30, 30, 30)),
        rule(true, rgb(4, 4, 4), rgb(40, 40, 40)),
    ]);
    assert_eq!(
        set.collect_enabled_color_pairs(),
        vec![
            ColorPair { source: rgb(2, 2, 2), destination: rgb(20, 20, 20) },
            ColorPair { source: rgb(4, 4, 4), destination: rgb(40, 40, 40) },
        ]
    );
    assert_eq!(SubstitutionSet::new().collect_enabled_color_pairs(), vec![]);
}
