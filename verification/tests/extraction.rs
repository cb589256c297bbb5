use fs_rs::extraction::{boost_from, distance, ExtractionSet};
use fs_rs::hls::{Ratio, HLSA};
use fs_rs::keying::KeyingCurveParams;
use fs_rs::opticaldiffusion::OpticalDiffusion;
use fs_rs::pixel::{GenericPixel, Pixel16, Pixel8, PixelFixed, RenderError};
use fs_rs::utils::conv_8_to_32;

fn rgb(red: u8, green: u8, blue: u8) -> Pixel8 {
    Pixel8 { alpha: 255, red, green, blue }
}

fn hls(red: u8, green: u8, blue: u8) -> HLSA {
    HLSA::rgb_to_hls(&conv_8_to_32(&rgb(red, green, blue)))
}

fn curve() -> KeyingCurveParams {
    KeyingCurveParams {
        black_point: 64,
        white_point: 128,
        black_softness: 64,
        white_softness: 64,
        invert: false,
    }
}

fn set_of(colors: &[HLSA], range: i32) -> ExtractionSet {
    let mut set = ExtractionSet::new(range);
    for c in colors {
        assert!(set.push(*c));
    }
    set
}

fn extract(effect: &OpticalDiffusion, pixel: Pixel8) -> Pixel8 {
    let mut out = pixel;
    effect.extract8(&pixel, &mut out);
    out
}

#[test]
fn distance_scales_the_reference() {
    let zero = Ratio { num: 0, den: 1 };
    let half = Ratio { num: 1, den: 2 };
    let third = Ratio { num: 20000, den: 60000 };
    assert_eq!(distance(&half, &zero), 0);
    assert_eq!(distance(&zero, &half), 32768);
    assert_eq!(distance(&half, &half), 32767);
    assert_eq!(distance(&third, &third), 21845);
    assert_eq!(distance(&Ratio { num: 1, den: 1 }, &zero), 1);
}

#[test]
fn boost_falls_with_lightness_distance() {
    let black = hls(0, 0, 0);
    assert_eq!(boost_from(&hls(128, 128, 128), &black, 0), Some(255));
    assert_eq!(boost_from(&hls(255, 255, 255), &black, 0), Some(254));
    let dark_green = hls(0, 64, 0);
    assert_eq!(boost_from(&hls(0, 255, 0), &dark_green, 70000), Some(127));
}

#[test]
fn range_bounds_hue_and_saturation() {
    let black = hls(0, 0, 0);
    assert_eq!(boost_from(&hls(255, 0, 0), &black, 0), None);
    assert_eq!(boost_from(&hls(255, 0, 0), &black, 1), Some(255));
    let dark_green = hls(0, 64, 0);
    assert_eq!(boost_from(&hls(0, 255, 0), &dark_green, 65535), Some(127));
    assert_eq!(boost_from(&hls(0, 255, 0), &dark_green, 65534), None);
    assert_eq!(boost_from(&hls(0, 255, 0), &dark_green, -1), None);
}

#[test]
fn lightness_window_is_exclusive() {
    let quarter = HLSA {
        hue: Ratio { num: 0, den: 1 },
        lightness: Ratio { num: 1, den: 4 },
        saturation: Ratio { num: 0, den: 1 },
        alpha: Ratio { num: 1, den: 1 },
    };
    let pixel = HLSA {
        hue: Ratio { num: 0, den: 1 },
        lightness: Ratio { num: 0, den: 1 },
        saturation: Ratio { num: 0, den: 1 },
        alpha: Ratio { num: 1, den: 1 },
    };
    assert_eq!(boost_from(&pixel, &quarter, 0), None);
    let nearer = HLSA { lightness: Ratio { num: 1, den: 2 }, ..pixel };
    assert_eq!(boost_from(&nearer, &quarter, 0), Some(0));
    let just_inside = HLSA { lightness: Ratio { num: 1, den: 8 }, ..quarter };
    assert_eq!(boost_from(&pixel, &just_inside, 0), Some(127));
}

#[test]
fn first_qualifying_reference_wins() {
    let black = hls(0, 0, 0);
    let dark_green = hls(0, 64, 0);
    let green = hls(0, 255, 0);
    assert_eq!(set_of(&[black, dark_green], 70000).chroma_boost(&green), Some(255));
    assert_eq!(set_of(&[dark_green, black], 70000).chroma_boost(&green), Some(127));
    assert_eq!(set_of(&[hls(255, 255, 255), dark_green], 70000).chroma_boost(&green), Some(127));
    assert_eq!(set_of(&[hls(255, 255, 255)], 70000).chroma_boost(&green), None);
    assert_eq!(set_of(&[], 70000).chroma_boost(&green), None);
}

#[test]
fn extraction_set_holds_at_most_eight_references() {
    let mut set = ExtractionSet::new(5);
    for _ in 0..8 {
        assert!(set.push(hls(1, 2, 3)));
    }
    assert!(!set.push(hls(1, 2, 3)));
    assert_eq!(set.len(), 8);
    assert_eq!(set.range, 5);
}

#[test]
fn keying_curve_scales_alpha_by_luma() {
    let effect = OpticalDiffusion::new(true, curve(), 0, &vec![]);
    assert_eq!(extract(&effect, rgb(255, 255, 255)).alpha, 0);
    assert_eq!(extract(&effect, rgb(128, 128, 128)).alpha, 255);
    assert_eq!(extract(&effect, rgb(160, 160, 160)).alpha, 128);
    assert_eq!(extract(&effect, rgb(100, 150, 200)).alpha, 204);
    assert_eq!(extract(&effect, rgb(10, 10, 10)).alpha, 39);
    let translucent = Pixel8 { alpha: 200, red: 100, green: 150, blue: 200 };
    assert_eq!(extract(&effect, translucent), translucent);
    let inverted = OpticalDiffusion::new(
        true,
        KeyingCurveParams { invert: true, ..curve() },
        0,
        &vec![],
    );
    assert_eq!(extract(&inverted, rgb(160, 160, 160)).alpha, 127);
}

#[test]
fn extraction_changes_alpha_only() {
    let effect = OpticalDiffusion::new(true, curve(), 0, &vec![]);
    let pixel = rgb(160, 161, 159);
    let out = extract(&effect, pixel);
    assert_eq!((out.red, out.green, out.blue), (160, 161, 159));
    assert_eq!(out.alpha, 128);
}

#[test]
fn boost_raises_alpha_but_never_lowers_it() {
    let with_black = OpticalDiffusion::new(true, curve(), 0, &vec![rgb(0, 0, 0)]);
    assert_eq!(extract(&with_black, rgb(255, 255, 255)).alpha, 254);
    assert_eq!(extract(&with_black, rgb(160, 160, 160)).alpha, 255);
    assert_eq!(extract(&with_black, rgb(10, 10, 10)).alpha, 255);
    assert_eq!(extract(&with_black, rgb(0, 255, 0)).alpha, 168);
    let with_dark_green = OpticalDiffusion::new(true, curve(), 70000, &vec![rgb(0, 64, 0)]);
    assert_eq!(extract(&with_dark_green, rgb(255, 255, 255)).alpha, 127);
    assert_eq!(extract(&with_dark_green, rgb(10, 10, 10)).alpha, 127);
    assert_eq!(extract(&with_dark_green, rgb(160, 160, 160)).alpha, 128);
    assert_eq!(extract(&with_dark_green, rgb(100, 150, 200)).alpha, 204);
    assert_eq!(extract(&with_dark_green, rgb(128, 128, 128)).alpha, 255);
}

#[test]
fn disabled_extraction_leaves_the_pixel() {
    let effect = OpticalDiffusion::new(false, curve(), 0, &vec![rgb(0, 0, 0)]);
    let pixel = rgb(255, 255, 255);
    assert_eq!(extract(&effect, pixel), pixel);
}

#[test]
fn at_most_eight_reference_colours_are_taken() {
    let colours: Vec<Pixel8> = (0..10u8).map(|i| rgb(i, i, i)).collect();
    let effect = OpticalDiffusion::new(true, curve(), 3, &colours);
    assert_eq!(effect.references.len(), 8);
    assert_eq!(effect.references.range, 3);
    assert_eq!(effect.references.colors[7], hls(7, 7, 7));
    let few = OpticalDiffusion::new(true, curve(), 3, &colours[..2].to_vec());
    assert_eq!(few.references.len(), 2);
    assert_eq!(few.references.colors[1], hls(1, 1, 1));
}

#[test]
fn only_eight_bit_frames_are_extracted() {
    let effect = OpticalDiffusion::new(true, curve(), 0, &vec![]);
    let white = GenericPixel::Depth8(rgb(255, 255, 255));
    let mut out = white;
    assert_eq!(effect.render_pixel(&white, &mut out), Ok(()));
    assert_eq!(out, GenericPixel::Depth8(Pixel8 { alpha: 0, red: 255, green: 255, blue: 255 }));
    let sixteen = GenericPixel::Depth16(Pixel16 { alpha: 32768, red: 32768, green: 32768, blue: 32768 });
    let mut out = sixteen;
    assert_eq!(effect.render_pixel(&sixteen, &mut out), Ok(()));
    assert_eq!(out, sixteen);
    let pf = GenericPixel::Fixed(PixelFixed { alpha: 10000, red: 10000, green: 10000, blue: 10000 });
    let mut out = pf;
    assert_eq!(effect.render_pixel(&pf, &mut out), Ok(()));
    assert_eq!(out, pf);
    let mut out = sixteen;
    assert_eq!(
        effect.render_pixel(&white, &mut out),
        Err(RenderError::UnsupportedPixelFormat)
    );
    assert_eq!(out, sixteen);
}
