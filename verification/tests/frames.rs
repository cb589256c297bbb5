use fs_rs::colorchange::ColorChange;
use fs_rs::colorchangesimple::ColorChangeSimple;
use fs_rs::colorkey::ColorKey;
use fs_rs::colorselect::ColorSelect;
use fs_rs::keying::KeyingCurveParams;
use fs_rs::opticaldiffusion::OpticalDiffusion;
use fs_rs::pixel::{GenericPixel, Pixel16, Pixel8, PixelFixed, RenderError};
use fs_rs::render::Effect;
use fs_rs::substitution::{ColorPair, Rule, SubstitutionSet};

fn eight(alpha: u8, red: u8, green: u8, blue: u8) -> GenericPixel {
    GenericPixel::Depth8(Pixel8 { alpha, red, green, blue })
}

fn sixteen(alpha: u16, red: u16, green: u16, blue: u16) -> GenericPixel {
    GenericPixel::Depth16(Pixel16 { alpha, red, green, blue })
}

fn key() -> Effect {
    Effect::ColorKey(ColorKey {
        threshold: 0,
        key_color: Pixel8 { alpha: 255, red: 255, green: 255, blue: 255 },
        back_color: Pixel8 { alpha: 255, red: 9, green: 8, blue: 7 },
    })
}

#[test]
fn frame_is_rendered_pixel_by_pixel() {
    let input = vec![
        eight(255, 255, 255, 255),
        eight(255, 254, 255, 255),
        eight(10, 255, 255, 255),
        eight(255, 0, 0, 0),
    ];
    let output = key().render(&input);
    assert_eq!(
        output,
        vec![
            eight(0, 9, 8, 7),
            eight(255, 254, 255, 255),
            eight(0, 9, 8, 7),
            eight(255, 0, 0, 0),
        ]
    );
    assert_eq!(key().render(&vec![]), vec![]);
}

#[test]
fn frame_rendered_into_a_buffer_keeps_what_was_not_matched() {
    let input = vec![eight(255, 255, 255, 255), eight(255, 1, 2, 3)];
    let mut output = vec![eight(50, 60, 70, 80), eight(51, 61, 71, 81)];
    assert_eq!(key().render_into(&input, &mut output), Ok(()));
    assert_eq!(output, vec![eight(0, 9, 8, 7), eight(51, 61, 71, 81)]);
}

#[test]
fn frame_of_another_representation_is_refused_at_the_first_mismatch() {
    let input = vec![eight(255, 255, 255, 255), eight(255, 255, 255, 255), eight(255, 255, 255, 255)];
    let mut output = vec![eight(1, 1, 1, 1), sixteen(2, 2, 2, 2), eight(3, 3, 3, 3)];
    assert_eq!(
        key().render_into(&input, &mut output),
        Err(RenderError::UnsupportedPixelFormat)
    );
    assert_eq!(output, vec![eight(0, 9, 8, 7), sixteen(2, 2, 2, 2), eight(3, 3, 3, 3)]);
}

#[test]
fn frames_of_each_representation_render_in_their_own() {
    let change = Effect::ColorChangeSimple(ColorChangeSimple {
        level: 1,
        pair: ColorPair {
            source: Pixel8 { alpha: 255, red: 128, green: 128, blue: 128 },
            destination: Pixel8 { alpha: 255, red: 255, green: 0, blue: 128 },
        },
    });
    let input = vec![
        sixteen(77, 16384, 16500, 16300),
        GenericPixel::Fixed(PixelFixed { alpha: 77, red: 5020, green: 5000, blue: 5050 }),
        eight(77, 128, 129, 127),
        eight(77, 128, 130, 127),
    ];
    assert_eq!(
        change.render(&input),
        vec![
            sixteen(77, 32768, 0, 16448),
            GenericPixel::Fixed(PixelFixed { alpha: 77, red: 10000, green: 0, blue: 5020 }),
            eight(77, 255, 0, 128),
            eight(77, 128, 130, 127),
        ]
    );
}

#[test]
fn every_effect_renders_frames() {
    let mut rules = SubstitutionSet::new();
    rules.push(Rule {
        enabled: true,
        pair: ColorPair {
            source: Pixel8 { alpha: 255, red: 255, green: 0, blue: 0 },
            destination: Pixel8 { alpha: 255, red: 0, green: 0, blue: 255 },
        },
    });
    let change = Effect::ColorChange(ColorChange { level: 25, rules });
    assert_eq!(change.render(&vec![eight(9, 240, 5, 3)]), vec![eight(9, 0, 0, 255)]);

    let select = Effect::ColorSelect(ColorSelect {
        target_color: Pixel8 { alpha: 255, red: 0, green: 255, blue: 0 },
        level: 0,
        invert: true,
    });
    assert_eq!(
        select.render(&vec![eight(9, 0, 255, 0), eight(9, 0, 254, 0)]),
        vec![eight(0, 255, 255, 255), eight(9, 0, 254, 0)]
    );

    let diffusion = Effect::OpticalDiffusion(OpticalDiffusion::new(
        true,
        KeyingCurveParams {
            black_point: 64,
            white_point: 128,
            black_softness: 64,
            white_softness: 64,
            invert: false,
        },
        0,
        &vec![],
    ));
    assert_eq!(
        diffusion.render(&vec![eight(255, 160, 160, 160), sixteen(5, 6, 7, 8)]),
        vec![eight(128, 160, 160, 160), sixteen(5, 6, 7, 8)]
    );
}
