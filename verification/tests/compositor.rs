use ascii_tracer::fixed::{FX_CAP, FX_ONE};
use ascii_tracer::render::{char_index, palette, PixelBrightness};

const S: i128 = FX_ONE;

#[test]
fn palette_has_92_characters() {
    assert_eq!(palette().chars().count(), 92);
}

#[test]
fn background_maps_to_darkest_character() {
    let i = char_index(&PixelBrightness::Background);
    assert_eq!(i, 0);
    assert_eq!(palette().chars().nth(i).unwrap(), ' ');
}

#[test]
fn deeply_negative_brightness_maps_to_darkest_character() {
    assert_eq!(char_index(&PixelBrightness::Lit(-FX_CAP)), 0);
    assert_eq!(char_index(&PixelBrightness::Lit(-100 * S)), 0);
}

#[test]
fn huge_brightness_maps_to_last_character() {
    let i = char_index(&PixelBrightness::Lit(FX_CAP));
    assert_eq!(i, 91);
    assert_eq!(palette().chars().nth(i).unwrap(), '@');
}

#[test]
fn shadow_brightness_maps_to_its_calibrated_character() {
    // -7 maps through -7 * 2 + 18 = 4.
    let i = char_index(&PixelBrightness::Lit(-7 * S));
    assert_eq!(i, 4);
    assert_eq!(palette().chars().nth(i).unwrap(), '\'');
}

#[test]
fn affine_transform_is_exact_on_whole_values() {
    // b * 2 + 18 at b = 0, 1, 5, -1.
    assert_eq!(char_index(&PixelBrightness::Lit(0)), 18);
    assert_eq!(char_index(&PixelBrightness::Lit(S)), 20);
    assert_eq!(char_index(&PixelBrightness::Lit(5 * S)), 28);
    assert_eq!(char_index(&PixelBrightness::Lit(-S)), 16);
}

#[test]
fn fractional_brightness_truncates_downward() {
    // b = 0.5 gives exactly 19; just below it truncates to 18.
    assert_eq!(char_index(&PixelBrightness::Lit(S / 2)), 19);
    assert_eq!(char_index(&PixelBrightness::Lit(S / 2 - 100)), 18);
}

#[test]
fn mapping_is_monotone_on_samples() {
    let samples: Vec<i128> = vec![
        -FX_CAP,
        -100 * S,
        -7 * S,
        -S,
        -1,
        0,
        1,
        S / 2,
        S,
        5 * S,
        36 * S,
        37 * S,
        FX_CAP,
    ];
    let mut last = 0;
    for v in samples {
        let i = char_index(&PixelBrightness::Lit(v));
        assert!(i >= last, "index decreased at brightness {v}");
        last = i;
    }
}
