use ascii_raster::tone::{
    glyph_for, glyph_index, palette_glyph, tone_index, ColorScheme, DARK_THRESHOLD, PALETTE_LEN,
};

#[test]
fn black_maps_to_first_level_and_white_to_last() {
    for n in 1..=64usize {
        assert_eq!(tone_index(0, n), 0);
        assert_eq!(tone_index(255, n), n - 1);
    }
}

#[test]
fn levels_never_decrease_with_brightness() {
    for n in [1usize, 2, 3, 10, 27, 256, 1000] {
        let mut last = 0;
        for p in 0..=255u8 {
            let level = tone_index(p, n);
            assert!(level >= last);
            assert!(level <= n - 1);
            last = level;
        }
    }
}

#[test]
fn levels_are_the_rounded_linear_map() {
    for n in [1usize, 2, 10, 27, 300] {
        for p in 0..=255u8 {
            let exact = (p as f64) * ((n - 1) as f64) / 255.0;
            assert_eq!(tone_index(p, n), exact.round() as usize);
        }
    }
}

#[test]
fn mid_grey_maps_to_level_five_of_ten() {
    assert_eq!(tone_index(128, 10), 5);
    assert_eq!(tone_index(127, 10), 4);
    assert_eq!(tone_index(14, 10), 0);
    assert_eq!(tone_index(15, 10), 1);
    assert_eq!(tone_index(240, 10), 8);
    assert_eq!(tone_index(241, 10), 9);
}

#[test]
fn a_palette_of_one_glyph_has_one_level() {
    for p in 0..=255u8 {
        assert_eq!(tone_index(p, 1), 0);
        assert_eq!(glyph_index(p, 1, true), 0);
    }
}

#[test]
fn dark_canvas_mirrors_the_level() {
    for n in [1usize, 2, 10, 27] {
        for p in 0..=255u8 {
            assert_eq!(glyph_index(p, n, false), tone_index(p, n));
            assert_eq!(glyph_index(p, n, true), (n - 1) - glyph_index(p, n, false));
        }
    }
}

#[test]
fn palette_runs_from_dense_to_sparse() {
    let glyphs: Vec<char> = (0..PALETTE_LEN).map(palette_glyph).collect();
    assert_eq!(glyphs, vec!['@', '%', '#', '?', '+', '=', ':', '-', '.', ' ']);
}

#[test]
fn glyphs_follow_brightness_and_scheme() {
    assert_eq!(glyph_for(0, ColorScheme::DarkOnLight), '@');
    assert_eq!(glyph_for(255, ColorScheme::DarkOnLight), ' ');
    assert_eq!(glyph_for(128, ColorScheme::DarkOnLight), '=');
    assert_eq!(glyph_for(0, ColorScheme::LightOnDark), ' ');
    assert_eq!(glyph_for(255, ColorScheme::LightOnDark), '@');
    assert_eq!(glyph_for(128, ColorScheme::LightOnDark), '+');
}

#[test]
fn scheme_flips_below_the_threshold() {
    assert_eq!(DARK_THRESHOLD, 110);
    assert_eq!(ColorScheme::for_brightness(110), ColorScheme::DarkOnLight);
    assert_eq!(ColorScheme::for_brightness(109), ColorScheme::LightOnDark);
    assert_eq!(ColorScheme::for_brightness(0), ColorScheme::LightOnDark);
    assert_eq!(ColorScheme::for_brightness(255), ColorScheme::DarkOnLight);
    assert_eq!(ColorScheme::for_brightness(128), ColorScheme::DarkOnLight);
}

#[test]
fn every_scheme_uses_both_extremes() {
    for brightness in 0..=255u8 {
        let scheme = ColorScheme::for_brightness(brightness);
        assert_ne!(scheme.background(), scheme.glyph());
        assert!(scheme.background() == 0 || scheme.background() == 255);
        assert!(scheme.glyph() == 0 || scheme.glyph() == 255);
        assert_eq!(scheme.is_dark(), scheme.background() == 0);
    }
    assert_eq!(ColorScheme::DarkOnLight.background(), 255);
    assert_eq!(ColorScheme::DarkOnLight.glyph(), 0);
    assert_eq!(ColorScheme::LightOnDark.background(), 0);
    assert_eq!(ColorScheme::LightOnDark.glyph(), 255);
}
