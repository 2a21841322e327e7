use ascii_raster::compose::{compose, fits_canvas, CELL_HEIGHT, CELL_WIDTH, X_OFFSET, Y_OFFSET};
use ascii_raster::correct::{brighten, correct, correction};
use ascii_raster::error::RenderError;
use ascii_raster::font::{GlyphFont, FONT_SIZE};
use ascii_raster::luma::desaturate;
use ascii_raster::raster::{ColorImage, GrayImage};
use ascii_raster::render::{convert, render};
use ascii_raster::resample::{downscale, sample_brightness};
use ascii_raster::scale::ScaleFactor;
use ascii_raster::tone::{glyph_index, tone_index, ColorScheme};

/// A font of a single glyph, a filled box. At a height of 20 pixels the box
/// covers columns 2 to 9 and rows 2 to 15 to the right of and below the
/// anchor.
const BOX: &str = "000100000006004000020020676c7966000000000000006c0000002268656164\
     0000000000000090000000366868656100000000000000c800000024686d7478\
     00000000000000ec000000046c6f636100000000000000f0000000046d617870\
     00000000000000f40000000600010064000001f402bc00030000010101010064\
     000001900000000002bc0000fd4400000001000000010000000000005f0f3cf5\
     000003e8000000000000000000000000000000000064000001f402bc00000008\
     0002000000000000000100000320ff3800000258000000000000000000000000\
     00000000000000000000000102580064000000110000500000010000";
/// The box font without its table of horizontal metrics.
const NO_METRICS: &str = "000100000005004000020020676c7966000000000000005c0000002268656164\
     0000000000000080000000366868656100000000000000b8000000246c6f6361\
     00000000000000dc000000046d61787000000000000000e00000000600010064\
     000001f402bc00030000010101010064000001900000000002bc0000fd440000\
     0001000000010000000000005f0f3cf5000003e8000000000000000000000000\
     000000000064000001f402bc000000080002000000000000000100000320ff38\
     0000025800000000000000000000000000000000000000000000000100000011\
     0000500000010000";
/// The box font with a table of horizontal metrics that is cut short.
const SHORT_METRICS: &str = "000100000006004000020020676c7966000000000000006c0000002268656164\
     0000000000000090000000366868656100000000000000c800000024686d7478\
     00000000000000ec000000026c6f636100000000000000f0000000046d617870\
     00000000000000f40000000600010064000001f402bc00030000010101010064\
     000001900000000002bc0000fd4400000001000000010000000000005f0f3cf5\
     000003e8000000000000000000000000000000000064000001f402bc00000008\
     0002000000000000000100000320ff3800000258000000000000000000000000\
     00000000000000000000000102580000000000110000500000010000";
/// The box font with its ascent equal to its descent.
const NO_HEIGHT: &str = "000100000006004000020020676c7966000000000000006c0000002268656164\
     0000000000000090000000366868656100000000000000c800000024686d7478\
     00000000000000ec000000046c6f636100000000000000f0000000046d617870\
     00000000000000f40000000600010064000001f402bc00030000010101010064\
     000001900000000002bc0000fd4400000001000000010000000000005f0f3cf5\
     000003e8000000000000000000000000000000000064000001f402bc00000008\
     000200000000000000010000012c012c00000258000000000000000000000000\
     00000000000000000000000102580064000000110000500000010000";
/// The box font with its ascent below its descent.
const UPSIDE_DOWN: &str = "000100000006004000020020676c7966000000000000006c0000002268656164\
     0000000000000090000000366868656100000000000000c800000024686d7478\
     00000000000000ec000000046c6f636100000000000000f0000000046d617870\
     00000000000000f40000000600010064000001f402bc00030000010101010064\
     000001900000000002bc0000fd4400000001000000010000000000005f0f3cf5\
     000003e8000000000000000000000000000000000064000001f402bc00000008\
     000200000000000000010000ff38032000000258000000000000000000000000\
     00000000000000000000000102580064000000110000500000010000";
/// The box font with a character map that names glyph 5 for `@`.
const STRAY_GLYPH: &str = "000100000007004000020020636d6170000000000000007c00000112676c7966\
     0000000000000190000000226865616400000000000001b40000003668686561\
     00000000000001ec00000024686d74780000000000000210000000046c6f6361\
     0000000000000214000000046d61787000000000000002180000000600000001\
     000000030000000c000001060000000000000000000000000000000000000000\
     0000000000000000000000000000000000000000000000000000000000000000\
     0000000000000000000000000000050000000000000000000000000000000000\
     0000000000000000000000000000000000000000000000000000000000000000\
     0000000000000000000000000000000000000000000000000000000000000000\
     0000000000000000000000000000000000000000000000000000000000000000\
     0000000000000000000000000000000000000000000000000000000000000000\
     0000000000000000000000000000000000000000000000000000000000000000\
     0000000000000000000000000000000000010064000001f402bc000300000101\
     01010064000001900000000002bc0000fd440000000100000001000000000000\
     5f0f3cf5000003e8000000000000000000000000000000000064000001f402bc\
     000000080002000000000000000100000320ff38000002580000000000000000\
     0000000000000000000000000000000102580064000000110000500000010000";
/// The box font with a character map that names glyph 0 for `@`.
const MAPPED_GLYPH: &str = "000100000007004000020020636d6170000000000000007c00000112676c7966\
     0000000000000190000000226865616400000000000001b40000003668686561\
     00000000000001ec00000024686d74780000000000000210000000046c6f6361\
     0000000000000214000000046d61787000000000000002180000000600000001\
     000000030000000c000001060000000000000000000000000000000000000000\
     0000000000000000000000000000000000000000000000000000000000000000\
     0000000000000000000000000000000000000000000000000000000000000000\
     0000000000000000000000000000000000000000000000000000000000000000\
     0000000000000000000000000000000000000000000000000000000000000000\
     0000000000000000000000000000000000000000000000000000000000000000\
     0000000000000000000000000000000000000000000000000000000000000000\
     0000000000000000000000000000000000000000000000000000000000000000\
     0000000000000000000000000000000000010064000001f402bc000300000101\
     01010064000001900000000002bc0000fd440000000100000001000000000000\
     5f0f3cf5000003e8000000000000000000000000000000000064000001f402bc\
     000000080002000000000000000100000320ff38000002580000000000000000\
     0000000000000000000000000000000102580064000000110000500000010000";
/// The box font with a table that varies its horizontal metrics.
const VARYING_METRICS: &str = "00010000000700400002002048564152000000000000007c00000004676c7966\
     0000000000000080000000226865616400000000000000a40000003668686561\
     00000000000000dc00000024686d74780000000000000100000000046c6f6361\
     0000000000000104000000046d61787000000000000001080000000600000000\
     00010064000001f402bc00030000010101010064000001900000000002bc0000\
     fd4400000001000000010000000000005f0f3cf5000003e80000000000000000\
     00000000000000000064000001f402bc00000008000200000000000000010000\
     0320ff3800000258000000000000000000000000000000000000000000000001\
     02580064000000110000500000010000";
/// A file of several fonts that holds the box font alone.
const COLLECTION: &str = "74746366000100000000000100000010000100000006004000020020676c7966\
     000000000000007c000000226865616400000000000000a00000003668686561\
     00000000000000d800000024686d747800000000000000fc000000046c6f6361\
     0000000000000100000000046d61787000000000000001040000000600010064\
     000001f402bc00030000010101010064000001900000000002bc0000fd440000\
     0001000000010000000000005f0f3cf5000003e8000000000000000000000000\
     000000000064000001f402bc000000080002000000000000000100000320ff38\
     0000025800000000000000000000000000000000000000000000000102580064\
     000000110000500000010000";
/// The box font with a height of 19 units, one less than the size of a glyph.
const LOW_HEIGHT: &str = "000100000006004000020020676c7966000000000000006c0000002268656164\
     0000000000000090000000366868656100000000000000c800000024686d7478\
     00000000000000ec000000046c6f636100000000000000f0000000046d617870\
     00000000000000f40000000600010064000001f402bc00030000010101010064\
     000001900000000002bc0000fd4400000001000000010000000000005f0f3cf5\
     000003e8000000000000000000000000000000000064000001f402bc00000008\
     000200000000000000010000000ffffc00000258000000000000000000000000\
     00000000000000000000000102580064000000110000500000010000";
/// The box font with a height of 20 units, the size of a glyph.
const JUST_HIGH: &str = "000100000006004000020020676c7966000000000000006c0000002268656164\
     0000000000000090000000366868656100000000000000c800000024686d7478\
     00000000000000ec000000046c6f636100000000000000f0000000046d617870\
     00000000000000f40000000600010064000001f402bc00030000010101010064\
     000001900000000002bc0000fd4400000001000000010000000000005f0f3cf5\
     000003e8000000000000000000000000000000000064000001f402bc00000008\
     0002000000000000000100000010fffc00000258000000000000000000000000\
     00000000000000000000000102580064000000110000500000010000";

fn decode(hex: &str) -> Vec<u8> {
    let digits: Vec<u8> =
        hex.bytes().map(|digit| (digit as char).to_digit(16).unwrap() as u8).collect();
    digits.chunks(2).map(|pair| pair[0] * 16 + pair[1]).collect()
}

fn box_font_bytes() -> Vec<u8> {
    decode(BOX)
}

fn box_font() -> GlyphFont {
    GlyphFont::load(box_font_bytes()).unwrap()
}

fn uniform(width: u32, height: u32, r: u8, g: u8, b: u8) -> ColorImage {
    let mut pixels = Vec::new();
    for _ in 0..(width as usize * height as usize) {
        pixels.push(r);
        pixels.push(g);
        pixels.push(b);
    }
    ColorImage::from_raw(width, height, pixels).unwrap()
}

fn scale(value: f64) -> ScaleFactor {
    ScaleFactor::from_bits(value.to_bits()).unwrap()
}

fn shifted(sample: u8, delta: i32) -> u8 {
    (sample as i32 + delta).clamp(0, 255) as u8
}

#[test]
fn brightness_is_the_weighted_sum_of_the_channels() {
    let picture = ColorImage::from_raw(
        3,
        2,
        vec![255, 0, 0, 0, 255, 0, 0, 0, 255, 10, 20, 30, 255, 255, 255, 0, 0, 0],
    )
    .unwrap();
    let grey = desaturate(&picture);
    assert_eq!(grey.width(), 3);
    assert_eq!(grey.height(), 2);
    assert_eq!(grey.samples(), &vec![54, 182, 18, 18, 255, 0]);
}

#[test]
fn grey_pixels_keep_their_value_as_brightness() {
    let mut pixels = Vec::new();
    for value in 0..=255u8 {
        pixels.extend_from_slice(&[value, value, value]);
    }
    let grey = desaturate(&ColorImage::from_raw(16, 16, pixels).unwrap());
    let expected: Vec<u8> = (0..=255u8).collect();
    assert_eq!(grey.samples(), &expected);
}

#[test]
fn correction_is_two_thirds_of_the_difference_rounded_down() {
    assert_eq!(correction(200, 140), 40);
    assert_eq!(correction(140, 200), -40);
    assert_eq!(correction(128, 128), 0);
    assert_eq!(correction(129, 128), 0);
    assert_eq!(correction(130, 128), 1);
    assert_eq!(correction(131, 128), 2);
    assert_eq!(correction(127, 128), -1);
    assert_eq!(correction(126, 128), -2);
    assert_eq!(correction(125, 128), -2);
    assert_eq!(correction(255, 0), 170);
    assert_eq!(correction(0, 255), -170);
    for original in 0..=255u8 {
        for rendered in 0..=255u8 {
            let exact = ((original as f64 - rendered as f64) / 1.5).floor() as i32;
            assert_eq!(correction(original, rendered), exact);
        }
    }
}

#[test]
fn brightening_adds_to_every_channel_and_clamps() {
    let picture =
        ColorImage::from_raw(2, 2, vec![0, 100, 200, 215, 216, 255, 10, 20, 30, 40, 50, 60])
            .unwrap();
    let delta = correction(200, 140);
    let bright = brighten(picture, delta);
    assert_eq!(bright.width(), 2);
    assert_eq!(bright.height(), 2);
    assert_eq!(bright.pixels(), &vec![40, 140, 240, 255, 255, 255, 50, 60, 70, 80, 90, 100]);
}

#[test]
fn darkening_subtracts_from_every_channel_and_clamps() {
    let picture = ColorImage::from_raw(1, 2, vec![0, 39, 40, 41, 200, 255]).unwrap();
    let dark = brighten(picture, -40);
    assert_eq!(dark.pixels(), &vec![0, 0, 0, 1, 160, 215]);
    let same = brighten(ColorImage::from_raw(1, 1, vec![1, 2, 3]).unwrap(), 0);
    assert_eq!(same.pixels(), &vec![1, 2, 3]);
    let white = brighten(ColorImage::from_raw(1, 1, vec![0, 2, 3]).unwrap(), i32::MAX);
    assert_eq!(white.pixels(), &vec![255, 255, 255]);
    let edge = brighten(ColorImage::from_raw(1, 1, vec![0, 1, 255]).unwrap(), 255);
    assert_eq!(edge.pixels(), &vec![255, 255, 255]);
    let below = brighten(ColorImage::from_raw(1, 1, vec![0, 1, 255]).unwrap(), 254);
    assert_eq!(below.pixels(), &vec![254, 255, 255]);
    let black = brighten(ColorImage::from_raw(1, 1, vec![255, 2, 3]).unwrap(), i32::MIN);
    assert_eq!(black.pixels(), &vec![0, 0, 0]);
}

#[test]
fn full_scale_keeps_a_square_picture() {
    let mut pixels = Vec::new();
    for i in 0..300u32 {
        pixels.push((i * 7 % 256) as u8);
    }
    let source = ColorImage::from_raw(10, 10, pixels.clone()).unwrap();
    let small = downscale(&source, &scale(1.0));
    assert_eq!(small.width(), 10);
    assert_eq!(small.height(), 10);
    assert_eq!(small.pixels(), &pixels);
}

#[test]
fn downscaling_fits_the_longer_side() {
    let source = uniform(40, 20, 128, 128, 128);
    let small = downscale(&source, &scale(0.5));
    assert_eq!((small.width(), small.height()), (20, 10));
    assert!(small.pixels().iter().all(|&sample| sample == 128));
    let tall = downscale(&uniform(20, 40, 9, 9, 9), &scale(0.25));
    assert_eq!((tall.width(), tall.height()), (5, 10));
    assert!(tall.pixels().iter().all(|&sample| sample == 9));
    let third = downscale(&uniform(100, 50, 200, 100, 50), &ScaleFactor::default());
    assert_eq!((third.width(), third.height()), (33, 17));
    assert_eq!(third.pixel(0, 0), (200, 100, 50));
    assert_eq!(third.pixel(32, 16), (200, 100, 50));
}

#[test]
fn downscaling_leaves_at_least_one_pixel() {
    let small = downscale(&uniform(4, 3, 77, 77, 77), &scale(0.01));
    assert_eq!((small.width(), small.height()), (1, 1));
    assert_eq!(small.pixel(0, 0), (77, 77, 77));
    let thin = downscale(&uniform(100, 1, 5, 6, 7), &scale(0.1));
    assert_eq!((thin.width(), thin.height()), (10, 1));
}

#[test]
fn downscaling_averages_neighbouring_pixels() {
    let mut pixels = Vec::new();
    for y in 0..8u32 {
        for x in 0..8u32 {
            let value = if (x + y) % 2 == 0 { 0 } else { 255 };
            pixels.extend_from_slice(&[value, value, value]);
        }
    }
    let small = downscale(&ColorImage::from_raw(8, 8, pixels).unwrap(), &scale(0.5));
    assert_eq!((small.width(), small.height()), (4, 4));
    for &sample in small.pixels() {
        assert!(sample > 100 && sample < 155);
    }
}

#[test]
fn uniform_picture_has_its_own_brightness() {
    assert_eq!(sample_brightness(&uniform(10, 10, 128, 128, 128)), 128);
    assert_eq!(sample_brightness(&uniform(7, 3, 20, 20, 20)), 20);
    assert_eq!(sample_brightness(&uniform(1, 1, 255, 0, 0)), 54);
    assert_eq!(sample_brightness(&uniform(5, 9, 10, 20, 30)), 18);
}

#[test]
fn brightness_lies_between_the_extremes_of_a_mixed_picture() {
    let mut pixels = Vec::new();
    for x in 0..(16 * 16) {
        let value = if x % 2 == 0 { 40 } else { 200 };
        pixels.extend_from_slice(&[value, value, value]);
    }
    let brightness = sample_brightness(&ColorImage::from_raw(16, 16, pixels).unwrap());
    assert!(brightness > 40 && brightness < 200);
}

#[test]
fn sampling_twice_gives_the_same_brightness() {
    let mut pixels = Vec::new();
    for i in 0..(12 * 9 * 3) {
        pixels.push((i * 37 % 251) as u8);
    }
    let picture = ColorImage::from_raw(12, 9, pixels.clone()).unwrap();
    let first = sample_brightness(&picture);
    let second = sample_brightness(&picture);
    let copy = sample_brightness(&ColorImage::from_raw(12, 9, pixels).unwrap());
    assert_eq!(first, second);
    assert_eq!(first, copy);
}

#[test]
fn font_is_read_from_font_data_only() {
    assert!(GlyphFont::load(box_font_bytes()).is_ok());
    assert!(matches!(GlyphFont::load(Vec::new()), Err(RenderError::FontUnreadable)));
    assert!(matches!(GlyphFont::load(vec![1, 2, 3, 4, 5]), Err(RenderError::FontUnreadable)));
    let mut cut = box_font_bytes();
    cut.truncate(40);
    assert!(matches!(GlyphFont::load(cut), Err(RenderError::FontUnreadable)));
}

#[test]
fn font_without_usable_metrics_is_refused() {
    for hex in [NO_METRICS, SHORT_METRICS, VARYING_METRICS] {
        assert!(matches!(GlyphFont::load(decode(hex)), Err(RenderError::FontUnreadable)));
    }
}

#[test]
fn font_without_height_is_refused() {
    for hex in [NO_HEIGHT, UPSIDE_DOWN] {
        assert!(matches!(GlyphFont::load(decode(hex)), Err(RenderError::FontUnreadable)));
    }
}

#[test]
fn font_lower_than_a_glyph_is_drawn_is_refused() {
    assert!(matches!(GlyphFont::load(decode(LOW_HEIGHT)), Err(RenderError::FontUnreadable)));
    let font = GlyphFont::load(decode(JUST_HIGH)).unwrap();
    let grid = GrayImage::from_raw(1, 1, vec![0]).unwrap();
    let canvas = compose(&grid, ColorScheme::DarkOnLight, &font);
    assert_eq!((canvas.width(), canvas.height()), (17, 17));
}

#[test]
fn font_that_names_a_glyph_it_lacks_is_refused() {
    assert!(matches!(GlyphFont::load(decode(STRAY_GLYPH)), Err(RenderError::FontUnreadable)));
    assert!(GlyphFont::load(decode(MAPPED_GLYPH)).is_ok());
}

#[test]
fn font_in_a_file_of_several_is_read() {
    let font = GlyphFont::load(decode(COLLECTION)).unwrap();
    let grid = GrayImage::from_raw(2, 1, vec![0, 255]).unwrap();
    let canvas = compose(&grid, ColorScheme::DarkOnLight, &font);
    let expected = compose(&grid, ColorScheme::DarkOnLight, &box_font());
    assert_eq!(canvas.pixels(), expected.pixels());
    assert_eq!(canvas.pixel(8, 10), (0, 0, 0));
}

#[test]
fn canvas_has_one_cell_for_every_sample() {
    assert_eq!((CELL_WIDTH, CELL_HEIGHT, FONT_SIZE), (17, 17, 20));
    assert_eq!((X_OFFSET, Y_OFFSET), (3, 1));
    let font = box_font();
    for (columns, rows) in [(1u32, 1u32), (3, 2), (2, 5), (10, 10), (0, 0), (0, 4), (4, 0)] {
        let grid =
            GrayImage::from_raw(columns, rows, vec![128; (columns * rows) as usize]).unwrap();
        let canvas = compose(&grid, ColorScheme::DarkOnLight, &font);
        assert_eq!(canvas.width(), columns * CELL_WIDTH);
        assert_eq!(canvas.height(), rows * CELL_HEIGHT);
        assert_eq!(canvas.pixels().len(), (3 * columns * 17 * rows * 17) as usize);
    }
}

#[test]
fn glyphs_are_drawn_at_their_anchor_in_every_cell() {
    let font = box_font();
    let grid = GrayImage::from_raw(3, 2, vec![0, 50, 100, 150, 200, 255]).unwrap();
    for scheme in [ColorScheme::DarkOnLight, ColorScheme::LightOnDark] {
        let canvas = compose(&grid, scheme, &font);
        let paper = scheme.background();
        let ink = scheme.glyph();
        for row in 0..2u32 {
            for column in 0..3u32 {
                let left = column * 17;
                let top = row * 17;
                assert_eq!(canvas.pixel(left, top), (paper, paper, paper));
                assert_eq!(canvas.pixel(left + 4, top + 10), (paper, paper, paper));
                assert_eq!(canvas.pixel(left + 10, top + 2), (paper, paper, paper));
                assert_eq!(canvas.pixel(left + 13, top + 10), (paper, paper, paper));
                assert_eq!(canvas.pixel(left + 5, top + 3), (ink, ink, ink));
                assert_eq!(canvas.pixel(left + 8, top + 10), (ink, ink, ink));
                assert_eq!(canvas.pixel(left + 12, top + 16), (ink, ink, ink));
            }
        }
    }
}

#[test]
fn canvas_limits_follow_the_cell_size() {
    assert!(fits_canvas(0, 0));
    assert!(fits_canvas(10, 10));
    assert!(fits_canvas(1920, 1080));
    assert!(fits_canvas(63_161_283, 1));
    assert!(!fits_canvas(63_161_284, 1));
    assert!(fits_canvas(1, 63_161_283));
    assert!(!fits_canvas(1, 63_161_284));
    assert!(!fits_canvas(u32::MAX, u32::MAX));
    assert!(!fits_canvas(u32::MAX, 0));
}

#[test]
fn final_pass_corrects_by_the_sampled_difference() {
    let canvas = uniform(6, 4, 140, 140, 140);
    let out = correct(canvas, 200);
    assert_eq!((out.width(), out.height()), (6, 4));
    assert!(out.samples().iter().all(|&sample| sample == 180));
    let dark = correct(uniform(6, 4, 250, 250, 250), 10);
    assert!(dark.samples().iter().all(|&sample| sample == 90));
    let clamped = correct(
        ColorImage::from_raw(2, 1, vec![255, 255, 255, 255, 255, 255]).unwrap(),
        0,
    );
    assert_eq!(clamped.samples(), &vec![85, 85]);
}

#[test]
fn mid_grey_picture_renders_dark_glyphs_on_light() {
    let font = box_font();
    let source = uniform(10, 10, 128, 128, 128);
    let done = convert(&source, &scale(1.0), &font).unwrap();
    assert_eq!((done.downscaled.width(), done.downscaled.height()), (10, 10));
    assert_eq!(done.downscaled.pixels(), source.pixels());
    assert_eq!((done.output.width(), done.output.height()), (170, 170));

    let original = sample_brightness(&done.downscaled);
    assert_eq!(original, 128);
    assert_eq!(done.brightness, 128);
    let scheme = ColorScheme::for_brightness(original);
    assert_eq!((scheme.background(), scheme.glyph()), (255, 0));
    assert_eq!(glyph_index(128, 10, scheme.is_dark()), 5);

    let canvas = compose(&desaturate(&done.downscaled), scheme, &font);
    assert_eq!(done.canvas_brightness, sample_brightness(&canvas));
    let delta = correction(original, done.canvas_brightness);
    let paper = shifted(255, delta);
    let ink = shifted(0, delta);
    assert!(delta < 0);
    for row in 0..10u32 {
        for column in 0..10u32 {
            for y in 0..17u32 {
                for x in 0..17u32 {
                    assert_eq!(
                        done.output.sample(column * 17 + x, row * 17 + y),
                        done.output.sample(x, y)
                    );
                }
            }
            assert_eq!(done.output.sample(column * 17, row * 17), paper);
            assert_eq!(done.output.sample(column * 17 + 8, row * 17 + 10), ink);
        }
    }
}

#[test]
fn near_black_picture_renders_light_glyphs_on_dark() {
    let font = box_font();
    let source = uniform(10, 10, 20, 20, 20);
    let done = convert(&source, &scale(1.0), &font).unwrap();
    assert_eq!((done.output.width(), done.output.height()), (170, 170));

    let original = sample_brightness(&done.downscaled);
    assert_eq!(original, 20);
    assert_eq!(done.brightness, 20);
    let scheme = ColorScheme::for_brightness(original);
    assert_eq!((scheme.background(), scheme.glyph()), (0, 255));
    assert_eq!(glyph_index(20, 10, scheme.is_dark()), 9 - tone_index(20, 10));
    assert_eq!(glyph_index(20, 10, scheme.is_dark()), 8);

    let canvas = compose(&desaturate(&done.downscaled), scheme, &font);
    let delta = correction(original, sample_brightness(&canvas));
    assert!(delta < 0);
    assert_eq!(done.output.sample(0, 0), shifted(0, delta));
    assert_eq!(done.output.sample(8, 10), shifted(255, delta));
}

#[test]
fn rendering_is_composition_then_final_pass() {
    let font = box_font();
    let mut pixels = Vec::new();
    for i in 0..(6 * 4) {
        let value = (i * 11) as u8;
        pixels.extend_from_slice(&[value, 255 - value, value / 2]);
    }
    let small = ColorImage::from_raw(6, 4, pixels).unwrap();
    let output = render(&small, &font);
    let original = sample_brightness(&small);
    let scheme = ColorScheme::for_brightness(original);
    let canvas = compose(&desaturate(&small), scheme, &font);
    let expected = correct(canvas, original);
    assert_eq!((output.width(), output.height()), (6 * 17, 4 * 17));
    assert_eq!(output.samples(), expected.samples());
}

#[test]
fn default_scale_renders_a_third_of_the_picture() {
    let font = box_font();
    let done = convert(&uniform(30, 15, 200, 200, 200), &ScaleFactor::default(), &font).unwrap();
    assert_eq!((done.downscaled.width(), done.downscaled.height()), (10, 5));
    assert_eq!((done.output.width(), done.output.height()), (170, 85));
}

#[test]
fn picture_too_wide_for_a_canvas_is_refused() {
    let font = box_font();
    let width = 63_161_284u32;
    let source = ColorImage::from_raw(width, 1, vec![0; 3 * width as usize]).unwrap();
    let done = convert(&source, &scale(1.0), &font);
    assert!(matches!(done, Err(RenderError::CanvasTooLarge)));
}
