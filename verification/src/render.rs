//! The whole rendering of a picture, from its pixels to the finished grey
//! picture of glyphs.

use vstd::prelude::*;
use crate::compose::{canvas_fits, compose, composed, fits_canvas, CELL_HEIGHT, CELL_WIDTH};
use crate::correct::{correct_sampled, corrected};
use crate::error::RenderError;
use crate::font::GlyphFont;
use crate::luma::{desaturate, desaturated};
use crate::raster::{ColorImage, GrayImage, Raster};
use crate::resample::{brightness_of, downscale, downscaled, keeps_square, sample_brightness};
use crate::scale::{ScaleFactor, UNIT_SCALE_BITS};
use crate::tone::ColorScheme;

verus! {

/// The rendering of a picture at its working resolution: the colours follow
/// its overall brightness, every pixel's brightness picks a glyph, and the
/// canvas of glyphs goes through the final pass.
pub open spec fn rendered(small: Raster, font: Seq<u8>) -> Raster {
    corrected(canvas_of(small, font), brightness_of(small))
}

/// The canvas of glyphs for a picture at its working resolution, before the
/// final pass.
pub open spec fn canvas_of(small: Raster, font: Seq<u8>) -> Raster {
    composed(desaturated(small), ColorScheme::matching(brightness_of(small)), font)
}

/// Renders a picture of known brightness that is at its working resolution,
/// and tells the brightness of the canvas before the final pass.
fn render_sampled(small: &ColorImage, original: u8, font: &GlyphFont) -> (done: (GrayImage, u8))
    requires
        small.wf(),
        canvas_fits(small@.width, small@.height),
        original == brightness_of(small@),
    ensures
        done.0.wf(),
        done.0@ == rendered(small@, font@),
        done.0@.width == small@.width * CELL_WIDTH,
        done.0@.height == small@.height * CELL_HEIGHT,
        done.1 == brightness_of(canvas_of(small@, font@)),
{
    let scheme = ColorScheme::for_brightness(original);
    let grid = desaturate(small);
    let canvas = compose(&grid, scheme, font);
    let glyphs = sample_brightness(&canvas);
    (correct_sampled(canvas, original, glyphs), glyphs)
}

/// Renders a picture that is already at its working resolution: one glyph
/// for every pixel.
pub fn render(small: &ColorImage, font: &GlyphFont) -> (output: GrayImage)
    requires
        small.wf(),
        canvas_fits(small@.width, small@.height),
    ensures
        output.wf(),
        output@ == rendered(small@, font@),
        output@.width == small@.width * CELL_WIDTH,
        output@.height == small@.height * CELL_HEIGHT,
{
    let original = sample_brightness(small);
    render_sampled(small, original, font).0
}

/// What a run hands on to be stored.
#[derive(Clone, Debug)]
pub struct Rendering {
    /// The picture at its working resolution.
    pub downscaled: ColorImage,
    /// The overall brightness of the picture at its working resolution.
    pub brightness: u8,
    /// The overall brightness of the canvas of glyphs before the final pass.
    pub canvas_brightness: u8,
    /// The picture of glyphs.
    pub output: GrayImage,
}

/// Renders a picture: reduces it to its working resolution and renders
/// that. It fails where the working resolution calls for a canvas that
/// cannot be made, and only there.
pub fn convert(source: &ColorImage, scale: &ScaleFactor, font: &GlyphFont) -> (done: Result<
    Rendering,
    RenderError,
>)
    requires
        source.wf(),
        scale.wf(),
    ensures
        match done {
            Ok(rendering) => {
                &&& rendering.downscaled.wf()
                &&& rendering.output.wf()
                &&& rendering.downscaled@ == downscaled(source@, scale.pattern())
                &&& canvas_fits(rendering.downscaled@.width, rendering.downscaled@.height)
                &&& rendering.brightness == brightness_of(rendering.downscaled@)
                &&& rendering.canvas_brightness == brightness_of(
                    canvas_of(rendering.downscaled@, font@),
                )
                &&& rendering.output@ == rendered(rendering.downscaled@, font@)
                &&& rendering.output@.width == rendering.downscaled@.width * CELL_WIDTH
                &&& rendering.output@.height == rendering.downscaled@.height * CELL_HEIGHT
            },
            Err(e) => {
                &&& e == RenderError::CanvasTooLarge
                &&& !canvas_fits(
                    downscaled(source@, scale.pattern()).width,
                    downscaled(source@, scale.pattern()).height,
                )
            },
        },
        keeps_square(source@, scale.pattern()) ==> downscaled(source@, scale.pattern())
            == source@,
        !keeps_square(source@, scale.pattern()) ==> downscaled(source@, scale.pattern()).width
            >= 1 && downscaled(source@, scale.pattern()).height >= 1,
        scale.pattern() == UNIT_SCALE_BITS && source@.width == source@.height ==> downscaled(
            source@,
            scale.pattern(),
        ) == source@,
{
    let small = downscale(source, scale);
    if !fits_canvas(small.width(), small.height()) {
        return Err(RenderError::CanvasTooLarge);
    }
    let brightness = sample_brightness(&small);
    let (output, canvas_brightness) = render_sampled(&small, brightness, font);
    Ok(Rendering { downscaled: small, brightness, canvas_brightness, output })
}

} // verus!
