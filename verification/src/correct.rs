//! The final pass over a canvas: its brightness is moved towards that of
//! the picture it renders, and its colour is removed.

use vstd::prelude::*;
use crate::luma::{desaturate, desaturated};
use crate::raster::{ColorImage, GrayImage, Raster};
use crate::resample::{brightness_of, sample_brightness};

verus! {

/// The difference in brightness is divided by three halves before it is
/// applied: this is the numerator of that divisor.
pub const DAMPING_NUMERATOR: i32 = 3;

/// The denominator of the divisor that damps the correction.
pub const DAMPING_DENOMINATOR: i32 = 2;

/// The amount added to every sample of a canvas of brightness `rendered`
/// that renders a picture of brightness `original`: the difference divided
/// by three halves, rounded down. The canvas is corrected by less than the
/// whole difference on purpose, since one sample is a coarse measure of
/// brightness.
pub open spec fn brightness_delta(original: int, rendered: int) -> int {
    (DAMPING_DENOMINATOR * (original - rendered)) / (DAMPING_NUMERATOR as int)
}

/// The correction is the largest integer that is not above two thirds of the
/// difference.
pub proof fn delta_is_rounded_down(original: int, rendered: int)
    ensures
        3 * brightness_delta(original, rendered) <= 2 * (original - rendered),
        2 * (original - rendered) < 3 * brightness_delta(original, rendered) + 3,
{
}

/// A sample moved by `delta` and kept within the range of a sample.
pub open spec fn shifted(sample: u8, delta: int) -> u8 {
    if sample + delta < 0 {
        0
    } else if sample + delta > 255 {
        255
    } else {
        (sample + delta) as u8
    }
}

/// Samples moved by `delta`, each kept within the range of a sample.
pub open spec fn shifted_samples(samples: Seq<u8>, delta: int) -> Seq<u8> {
    Seq::new(samples.len(), |i: int| shifted(samples[i], delta))
}

/// A picture with every sample moved by `delta`.
pub open spec fn brightened(picture: Raster, delta: int) -> Raster {
    Raster {
        width: picture.width,
        height: picture.height,
        samples: shifted_samples(picture.samples, delta),
    }
}

/// A canvas after the final pass: brightened by the correction that its own
/// brightness and that of the picture call for, then reduced to grey.
pub open spec fn corrected(canvas: Raster, original: u8) -> Raster {
    desaturated(
        brightened(canvas, brightness_delta(original as int, brightness_of(canvas) as int)),
    )
}

/// Calls `image::imageops::colorops::brighten_in_place` on a picture of
/// three 8-bit channels. It adds `delta` to every sample and keeps the sum
/// between 0 and 255. It computes the sum in 32 bits, so `delta` must leave
/// room for a sample.
#[verifier::external_body]
fn brighten_in_place(pixels: &mut Vec<u8>, width: u32, height: u32, delta: i32)
    requires
        old(pixels)@.len() == 3 * width * height,
        delta <= i32::MAX - 255,
    ensures
        final(pixels)@ == shifted_samples(old(pixels)@, delta as int),
{
    let mut picture = image::RgbImage::from_raw(width, height, std::mem::take(pixels)).unwrap();
    image::imageops::colorops::brighten_in_place(&mut picture, delta);
    *pixels = picture.into_raw();
}

/// Computes the correction for a canvas of brightness `rendered` that
/// renders a picture of brightness `original`.
pub fn correction(original: u8, rendered: u8) -> (delta: i32)
    ensures
        delta == brightness_delta(original as int, rendered as int),
        -170 <= delta <= 170,
{
    let spread: i32 = DAMPING_DENOMINATOR * (original as i32 - rendered as i32);
    if spread >= 0 {
        spread / DAMPING_NUMERATOR
    } else {
        -((DAMPING_NUMERATOR - 1 - spread) / DAMPING_NUMERATOR)
    }
}

/// Moves every sample of a picture by `delta`, within the range of a sample.
pub fn brighten(picture: ColorImage, delta: i32) -> (out: ColorImage)
    requires
        picture.wf(),
    ensures
        out.wf(),
        out@ == brightened(picture@, delta as int),
{
    let width = picture.width();
    let height = picture.height();
    let mut pixels = picture.into_raw();
    let bounded: i32 = if delta > 255 {
        255
    } else if delta < -255 {
        -255
    } else {
        delta
    };
    let ghost before = pixels@;
    brighten_in_place(&mut pixels, width, height, bounded);
    assert(pixels@ =~= shifted_samples(before, delta as int));
    ColorImage::from_raw(width, height, pixels).unwrap()
}

/// Runs the final pass over a finished canvas of brightness `rendered` that
/// renders a picture of brightness `original`.
pub(crate) fn correct_sampled(canvas: ColorImage, original: u8, rendered: u8) -> (out: GrayImage)
    requires
        canvas.wf(),
        rendered == brightness_of(canvas@),
    ensures
        out.wf(),
        out@ == corrected(canvas@, original),
{
    let delta = correction(original, rendered);
    let bright = brighten(canvas, delta);
    desaturate(&bright)
}

/// Runs the final pass over a finished canvas that renders a picture of
/// brightness `original`.
pub fn correct(canvas: ColorImage, original: u8) -> (out: GrayImage)
    requires
        canvas.wf(),
    ensures
        out.wf(),
        out@ == corrected(canvas@, original),
{
    let rendered = sample_brightness(&canvas);
    correct_sampled(canvas, original, rendered)
}

} // verus!
