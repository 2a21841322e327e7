//! Reduction of a picture to a working resolution, and to the single value
//! that stands for its overall brightness.

use vstd::prelude::*;
use crate::luma::{desaturate, desaturated, luma};
use crate::raster::{ColorImage, Raster};
use crate::scale::{
    longer_side, scaled_side, unit_scale_keeps_side, ScaleFactor, UNIT_SCALE_BITS,
};

verus! {

/// The picture that `image` makes of `picture` when it fits it into a square
/// of the given side with its Gaussian filter, keeping the proportions.
pub uninterp spec fn fitted(picture: Raster, side: nat) -> Raster;

/// Calls `image::DynamicImage::resize` on a picture of three 8-bit channels,
/// with the same bound for both sides and the Gaussian filter. The outcome
/// is a function of the picture and the bound. It is again a picture of
/// three channels. A picture that is already a square of that side is copied
/// unchanged; any other outcome has at least one pixel.
///
/// The bound must not exceed the longer side, unless it is at most one: the
/// picture is never enlarged.
#[verifier::external_body]
fn resize_within(pixels: &Vec<u8>, width: u32, height: u32, side: u32) -> (out: (u32, u32, Vec<u8>))
    requires
        pixels@.len() == 3 * width * height,
        side <= 1 || side <= width || side <= height,
    ensures
        (Raster { width: out.0 as nat, height: out.1 as nat, samples: out.2@ }) == fitted(
            Raster { width: width as nat, height: height as nat, samples: pixels@ },
            side as nat,
        ),
        out.2@.len() == 3 * out.0 * out.1,
        width == side && height == side ==> out.0 == width && out.1 == height && out.2@ == pixels@,
        !(width == side && height == side) ==> out.0 >= 1 && out.1 >= 1,
{
    let source = image::RgbImage::from_raw(width, height, pixels.clone()).unwrap();
    let small = image::DynamicImage::ImageRgb8(source)
        .resize(side, side, image::imageops::FilterType::Gaussian)
        .into_rgb8();
    (small.width(), small.height(), small.into_raw())
}

/// Fits a picture into a square of the given side.
fn fit(image: &ColorImage, side: u32) -> (small: ColorImage)
    requires
        image.wf(),
        side <= 1 || side <= image@.width || side <= image@.height,
    ensures
        small.wf(),
        small@ == fitted(image@, side as nat),
        image@.width == side && image@.height == side ==> small@ == image@,
        !(image@.width == side && image@.height == side) ==> small@.width >= 1 && small@.height
            >= 1,
{
    let (width, height, pixels) = resize_within(image.pixels(), image.width(), image.height(), side);
    ColorImage::from_raw(width, height, pixels).unwrap()
}

/// The picture at its working resolution: fitted into the square whose side
/// is the scale factor times the longer side of the picture.
pub open spec fn downscaled(picture: Raster, scale_bits: u64) -> Raster {
    fitted(
        picture,
        scaled_side(scale_bits, longer_side(picture.width as u32, picture.height as u32) as nat),
    )
}

/// Whether a picture is a square whose side is its own working resolution,
/// as every square picture is at a scale factor of one. Such a picture is
/// its own reduction; any other reduction has at least one pixel.
pub open spec fn keeps_square(picture: Raster, scale_bits: u64) -> bool {
    let side = scaled_side(
        scale_bits,
        longer_side(picture.width as u32, picture.height as u32) as nat,
    );
    picture.width == side && picture.height == side
}

/// Reduces a picture to its working resolution.
pub fn downscale(source: &ColorImage, scale: &ScaleFactor) -> (small: ColorImage)
    requires
        source.wf(),
        scale.wf(),
    ensures
        small.wf(),
        small@ == downscaled(source@, scale.pattern()),
        keeps_square(source@, scale.pattern()) ==> small@ == source@,
        !keeps_square(source@, scale.pattern()) ==> small@.width >= 1 && small@.height >= 1,
        scale.pattern() == UNIT_SCALE_BITS && source@.width == source@.height ==> small@
            == source@,
{
    proof {
        unit_scale_keeps_side(source@.width);
    }
    let side = scale.target_side(source.width(), source.height());
    fit(source, side)
}

/// The overall brightness of a picture: the brightness of the one pixel that
/// the picture is reduced to when it is fitted into a square of side one.
pub open spec fn brightness_of(picture: Raster) -> u8 {
    let pixel = fitted(picture, 1).samples;
    luma(pixel[0], pixel[1], pixel[2])
}

/// Samples the overall brightness of a picture.
pub fn sample_brightness(image: &ColorImage) -> (brightness: u8)
    requires
        image.wf(),
    ensures
        brightness == brightness_of(image@),
{
    let pixel = fit(image, 1);
    proof {
        assert(3 * pixel@.width * pixel@.height >= 3) by (nonlinear_arith)
            requires
                pixel@.width >= 1,
                pixel@.height >= 1,
        ;
    }
    let grey = desaturate(&pixel);
    grey.samples()[0]
}

/// Sampling depends on the content of a picture alone: two pictures with the
/// same pixels have the same brightness, and so has one picture sampled
/// twice.
pub proof fn sampling_is_repeatable(first: ColorImage, second: ColorImage)
    requires
        first@ == second@,
    ensures
        brightness_of(first@) == brightness_of(second@),
{
}

} // verus!
