//! Brightness of coloured pixels.

use vstd::prelude::*;
use crate::raster::{ColorImage, GrayImage, Raster};

verus! {

/// Brightness of a pixel: its red, green and blue weighted by 2126, 7152
/// and 722 parts in ten thousand, rounded down.
pub open spec fn luma(red: u8, green: u8, blue: u8) -> u8 {
    ((2126 * red + 7152 * green + 722 * blue) / 10000) as u8
}

/// The brightness of each pixel in a sequence of colour samples.
pub open spec fn luma_samples(pixels: Seq<u8>) -> Seq<u8> {
    Seq::new(
        pixels.len() / 3,
        |i: int| luma(pixels[3 * i], pixels[3 * i + 1], pixels[3 * i + 2]),
    )
}

/// A colour picture with every pixel replaced by its brightness.
pub open spec fn desaturated(picture: Raster) -> Raster {
    Raster { width: picture.width, height: picture.height, samples: luma_samples(picture.samples) }
}

/// A pixel whose three channels are equal has that value as its brightness.
pub proof fn luma_of_grey(value: u8)
    ensures
        luma(value, value, value) == value,
{
}

/// Calls `image::imageops::grayscale` on a picture of three 8-bit channels.
/// The result has one sample for every pixel, in the same order, and each
/// is the weighted sum that `image` computes in integers for such a pixel:
/// `(2126 r + 7152 g + 722 b) / 10000`.
#[verifier::external_body]
fn grayscale(pixels: &Vec<u8>, width: u32, height: u32) -> (samples: Vec<u8>)
    requires
        pixels@.len() == 3 * width * height,
    ensures
        samples@ == luma_samples(pixels@),
{
    let view: image::ImageBuffer<image::Rgb<u8>, &[u8]> =
        image::ImageBuffer::from_raw(width, height, pixels.as_slice()).unwrap();
    image::imageops::grayscale(&view).into_raw()
}

/// Turns a colour picture into the grey picture of its brightness.
pub fn desaturate(image: &ColorImage) -> (grey: GrayImage)
    requires
        image.wf(),
    ensures
        grey.wf(),
        grey@ == desaturated(image@),
{
    let samples = grayscale(image.pixels(), image.width(), image.height());
    proof {
        let w = image@.width;
        let h = image@.height;
        assert(3 * w * h == 3 * (w * h)) by (nonlinear_arith);
        assert(samples@.len() == w * h);
    }
    GrayImage::from_raw(image.width(), image.height(), samples).unwrap()
}

} // verus!
