//! Pictures held in memory: colour pictures with three channels for every
//! pixel, and grey pictures with one brightness sample for every pixel.

use vstd::prelude::*;

verus! {

/// What a picture is: its size and its samples, row by row from the top,
/// within a row from the left, within a pixel channel by channel.
pub ghost struct Raster {
    pub width: nat,
    pub height: nat,
    pub samples: Seq<u8>,
}

impl Raster {
    /// The samples are those of `width * height` pixels of `channels`
    /// channels each.
    pub open spec fn holds(self, channels: nat) -> bool {
        self.samples.len() == channels * self.width * self.height
    }

    /// Position of the first sample of the pixel in column `x` of row `y`.
    pub open spec fn offset(self, x: int, y: int, channels: int) -> int {
        channels * (y * self.width + x)
    }
}

/// A pixel inside a picture has all its samples inside the picture's data.
pub proof fn pixel_lies_inside(width: nat, height: nat, x: nat, y: nat, channels: nat)
    requires
        x < width,
        y < height,
    ensures
        channels * (y * width + x) + channels <= channels * width * height,
        y * width + x < width * height,
        0 <= y * width,
{
    assert(0 <= y * width) by (nonlinear_arith);
    assert(y * width + x + 1 <= width * height) by (nonlinear_arith)
        requires
            x < width,
            y < height,
    ;
    assert(channels * (y * width + x) + channels <= channels * width * height) by (nonlinear_arith)
        requires
            y * width + x + 1 <= width * height,
    ;
}

/// A picture in colour: red, green and blue for every pixel.
#[derive(Clone, Debug)]
pub struct ColorImage {
    width: u32,
    height: u32,
    pixels: Vec<u8>,
}

impl View for ColorImage {
    type V = Raster;

    closed spec fn view(&self) -> Raster {
        Raster { width: self.width as nat, height: self.height as nat, samples: self.pixels@ }
    }
}

impl ColorImage {
    /// The picture holds three samples for each of its pixels.
    pub open spec fn wf(&self) -> bool {
        self@.holds(3)
    }

    /// Makes a picture of the given size from its samples, which must be
    /// three for every pixel.
    pub fn from_raw(width: u32, height: u32, pixels: Vec<u8>) -> (image: Option<ColorImage>)
        ensures
            image.is_some() <==> pixels@.len() == 3 * width * height,
            image matches Some(img) ==> img.wf() && img@ == (Raster {
                width: width as nat,
                height: height as nat,
                samples: pixels@,
            }),
    {
        assert(3 * width * height <= 3 * 0xFFFF_FFFF * 0xFFFF_FFFF) by (nonlinear_arith)
            requires
                width <= 0xFFFF_FFFF,
                height <= 0xFFFF_FFFF,
        ;
        let wanted: u128 = 3 * (width as u128) * (height as u128);
        if pixels.len() as u128 == wanted {
            Some(ColorImage { width, height, pixels })
        } else {
            None
        }
    }

    /// Number of pixels in a row.
    pub fn width(&self) -> (width: u32)
        ensures
            width == self@.width,
    {
        self.width
    }

    /// Number of rows.
    pub fn height(&self) -> (height: u32)
        ensures
            height == self@.height,
    {
        self.height
    }

    /// The samples of the picture.
    pub fn pixels(&self) -> (pixels: &Vec<u8>)
        ensures
            pixels@ == self@.samples,
    {
        &self.pixels
    }

    /// Gives up the picture for its samples.
    pub fn into_raw(self) -> (pixels: Vec<u8>)
        ensures
            pixels@ == self@.samples,
    {
        self.pixels
    }

    /// Red, green and blue of the pixel in column `x` of row `y`.
    pub fn pixel(&self, x: u32, y: u32) -> (rgb: (u8, u8, u8))
        requires
            self.wf(),
            x < self@.width,
            y < self@.height,
        ensures
            rgb.0 == self@.samples[self@.offset(x as int, y as int, 3)],
            rgb.1 == self@.samples[self@.offset(x as int, y as int, 3) + 1],
            rgb.2 == self@.samples[self@.offset(x as int, y as int, 3) + 2],
    {
        proof {
            pixel_lies_inside(self.width as nat, self.height as nat, x as nat, y as nat, 3);
            assert(self.pixels@.len() == self.pixels.len() <= usize::MAX);
            assert(y * self.width + x <= 3 * (y * self.width + x));
        }
        let at: usize = 3 * (y as usize * self.width as usize + x as usize);
        (self.pixels[at], self.pixels[at + 1], self.pixels[at + 2])
    }
}

/// A picture in grey: one brightness sample for every pixel.
#[derive(Clone, Debug)]
pub struct GrayImage {
    width: u32,
    height: u32,
    samples: Vec<u8>,
}

impl View for GrayImage {
    type V = Raster;

    closed spec fn view(&self) -> Raster {
        Raster { width: self.width as nat, height: self.height as nat, samples: self.samples@ }
    }
}

impl GrayImage {
    /// The picture holds one sample for each of its pixels.
    pub open spec fn wf(&self) -> bool {
        self@.holds(1)
    }

    /// Makes a picture of the given size from its samples, which must be one
    /// for every pixel.
    pub fn from_raw(width: u32, height: u32, samples: Vec<u8>) -> (image: Option<GrayImage>)
        ensures
            image.is_some() <==> samples@.len() == width * height,
            image matches Some(img) ==> img.wf() && img@ == (Raster {
                width: width as nat,
                height: height as nat,
                samples: samples@,
            }),
    {
        assert(width * height <= 0xFFFF_FFFF * 0xFFFF_FFFF) by (nonlinear_arith)
            requires
                width <= 0xFFFF_FFFF,
                height <= 0xFFFF_FFFF,
        ;
        let wanted: u128 = (width as u128) * (height as u128);
        if samples.len() as u128 == wanted {
            Some(GrayImage { width, height, samples })
        } else {
            None
        }
    }

    /// Number of pixels in a row.
    pub fn width(&self) -> (width: u32)
        ensures
            width == self@.width,
    {
        self.width
    }

    /// Number of rows.
    pub fn height(&self) -> (height: u32)
        ensures
            height == self@.height,
    {
        self.height
    }

    /// The samples of the picture.
    pub fn samples(&self) -> (samples: &Vec<u8>)
        ensures
            samples@ == self@.samples,
    {
        &self.samples
    }

    /// Gives up the picture for its samples.
    pub fn into_raw(self) -> (samples: Vec<u8>)
        ensures
            samples@ == self@.samples,
    {
        self.samples
    }

    /// Brightness of the pixel in column `x` of row `y`.
    pub fn sample(&self, x: u32, y: u32) -> (brightness: u8)
        requires
            self.wf(),
            x < self@.width,
            y < self@.height,
        ensures
            brightness == self@.samples[self@.offset(x as int, y as int, 1)],
    {
        proof {
            pixel_lies_inside(self.width as nat, self.height as nat, x as nat, y as nat, 1);
            assert(self.samples@.len() == self.samples.len() <= usize::MAX);
        }
        self.samples[y as usize * self.width as usize + x as usize]
    }
}

} // verus!
