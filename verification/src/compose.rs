//! The canvas and the drawing of glyphs onto it, one for every sample of a
//! grid of brightness values.

use vstd::prelude::*;
use vstd::arithmetic::div_mod::lemma_fundamental_div_mod_converse;
use crate::font::{glyph_drawn, GlyphFont, FONT_SIZE, MAX_ANCHOR};
use crate::raster::{ColorImage, GrayImage, Raster};
use crate::tone::{glyph_for, glyph_of, ColorScheme};

verus! {

/// Width of the cell that one glyph is drawn into, in pixels.
pub const CELL_WIDTH: u32 = 17;

/// Height of the cell that one glyph is drawn into, in pixels.
pub const CELL_HEIGHT: u32 = 17;

/// Distance of a glyph's anchor from the left edge of its cell.
pub const X_OFFSET: i32 = 3;

/// Distance of a glyph's anchor from the top edge of its cell.
pub const Y_OFFSET: i32 = 1;

/// Number of samples that the canvas holds for one cell: three for each of
/// its pixels.
pub const SAMPLES_PER_CELL: u32 = 867;

/// Width of the canvas for a grid with `columns` samples in a row.
pub open spec fn canvas_width(columns: nat) -> nat {
    columns * (CELL_WIDTH as nat)
}

/// Height of the canvas for a grid of `rows` rows.
pub open spec fn canvas_height(rows: nat) -> nat {
    rows * (CELL_HEIGHT as nat)
}

/// Whether the canvas for a grid of the given size can be made: every anchor
/// lies within the range that glyphs are drawn at, and the samples of the
/// canvas can be held in memory.
pub open spec fn canvas_fits(width: nat, height: nat) -> bool {
    &&& canvas_width(width) <= MAX_ANCHOR
    &&& canvas_height(height) <= MAX_ANCHOR
    &&& SAMPLES_PER_CELL * (width * height) <= isize::MAX
}

/// The samples of the empty canvas for a grid: every sample has the shade of
/// the background.
pub open spec fn background(grid: Raster, scheme: ColorScheme) -> Seq<u8> {
    Seq::new(
        3 * canvas_width(grid.width) * canvas_height(grid.height),
        |i: int| scheme.background_shade(),
    )
}

/// The samples of the canvas after the glyphs of the first `cells` samples
/// of the grid have been drawn, row by row from the top and within a row
/// from the left.
pub open spec fn drawn_cells(grid: Raster, scheme: ColorScheme, font: Seq<u8>, cells: nat) -> Seq<u8>
    decreases cells,
{
    if cells == 0 {
        background(grid, scheme)
    } else {
        let cell = (cells - 1) as nat;
        let row = cell / grid.width;
        let column = cell % grid.width;
        glyph_drawn(
            Raster {
                width: canvas_width(grid.width),
                height: canvas_height(grid.height),
                samples: drawn_cells(grid, scheme, font, cell),
            },
            scheme.glyph_shade(),
            column * CELL_WIDTH + X_OFFSET,
            row * CELL_HEIGHT + Y_OFFSET,
            FONT_SIZE as nat,
            font,
            glyph_of(grid.samples[cell as int], scheme),
        )
    }
}

/// The finished canvas for a grid: one cell for every sample, with the glyph
/// of every sample drawn.
pub open spec fn composed(grid: Raster, scheme: ColorScheme, font: Seq<u8>) -> Raster {
    Raster {
        width: canvas_width(grid.width),
        height: canvas_height(grid.height),
        samples: drawn_cells(grid, scheme, font, grid.width * grid.height),
    }
}

/// Decides whether the canvas for a grid of the given size can be made.
pub fn fits_canvas(width: u32, height: u32) -> (fits: bool)
    ensures
        fits == canvas_fits(width as nat, height as nat),
{
    assert(width * CELL_WIDTH == width * 17 && height * CELL_HEIGHT == height * 17)
        by (nonlinear_arith)
        requires
            CELL_WIDTH == 17,
            CELL_HEIGHT == 17,
    ;
    let wide: u64 = width as u64 * CELL_WIDTH as u64;
    let high: u64 = height as u64 * CELL_HEIGHT as u64;
    if wide > MAX_ANCHOR as u64 || high > MAX_ANCHOR as u64 {
        return false;
    }
    assert(3 * wide * high <= 3 * 0x4000_0000 * 0x4000_0000) by (nonlinear_arith)
        requires
            wide <= 0x4000_0000,
            high <= 0x4000_0000,
    ;
    let samples: u128 = 3 * (wide as u128) * (high as u128);
    assert(samples == SAMPLES_PER_CELL * (width * height)) by (nonlinear_arith)
        requires
            samples == 3 * wide * high,
            wide == width * 17,
            high == height * 17,
            SAMPLES_PER_CELL == 867,
    ;
    samples <= isize::MAX as u128
}

/// Calls `image::ImageBuffer::new` for a picture of three 8-bit channels
/// and takes its samples, which are all zero. The call fails where the
/// samples cannot be held in one vector.
#[verifier::external_body]
fn zeroed_samples(width: u32, height: u32) -> (pixels: Vec<u8>)
    requires
        3 * width * height <= isize::MAX,
    ensures
        pixels@ == Seq::new((3 * width * height) as nat, |i: int| 0u8),
{
    image::RgbImage::new(width, height).into_raw()
}

/// Gives every sample the same shade.
fn fill(pixels: &mut Vec<u8>, shade: u8)
    ensures
        final(pixels)@ == Seq::new(old(pixels)@.len(), |i: int| shade),
{
    let count = pixels.len();
    let mut at: usize = 0;
    while at < count
        invariant
            at <= count,
            pixels@.len() == count,
            forall|i: int| 0 <= i < at ==> pixels@[i] == shade,
        decreases count - at,
    {
        pixels.set(at, shade);
        at = at + 1;
    }
    assert(pixels@ =~= Seq::new(count as nat, |i: int| shade));
}

/// Makes the canvas for a grid of brightness samples: a cell for every
/// sample, filled with the background shade of the scheme, and in every cell
/// the glyph that stands for its sample, drawn in the glyph shade.
pub fn compose(grid: &GrayImage, scheme: ColorScheme, font: &GlyphFont) -> (canvas: ColorImage)
    requires
        grid.wf(),
        canvas_fits(grid@.width, grid@.height),
    ensures
        canvas.wf(),
        canvas@ == composed(grid@, scheme, font@),
        canvas@.width == grid@.width * CELL_WIDTH,
        canvas@.height == grid@.height * CELL_HEIGHT,
{
    let columns = grid.width();
    let rows = grid.height();
    let width: u32 = columns * CELL_WIDTH;
    let height: u32 = rows * CELL_HEIGHT;
    assert(3 * width * height == SAMPLES_PER_CELL * (columns * rows)) by (nonlinear_arith)
        requires
            width == columns * 17,
            height == rows * 17,
            SAMPLES_PER_CELL == 867,
    ;
    let shade = scheme.glyph();
    let mut pixels = zeroed_samples(width, height);
    fill(&mut pixels, scheme.background());
    assert(pixels@ =~= background(grid@, scheme));
    let mut row: u32 = 0;
    assert(row * columns == 0) by (nonlinear_arith)
        requires
            row == 0,
    ;
    while row < rows
        invariant
            row <= rows,
            grid.wf(),
            rows == grid@.height,
            columns == grid@.width,
            width == canvas_width(columns as nat),
            height == canvas_height(rows as nat),
            width <= MAX_ANCHOR,
            height <= MAX_ANCHOR,
            shade == scheme.glyph_shade(),
            pixels@.len() == 3 * width * height,
            pixels@ == drawn_cells(grid@, scheme, font@, (row * columns) as nat),
        decreases rows - row,
    {
        let mut column: u32 = 0;
        while column < columns
            invariant
                row < rows,
                column <= columns,
                grid.wf(),
                rows == grid@.height,
                columns == grid@.width,
                width == canvas_width(columns as nat),
                height == canvas_height(rows as nat),
                width <= MAX_ANCHOR,
                height <= MAX_ANCHOR,
                shade == scheme.glyph_shade(),
                pixels@.len() == 3 * width * height,
                pixels@ == drawn_cells(grid@, scheme, font@, (row * columns + column) as nat),
            decreases columns - column,
        {
            let sample = grid.sample(column, row);
            let glyph = glyph_for(sample, scheme);
            let x: i32 = (column * CELL_WIDTH) as i32 + X_OFFSET;
            let y: i32 = (row * CELL_HEIGHT) as i32 + Y_OFFSET;
            proof {
                let cell = row * columns + column;
                assert(0 <= row * columns) by (nonlinear_arith);
                lemma_fundamental_div_mod_converse(
                    cell as int,
                    columns as int,
                    row as int,
                    column as int,
                );
                assert(grid@.offset(column as int, row as int, 1) == cell);
            }
            font.draw(&mut pixels, width, height, shade, x, y, glyph);
            column = column + 1;
        }
        proof {
            assert((row + 1) * columns == row * columns + columns) by (nonlinear_arith);
        }
        row = row + 1;
    }
    proof {
        assert(rows * columns == columns * rows) by (nonlinear_arith);
    }
    ColorImage::from_raw(width, height, pixels).unwrap()
}

} // verus!
