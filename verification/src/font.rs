//! The font that glyphs are drawn with.

use vstd::prelude::*;
use crate::error::RenderError;
use crate::raster::Raster;
use crate::sfnt::{metrics_cover, read_metrics_layout};
use crate::tone::{palette, palette_glyph, PALETTE_LEN};

verus! {

/// Largest distance from the origin, along either axis, at which a glyph is
/// drawn. It leaves the drawing routine room to add the extent of a glyph to
/// a position.
pub const MAX_ANCHOR: i32 = 0x4000_0000;

/// Height at which glyphs are drawn, in pixels.
pub const FONT_SIZE: u8 = 20;

/// The font type of `rusttype`, carried through as it is.
#[verifier::external_type_specification]
#[verifier::external_body]
pub struct ExFace<'a>(rusttype::Font<'a>);

/// Whether `rusttype` accepts `bytes` as the data of a font.
pub uninterp spec fn font_parses(bytes: Seq<u8>) -> bool;

/// The number of glyphs that `rusttype` finds in the font read from `bytes`.
pub uninterp spec fn glyph_count_of(bytes: Seq<u8>) -> nat;

/// The number of the glyph that `rusttype` finds for a character in the font
/// read from `bytes`.
pub uninterp spec fn glyph_id_of(bytes: Seq<u8>, glyph: char) -> u16;

/// The ascent and the descent that `rusttype` reports for the font read from
/// `bytes`, in units of the font.
pub uninterp spec fn vertical_extent_of(bytes: Seq<u8>) -> (int, int);

/// The samples of a colour canvas after `imageproc` has drawn one glyph on
/// it: in the shade given, with the top left corner of the glyph's line at
/// `(x, y)`, in the font read from the bytes `font` at a height of `size`
/// pixels.
pub uninterp spec fn glyph_drawn(
    canvas: Raster,
    shade: u8,
    x: int,
    y: int,
    size: nat,
    font: Seq<u8>,
    glyph: char,
) -> Seq<u8>;

/// The height of the font read from `bytes`, from its descent up to its
/// ascent, in units of the font.
pub open spec fn font_height(bytes: Seq<u8>) -> int {
    vertical_extent_of(bytes).0 - vertical_extent_of(bytes).1
}

/// Whether a line of the one character `glyph` can be laid out in the font
/// read from `bytes` and drawn at the size of the glyphs: the glyph that the
/// font names for the character is one of its glyphs, the file holds
/// horizontal metrics for all its glyphs, and the font is at least as many
/// units high as a glyph is drawn in pixels, so that no unit of the font
/// becomes more than a pixel.
pub open spec fn lays_out(bytes: Seq<u8>, glyph: char) -> bool {
    &&& metrics_cover(bytes, glyph_count_of(bytes))
    &&& glyph_id_of(bytes, glyph) < glyph_count_of(bytes)
    &&& font_height(bytes) >= FONT_SIZE
}

/// Whether every glyph of the palette can be laid out in the font read from
/// `bytes`.
pub open spec fn renders_palette(bytes: Seq<u8>) -> bool {
    forall|i: int| 0 <= i < palette().len() ==> lays_out(bytes, #[trigger] palette()[i])
}

/// A font as `rusttype` read it, together with the bytes it was read from.
/// Only `parse_font` makes one.
pub struct Face {
    source: Ghost<Seq<u8>>,
    inner: rusttype::Font<'static>,
}

impl View for Face {
    type V = Seq<u8>;

    /// The bytes that the font was read from.
    closed spec fn view(&self) -> Seq<u8> {
        self.source@
    }
}

/// Hands font data to `rusttype::Font::try_from_vec`, which answers `None`
/// for data that it cannot read, and keeps what it answers together with
/// the bytes that were handed over. Whether the data can be read depends on
/// the bytes alone.
#[verifier::external_body]
fn parse_font(bytes: Vec<u8>) -> (face: Option<Face>)
    ensures
        face.is_some() == font_parses(bytes@),
        face matches Some(f) ==> f@ == bytes@,
{
    let source = Ghost(bytes@);
    match rusttype::Font::try_from_vec(bytes) {
        Some(inner) => Some(Face { source, inner }),
        None => None,
    }
}

impl Face {
    /// Calls `rusttype::Font::glyph_count`, which reads the number of glyphs
    /// from the font.
    #[verifier::external_body]
    fn glyph_count(&self) -> (count: usize)
        ensures
            count == glyph_count_of(self@),
    {
        self.inner.glyph_count()
    }

    /// Calls `rusttype::IntoGlyphId::into_glyph_id` for a character, which
    /// looks the character up in the font and answers glyph 0 where the font
    /// has no glyph for it. The answer is not held against the number of
    /// glyphs.
    #[verifier::external_body]
    fn glyph_id(&self, glyph: char) -> (id: u16)
        ensures
            id == glyph_id_of(self@, glyph),
    {
        rusttype::IntoGlyphId::into_glyph_id(glyph, &self.inner).0
    }

    /// Calls `rusttype::Font::v_metrics_unscaled`, which reports the ascent
    /// and the descent of the font as it reads them, both whole numbers of
    /// 16 bits.
    #[verifier::external_body]
    fn vertical_extent(&self) -> (extent: (i32, i32))
        ensures
            (extent.0 as int, extent.1 as int) == vertical_extent_of(self@),
    {
        let metrics = self.inner.v_metrics_unscaled();
        (metrics.ascent as i32, metrics.descent as i32)
    }

    /// Calls `imageproc::drawing::draw_text_mut` with a text of one
    /// character, a grey colour and the same scale along both axes. The call
    /// blends the glyph into the pixels that it covers and leaves the size
    /// of the canvas alone; the outcome is a function of the canvas, the
    /// font and the other arguments.
    ///
    /// The call has `rusttype` lay the character out, which stops the
    /// program where the glyph named for the character is none of the
    /// font's, where the font has no horizontal metrics for it, and where
    /// ascent and descent leave the font no height: `lays_out` rules these
    /// out. The outline is then filled on a raster as large as the box of
    /// the glyph, which is taken from whole units of the font while the
    /// points of an outline may lie between them. A point may so lie
    /// outside the raster by as many pixels as a unit of the font is scaled
    /// to, and the filling bears less than one pixel: hence the size must
    /// not exceed the height of the font. Last, the call adds the extent of
    /// the glyph to the anchor in 32 bits, which the bound on the anchor
    /// leaves room for: no coordinate of a glyph exceeds 32768 pixels at
    /// such a size. What memory the drawing takes is not accounted for.
    #[verifier::external_body]
    fn draw(
        &self,
        pixels: &mut Vec<u8>,
        width: u32,
        height: u32,
        shade: u8,
        x: i32,
        y: i32,
        size: u8,
        glyph: char,
    )
        requires
            old(pixels)@.len() == 3 * width * height,
            -MAX_ANCHOR <= x <= MAX_ANCHOR,
            -MAX_ANCHOR <= y <= MAX_ANCHOR,
            lays_out(self@, glyph),
            size <= font_height(self@),
        ensures
            final(pixels)@ == glyph_drawn(
                Raster { width: width as nat, height: height as nat, samples: old(pixels)@ },
                shade,
                x as int,
                y as int,
                size as nat,
                self@,
                glyph,
            ),
            final(pixels)@.len() == old(pixels)@.len(),
    {
        let mut canvas = image::RgbImage::from_raw(width, height, std::mem::take(pixels)).unwrap();
        let color = image::Rgb([shade, shade, shade]);
        let scale = rusttype::Scale::uniform(size.into());
        let text = glyph.to_string();
        imageproc::drawing::draw_text_mut(&mut canvas, color, x, y, scale, &self.inner, &text);
        *pixels = canvas.into_raw();
    }
}

/// A font that every glyph of the palette can be drawn in.
pub struct GlyphFont {
    face: Face,
}

impl View for GlyphFont {
    type V = Seq<u8>;

    /// The bytes that the font was read from.
    closed spec fn view(&self) -> Seq<u8> {
        self.face@
    }
}

impl GlyphFont {
    #[verifier::type_invariant]
    spec fn sound(self) -> bool {
        renders_palette(self.face@)
    }

    /// Reads a font from the bytes of a font file. It succeeds where
    /// `rusttype` can read the bytes as a font and every glyph of the
    /// palette can be laid out in it and drawn at the size of the glyphs,
    /// and only there.
    pub fn load(bytes: Vec<u8>) -> (font: Result<GlyphFont, RenderError>)
        ensures
            match font {
                Ok(f) => font_parses(bytes@) && renders_palette(bytes@) && f@ == bytes@,
                Err(e) => e == RenderError::FontUnreadable && !(font_parses(bytes@)
                    && renders_palette(bytes@)),
            },
    {
        let layout = read_metrics_layout(&bytes);
        let face = match parse_font(bytes) {
            Some(face) => face,
            None => {
                return Err(RenderError::FontUnreadable);
            },
        };
        let glyphs = face.glyph_count();
        let covered = match layout {
            Some((full, length)) => {
                let beyond: u128 = if glyphs as u128 > full as u128 {
                    glyphs as u128 - full as u128
                } else {
                    0
                };
                length as u128 >= 4 * (full as u128) + 2 * beyond
            },
            None => false,
        };
        let (ascent, descent) = face.vertical_extent();
        if !covered || (ascent as i64) - (descent as i64) < FONT_SIZE as i64 {
            assert(!lays_out(bytes@, palette()[0]));
            return Err(RenderError::FontUnreadable);
        }
        let mut index: usize = 0;
        while index < PALETTE_LEN
            invariant
                index <= PALETTE_LEN,
                face@ == bytes@,
                glyphs == glyph_count_of(bytes@),
                metrics_cover(bytes@, glyph_count_of(bytes@)),
                font_height(bytes@) >= FONT_SIZE,
                forall|i: int| 0 <= i < index ==> lays_out(bytes@, #[trigger] palette()[i]),
            decreases PALETTE_LEN - index,
        {
            let id = face.glyph_id(palette_glyph(index));
            if id as usize >= glyphs {
                assert(!lays_out(bytes@, palette()[index as int]));
                return Err(RenderError::FontUnreadable);
            }
            index = index + 1;
        }
        Ok(GlyphFont { face })
    }

    /// Draws one glyph of the palette onto a canvas held as its samples, at
    /// the size of the glyphs.
    pub(crate) fn draw(
        &self,
        pixels: &mut Vec<u8>,
        width: u32,
        height: u32,
        shade: u8,
        x: i32,
        y: i32,
        glyph: char,
    )
        requires
            old(pixels)@.len() == 3 * width * height,
            -MAX_ANCHOR <= x <= MAX_ANCHOR,
            -MAX_ANCHOR <= y <= MAX_ANCHOR,
            palette().contains(glyph),
        ensures
            final(pixels)@ == glyph_drawn(
                Raster { width: width as nat, height: height as nat, samples: old(pixels)@ },
                shade,
                x as int,
                y as int,
                FONT_SIZE as nat,
                self@,
                glyph,
            ),
            final(pixels)@.len() == old(pixels)@.len(),
    {
        proof {
            use_type_invariant(self);
            let i = choose|i: int| 0 <= i < palette().len() && palette()[i] == glyph;
            assert(lays_out(self@, palette()[i]));
        }
        self.face.draw(pixels, width, height, shade, x, y, FONT_SIZE, glyph);
    }
}

} // verus!
