//! Mapping of brightness values to palette positions and canvas colours.

use vstd::prelude::*;

verus! {

/// A picture whose overall brightness lies below this value is rendered with
/// light glyphs on a dark canvas.
pub const DARK_THRESHOLD: u8 = 110;

/// Number of glyphs in the palette.
pub const PALETTE_LEN: usize = 10;

/// The palette, from the densest glyph to the sparsest.
pub open spec fn palette() -> Seq<char> {
    seq!['@', '%', '#', '?', '+', '=', ':', '-', '.', ' ']
}

/// The palette position for brightness `p` on a light canvas: `p` mapped
/// linearly from `[0, 255]` onto `[0, n - 1]` and rounded to the nearest
/// integer.
pub open spec fn tone_level(p: int, n: int) -> int {
    (2 * p * (n - 1) + 255) / 510
}

/// The palette position for brightness `p`, mirrored where the canvas is
/// dark: the palette is ordered for a light canvas, on which a dense glyph
/// stands for a dark sample.
pub open spec fn glyph_level(p: int, n: int, dark: bool) -> int {
    if dark {
        (n - 1) - tone_level(p, n)
    } else {
        tone_level(p, n)
    }
}

/// The level is the integer nearest to `p * (n - 1) / 255`; the distance to
/// it is always less than one half, so no tie has to be broken.
pub proof fn tone_level_is_nearest(p: int, n: int)
    requires
        0 <= p <= 255,
        n >= 1,
    ensures
        510 * tone_level(p, n) - 255 < 2 * p * (n - 1) < 510 * tone_level(p, n) + 255,
{
    let m = 2 * p * (n - 1) + 255;
    assert(m == 510 * (m / 510) + m % 510) by {
        vstd::arithmetic::div_mod::lemma_fundamental_div_mod(m, 510);
    }
    assert(m % 510 != 0) by {
        assert(2 * p * (n - 1) == 2 * (p * (n - 1))) by (nonlinear_arith);
        if m % 510 == 0 {
            assert(m == 2 * (255 * (m / 510)));
            assert(false);
        }
    }
}

/// Black maps to the first level and white to the last.
pub proof fn tone_level_endpoints(n: int)
    requires
        n >= 1,
    ensures
        tone_level(0, n) == 0,
        tone_level(255, n) == n - 1,
{
    assert(2 * 0 * (n - 1) == 0) by (nonlinear_arith);
    assert(2 * 255 * (n - 1) + 255 == 510 * (n - 1) + 255) by (nonlinear_arith);
}

/// A brighter sample never maps to an earlier level.
pub proof fn tone_level_monotonic(p: int, q: int, n: int)
    requires
        0 <= p <= q <= 255,
        n >= 1,
    ensures
        tone_level(p, n) <= tone_level(q, n),
{
    assert(2 * p * (n - 1) <= 2 * q * (n - 1)) by (nonlinear_arith)
        requires
            0 <= p <= q,
            n >= 1,
    ;
    vstd::arithmetic::div_mod::lemma_div_is_ordered(
        2 * p * (n - 1) + 255,
        2 * q * (n - 1) + 255,
        510,
    );
}

/// Every level is a palette position.
pub proof fn tone_level_in_range(p: int, n: int)
    requires
        0 <= p <= 255,
        n >= 1,
    ensures
        0 <= tone_level(p, n) <= n - 1,
{
    tone_level_monotonic(0, p, n);
    tone_level_monotonic(p, 255, n);
    tone_level_endpoints(n);
}

/// On a dark canvas the level is the mirror image of the level on a light
/// canvas.
pub proof fn polarity_mirrors_level(p: int, n: int)
    ensures
        glyph_level(p, n, true) == (n - 1) - glyph_level(p, n, false),
{
}

/// Maps brightness `p` to a position in a palette of `n` glyphs, for a light
/// canvas.
pub fn tone_index(p: u8, n: usize) -> (index: usize)
    requires
        n >= 1,
    ensures
        index == tone_level(p as int, n as int),
        index <= n - 1,
{
    proof {
        tone_level_in_range(p as int, n as int);
        assert(0 <= 2 * (p as int) * (n as int - 1) <= 2 * 255 * (n as int - 1)) by (nonlinear_arith)
            requires
                0 <= p as int <= 255,
                n as int >= 1,
        ;
    }
    let spread: u128 = 2 * (p as u128) * ((n - 1) as u128) + 255;
    (spread / 510) as usize
}

/// Maps brightness `p` to a position in a palette of `n` glyphs, mirrored
/// where the canvas is dark.
pub fn glyph_index(p: u8, n: usize, dark: bool) -> (index: usize)
    requires
        n >= 1,
    ensures
        index == glyph_level(p as int, n as int, dark),
        index <= n - 1,
{
    let level = tone_index(p, n);
    if dark {
        n - 1 - level
    } else {
        level
    }
}

/// The glyph at a position of the palette.
pub fn palette_glyph(index: usize) -> (glyph: char)
    requires
        index < PALETTE_LEN,
    ensures
        glyph == palette()[index as int],
{
    let glyphs = "@%#?+=:-. ";
    proof {
        reveal_strlit("@%#?+=:-. ");
        assert(glyphs@ =~= palette());
    }
    glyphs.get_char(index)
}

/// The colours of a canvas: black glyphs on white, or white glyphs on black.
#[derive(Clone, Copy, Debug, PartialEq, Eq, Structural)]
pub enum ColorScheme {
    /// Black glyphs on a white canvas, for a bright picture.
    DarkOnLight,
    /// White glyphs on a black canvas, for a dark picture.
    LightOnDark,
}

impl ColorScheme {
    /// The scheme for a picture of the given overall brightness.
    pub open spec fn matching(brightness: u8) -> ColorScheme {
        if brightness < DARK_THRESHOLD {
            ColorScheme::LightOnDark
        } else {
            ColorScheme::DarkOnLight
        }
    }

    /// The shade that the canvas is filled with.
    pub open spec fn background_shade(self) -> u8 {
        match self {
            ColorScheme::DarkOnLight => 255,
            ColorScheme::LightOnDark => 0,
        }
    }

    /// The shade that glyphs are drawn in.
    pub open spec fn glyph_shade(self) -> u8 {
        match self {
            ColorScheme::DarkOnLight => 0,
            ColorScheme::LightOnDark => 255,
        }
    }

    /// Whether the canvas is dark, so that palette positions are mirrored.
    pub open spec fn dark(self) -> bool {
        self == ColorScheme::LightOnDark
    }

    /// Chooses the scheme for a picture of the given overall brightness.
    pub fn for_brightness(brightness: u8) -> (scheme: ColorScheme)
        ensures
            scheme == ColorScheme::matching(brightness),
            scheme.background_shade() != scheme.glyph_shade(),
    {
        if brightness < DARK_THRESHOLD {
            ColorScheme::LightOnDark
        } else {
            ColorScheme::DarkOnLight
        }
    }

    /// The shade that the canvas is filled with.
    pub fn background(&self) -> (shade: u8)
        ensures
            shade == self.background_shade(),
    {
        match self {
            ColorScheme::DarkOnLight => 255,
            ColorScheme::LightOnDark => 0,
        }
    }

    /// The shade that glyphs are drawn in.
    pub fn glyph(&self) -> (shade: u8)
        ensures
            shade == self.glyph_shade(),
    {
        match self {
            ColorScheme::DarkOnLight => 0,
            ColorScheme::LightOnDark => 255,
        }
    }

    /// Whether the canvas is dark.
    pub fn is_dark(&self) -> (dark: bool)
        ensures
            dark == self.dark(),
    {
        match self {
            ColorScheme::DarkOnLight => false,
            ColorScheme::LightOnDark => true,
        }
    }
}

/// In every scheme the canvas and the glyphs have the two extreme shades,
/// one each.
pub proof fn scheme_uses_both_extremes(scheme: ColorScheme)
    ensures
        scheme.background_shade() != scheme.glyph_shade(),
        scheme.background_shade() == 0 || scheme.background_shade() == 255,
        scheme.glyph_shade() == 0 || scheme.glyph_shade() == 255,
{
}

/// The glyph that stands for a sample of brightness `p` under a scheme.
pub open spec fn glyph_of(p: u8, scheme: ColorScheme) -> char {
    palette()[glyph_level(p as int, PALETTE_LEN as int, scheme.dark())]
}

/// Picks the glyph that stands for a sample of brightness `p` under a
/// scheme.
pub fn glyph_for(p: u8, scheme: ColorScheme) -> (glyph: char)
    ensures
        glyph == glyph_of(p, scheme),
        palette().contains(glyph),
{
    palette_glyph(glyph_index(p, PALETTE_LEN, scheme.is_dark()))
}

} // verus!
