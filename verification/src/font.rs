//! Fonts: what a cell asks of a font, what a font hands back, and the
//! built-in bitmap font.

use vstd::prelude::*;

verus! {

/// A glyph as rows of intensities, 0 to 255 each.
pub enum Rasterized<'a> {
    Slice(&'a [&'a [u8]]),
    Vec(&'a Vec<Vec<u8>>),
    Owned(Vec<Vec<u8>>),
}

impl<'a> Rasterized<'a> {
    /// The rows of the glyph as mathematical sequences.
    pub open spec fn rows(self) -> Seq<Seq<u8>> {
        match self {
            Rasterized::Slice(raster) => raster@.map_values(|row: &[u8]| row@),
            Rasterized::Vec(raster) => raster@.map_values(|row: Vec<u8>| row@),
            Rasterized::Owned(raster) => raster@.map_values(|row: Vec<u8>| row@),
        }
    }
}

/// The glyph that a cell asks for.
#[derive(Clone, Copy, Debug, PartialEq, Eq, PartialOrd, Ord, Hash, Default)]
pub struct ContentInfo {
    pub content: char,
    pub bold: bool,
    pub italic: bool,
    pub wide: bool,
}

impl ContentInfo {
    pub fn new(content: char, bold: bool, italic: bool, wide: bool) -> (r: ContentInfo)
        ensures
            r.content == content,
            r.bold == bold,
            r.italic == italic,
            r.wide == wide,
    {
        ContentInfo { content, bold, italic, wide }
    }
}

/// A source of glyphs of one cell size.
pub trait FontManager: Send {
    /// Width and height of a cell, in pixels.
    fn size(&self) -> (usize, usize);

    /// The glyph for `info`.
    fn rasterize(&mut self, info: ContentInfo) -> Rasterized<'_>;
}

/// The rows of a static raster as mathematical sequences.
pub open spec fn raster_rows(raster: Seq<&'static [u8]>) -> Seq<Seq<u8>> {
    raster.map_values(|row: &'static [u8]| row@)
}

/// The raster that the Noto Sans Mono bitmap tables hold for `c` at height
/// 20, in the bold or the regular weight; `None` where they hold none.
pub uninterp spec fn noto_glyph(c: char, bold: bool) -> Option<Seq<Seq<u8>>>;

/// Whether the rows are a raster of the built-in font: 20 rows of 9
/// intensities.
pub open spec fn noto_shaped(rows: Seq<Seq<u8>>) -> bool {
    rows.len() == 20 && forall|i: int| 0 <= i < rows.len() ==> (#[trigger] rows[i]).len() == 9
}

/// Calls `noto_sans_mono_bitmap::get_raster` at height 20 and takes the
/// raster out of what it returns.
///
/// Assumed, not proved: the result is a function of the character and the
/// weight alone, and a raster has as many rows as the height says and in
/// each row as many intensities as the width of the font at that height.
#[verifier::external_body]
fn noto_raster(c: char, bold: bool) -> (r: Option<&'static [&'static [u8]]>)
    ensures
        match r {
            Some(raster) => noto_glyph(c, bold) == Some(raster_rows(raster@)) && noto_shaped(
                raster_rows(raster@),
            ),
            None => noto_glyph(c, bold) is None,
        },
{
    let weight = if bold {
        noto_sans_mono_bitmap::FontWeight::Bold
    } else {
        noto_sans_mono_bitmap::FontWeight::Regular
    };
    noto_sans_mono_bitmap::get_raster(c, weight, noto_sans_mono_bitmap::RasterHeight::Size20).map(
        |r| r.raster(),
    )
}

/// Calls `noto_sans_mono_bitmap::get_raster_width` for the regular weight at
/// height 20.
///
/// Assumed, not proved: that width is 9 pixels.
#[verifier::external_body]
fn noto_raster_width() -> (r: usize)
    ensures
        r == 9,
{
    noto_sans_mono_bitmap::get_raster_width(
        noto_sans_mono_bitmap::FontWeight::Regular,
        noto_sans_mono_bitmap::RasterHeight::Size20,
    )
}

/// Calls `noto_sans_mono_bitmap::RasterHeight::val` on the height 20.
///
/// Assumed, not proved: its value is 20.
#[verifier::external_body]
fn noto_raster_height() -> (r: usize)
    ensures
        r == 20,
{
    noto_sans_mono_bitmap::RasterHeight::Size20.val()
}

/// The glyph that the bitmap font draws for `c`: its own raster, else the
/// raster of U+FFFD, else nothing.
pub open spec fn bitmap_glyph(c: char, bold: bool) -> Seq<Seq<u8>> {
    match noto_glyph(c, bold) {
        Some(rows) => rows,
        None => match noto_glyph('\u{fffd}', bold) {
            Some(rows) => rows,
            None => Seq::empty(),
        },
    }
}

/// The built-in font: Noto Sans Mono, 9 by 20 pixels, regular and bold.
pub struct BitmapFont;

impl BitmapFont {
    /// The raster for `content` in the given weight; the raster of U+FFFD
    /// for a character that the font does not have.
    pub fn glyph(content: char, bold: bool) -> (r: &'static [&'static [u8]])
        ensures
            raster_rows(r@) == bitmap_glyph(content, bold),
            noto_shaped(raster_rows(r@)) || r@.len() == 0,
    {
        match noto_raster(content, bold) {
            Some(raster) => raster,
            None => match noto_raster('\u{fffd}', bold) {
                Some(raster) => raster,
                None => {
                    let empty: &'static [&'static [u8]] = &[];
                    assert(raster_rows(empty@) =~= Seq::<Seq<u8>>::empty());
                    empty
                },
            },
        }
    }
}

impl FontManager for BitmapFont {
    fn size(&self) -> (r: (usize, usize))
        ensures
            r == (9usize, 20usize),
    {
        (noto_raster_width(), noto_raster_height())
    }

    fn rasterize(&mut self, info: ContentInfo) -> (r: Rasterized<'_>)
        ensures
            r matches Rasterized::Slice(raster) && raster_rows(raster@) == bitmap_glyph(
                info.content,
                info.bold,
            ) && (noto_shaped(raster_rows(raster@)) || raster@.len() == 0),
    {
        Rasterized::Slice(BitmapFont::glyph(info.content, info.bold))
    }
}

} // verus!
