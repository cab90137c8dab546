//! Painting: from a cell to the pixels of its rectangle on the display.

use vstd::prelude::*;
use crate::cell::{Cell, Color, Flags};
use crate::color::{ColorScheme, Rgb};
use crate::font::{ContentInfo, FontManager, Rasterized};

verus! {

/// A pixel sink.
pub trait DrawTarget {
    /// Width and height of the display in pixels.
    fn size(&self) -> (usize, usize);

    /// Writes one pixel.
    fn draw_pixel(&mut self, x: usize, y: usize, color: Rgb);
}

/// One channel of the blend of a foreground over a background at intensity
/// `i` of 255: `bg + (fg - bg) * i / 255`, the quotient rounded toward zero.
pub open spec fn blend(fg: u8, bg: u8, i: int) -> int {
    if fg >= bg {
        bg + ((fg - bg) * i) / 255
    } else {
        bg - ((bg - fg) * i) / 255
    }
}

/// The blend stays between the two colors, so within a byte; at intensity 0
/// it is the background and at 255 the foreground.
pub proof fn lemma_blend_bounds(fg: u8, bg: u8, i: int)
    requires
        0 <= i <= 255,
    ensures
        0 <= blend(fg, bg, i) <= 255,
        fg >= bg ==> bg <= blend(fg, bg, i) <= fg,
        fg < bg ==> fg <= blend(fg, bg, i) <= bg,
        blend(fg, bg, 0) == bg,
        blend(fg, bg, 255) == fg,
{
    if fg >= bg {
        let d = fg - bg;
        assert(0 <= (d * i) / 255 <= d) by (nonlinear_arith)
            requires
                0 <= d,
                0 <= i <= 255,
        ;
        assert((d * 255) / 255 == d) by (nonlinear_arith);
        assert((d * 0) / 255 == 0) by (nonlinear_arith);
    } else {
        let d = bg - fg;
        assert(0 <= (d * i) / 255 <= d) by (nonlinear_arith)
            requires
                0 <= d,
                0 <= i <= 255,
        ;
        assert((d * 255) / 255 == d) by (nonlinear_arith);
        assert((d * 0) / 255 == 0) by (nonlinear_arith);
    }
}

fn blend_channel(fg: u8, bg: u8, i: usize) -> (r: u8)
    requires
        i <= 255,
    ensures
        r == blend(fg, bg, i as int),
{
    proof {
        lemma_blend_bounds(fg, bg, i as int);
    }
    if fg >= bg {
        let d: u32 = (fg - bg) as u32;
        assert(d * (i as u32) <= 255 * 255) by (nonlinear_arith)
            requires
                d <= 255,
                i <= 255,
        ;
        let step: u32 = (d * (i as u32)) / 255;
        (bg as u32 + step) as u8
    } else {
        let d: u32 = (bg - fg) as u32;
        assert(d * (i as u32) <= 255 * 255) by (nonlinear_arith)
            requires
                d <= 255,
                i <= 255,
        ;
        let step: u32 = (d * (i as u32)) / 255;
        (bg as u32 - step) as u8
    }
}

/// The 256 blends of one foreground over one background, one table for each
/// channel.
pub struct ColorCache {
    red: [u8; 256],
    green: [u8; 256],
    blue: [u8; 256],
}

impl ColorCache {
    /// The color that the tables hold for intensity `i`.
    pub closed spec fn at(self, i: int) -> Rgb {
        (self.red@[i], self.green@[i], self.blue@[i])
    }

    /// The color that the tables hold for three intensities, one for each
    /// channel.
    pub closed spec fn at_each(self, r: int, g: int, b: int) -> Rgb {
        (self.red@[r], self.green@[g], self.blue@[b])
    }

    /// Whether the tables hold the blends of `foreground` over `background`.
    pub open spec fn is_ramp(self, foreground: Rgb, background: Rgb) -> bool {
        forall|r: int, g: int, b: int|
            0 <= r < 256 && 0 <= g < 256 && 0 <= b < 256 ==> #[trigger] self.at_each(r, g, b) == (
                blend(foreground.0, background.0, r) as u8,
                blend(foreground.1, background.1, g) as u8,
                blend(foreground.2, background.2, b) as u8,
            )
    }

    /// One intensity is the same intensity on each channel.
    pub proof fn lemma_at(self, i: int)
        ensures
            self.at(i) == self.at_each(i, i, i),
    {
    }

    pub fn new(foreground: Rgb, background: Rgb) -> (r: ColorCache)
        ensures
            r.is_ramp(foreground, background),
            r.at(0) == background,
            r.at(255) == foreground,
    {
        let mut red: [u8; 256] = [0u8; 256];
        let mut green: [u8; 256] = [0u8; 256];
        let mut blue: [u8; 256] = [0u8; 256];
        let mut i: usize = 0;
        while i < 256
            invariant
                i <= 256,
                forall|k: int| 0 <= k < i ==> #[trigger] red@[k] == blend(foreground.0, background.0, k),
                forall|k: int|
                    0 <= k < i ==> #[trigger] green@[k] == blend(foreground.1, background.1, k),
                forall|k: int| 0 <= k < i ==> #[trigger] blue@[k] == blend(foreground.2, background.2, k),
            decreases 256 - i,
        {
            red[i] = blend_channel(foreground.0, background.0, i);
            green[i] = blend_channel(foreground.1, background.1, i);
            blue[i] = blend_channel(foreground.2, background.2, i);
            i += 1;
        }
        proof {
            lemma_blend_bounds(foreground.0, background.0, 0);
            lemma_blend_bounds(foreground.1, background.1, 0);
            lemma_blend_bounds(foreground.2, background.2, 0);
        }
        ColorCache { red, green, blue }
    }

    /// The blend at `intensity`.
    pub fn lookup(&self, intensity: u8) -> (r: Rgb)
        ensures
            r == self.at(intensity as int),
    {
        (self.red[intensity as usize], self.green[intensity as usize], self.blue[intensity as usize])
    }

    /// The blend for a sub-pixel raster: one intensity for each channel.
    pub fn lookup_subpixel(&self, r: u8, g: u8, b: u8) -> (rgb: Rgb)
        ensures
            rgb == self.at_each(r as int, g as int, b as int),
    {
        (self.red[r as usize], self.green[g as usize], self.blue[b as usize])
    }
}

/// Foreground and background of `cell` as painted under `scheme`: the two
/// colors are exchanged for an inverse cell and for one under a block
/// cursor; a hidden cell is painted in its background alone.
pub open spec fn painted_colors(cell: Cell, scheme: ColorScheme) -> (Rgb, Rgb) {
    let fg = scheme.resolve(cell.foreground);
    let bg = scheme.resolve(cell.background);
    let (fg, bg) = if cell.flags.has_any(Flags::INVERSE | Flags::CURSOR_BLOCK) {
        (bg, fg)
    } else {
        (fg, bg)
    };
    if cell.flags.has_all(Flags::HIDDEN) {
        (bg, bg)
    } else {
        (fg, bg)
    }
}

/// Foreground and background of `cell` as painted under `scheme`.
pub fn cell_colors(cell: Cell, scheme: &ColorScheme) -> (r: (Rgb, Rgb))
    ensures
        r == painted_colors(cell, *scheme),
{
    let mut foreground = color_to_rgb(scheme, cell.foreground);
    let mut background = color_to_rgb(scheme, cell.background);
    if cell.flags.intersects(Flags::INVERSE | Flags::CURSOR_BLOCK) {
        let kept = foreground;
        foreground = background;
        background = kept;
    }
    if cell.flags.contains(Flags::HIDDEN) {
        foreground = background;
    }
    (foreground, background)
}

/// What `color` resolves to under `scheme`.
pub fn color_to_rgb(scheme: &ColorScheme, color: Color) -> (r: Rgb)
    ensures
        r == scheme.resolve(color),
{
    match color {
        Color::Rgb(r, g, b) => (r, g, b),
        Color::Indexed(index) => scheme.color(index),
    }
}

#[verifier::external_type_specification]
#[verifier::external_body]
#[verifier::reject_recursive_types(K)]
#[verifier::reject_recursive_types(V)]
#[verifier::reject_recursive_types(S)]
pub struct ExLruCache<K, V, S>(lru::LruCache<K, V, S>);

#[verifier::external_type_specification]
#[verifier::external_body]
pub struct ExDefaultHasher(lru::DefaultHasher);

/// Foreground, then background.
pub type ColorPair = (Rgb, Rgb);

/// A bounded cache of color tables, by foreground and background.
pub type ColorTables = lru::LruCache<ColorPair, ColorCache>;

/// The entries that a cache of color tables holds.
pub uninterp spec fn cached(cache: ColorTables) -> Map<ColorPair, ColorCache>;

/// How many entries a cache of color tables keeps at most.
pub uninterp spec fn table_limit(cache: ColorTables) -> usize;

/// A cache of color tables without entries.
pub open spec fn no_tables() -> Map<ColorPair, ColorCache> {
    Map::empty()
}

/// Calls `lru::LruCache::new`.
///
/// Assumed, not proved: the new cache holds no entry and keeps at most
/// `capacity` entries.
#[verifier::external_body]
fn cache_new(capacity: usize) -> (tables: ColorTables)
    requires
        0 < capacity <= 65536,
    ensures
        cached(tables) == no_tables(),
        table_limit(tables) == capacity,
{
    lru::LruCache::new(core::num::NonZeroUsize::new(capacity).unwrap())
}

/// Calls `lru::LruCache::resize`.
///
/// Assumed, not proved: afterwards the cache keeps at most `capacity`
/// entries; the call adds no entry and changes none; it may drop entries.
#[verifier::external_body]
fn cache_resize(cache: &mut ColorTables, capacity: usize)
    requires
        0 < capacity,
    ensures
        table_limit(*final(cache)) == capacity,
        forall|k: ColorPair| #[trigger]
            cached(*final(cache)).contains_key(k) ==> cached(*old(cache)).contains_key(k) && cached(
                *final(cache),
            )[k] == cached(*old(cache))[k],
{
    cache.resize(core::num::NonZeroUsize::new(capacity).unwrap())
}

/// Calls `lru::LruCache::get_or_insert` with the pair of colors as the key
/// and `ColorCache::new` as the way to make a missing entry.
///
/// Assumed, not proved: the call returns the entry that the cache held under
/// the key, or else the newly made one; afterwards the cache holds what was
/// returned under the key, and every other entry that it holds it held
/// before, unchanged (it may have dropped some); how many entries it keeps
/// at most does not change.
#[verifier::external_body]
fn cache_get_or_insert(
    cache: &mut ColorTables,
    foreground: Rgb,
    background: Rgb,
) -> (entry: &ColorCache)
    ensures
        table_limit(*final(cache)) == table_limit(*old(cache)),
        cached(*old(cache)).contains_key((foreground, background)) ==> *entry == cached(
            *old(cache),
        )[(foreground, background)],
        !cached(*old(cache)).contains_key((foreground, background)) ==> entry.is_ramp(
            foreground,
            background,
        ),
        cached(*final(cache)).contains_key((foreground, background)),
        cached(*final(cache))[(foreground, background)] == *entry,
        forall|k: ColorPair| #[trigger]
            cached(*final(cache)).contains_key(k) && k != (foreground, background) ==> cached(
                *old(cache),
            ).contains_key(k) && cached(*final(cache))[k] == cached(*old(cache))[k],
{
    cache.get_or_insert((foreground, background), || ColorCache::new(foreground, background))
}

/// One pixel handed to the display: x, y, and the color.
pub type Pixel = (usize, usize, Rgb);

/// The color of intensity `i` of a foreground over a background.
pub open spec fn shade(foreground: Rgb, background: Rgb, i: int) -> Rgb {
    (
        blend(foreground.0, background.0, i) as u8,
        blend(foreground.1, background.1, i) as u8,
        blend(foreground.2, background.2, i) as u8,
    )
}

/// The pixel at the offset `dx`, `dy` from `x0`, `y0` in `color`; nothing
/// where that place lies beyond what the machine can address.
pub open spec fn pixel_at(x0: int, dx: int, y0: int, dy: int, color: Rgb) -> Seq<Pixel> {
    if x0 + dx <= usize::MAX && y0 + dy <= usize::MAX {
        seq![((x0 + dx) as usize, (y0 + dy) as usize, color)]
    } else {
        Seq::empty()
    }
}

/// The pixels of the first `upto` intensities of `line`, painted from `x0`
/// to the right in the row `dy` below `y0`, left to right.
pub open spec fn line_pixels(
    line: Seq<u8>,
    upto: int,
    x0: int,
    y0: int,
    dy: int,
    foreground: Rgb,
    background: Rgb,
) -> Seq<Pixel>
    decreases upto,
{
    if upto <= 0 {
        Seq::empty()
    } else {
        line_pixels(line, upto - 1, x0, y0, dy, foreground, background) + pixel_at(
            x0,
            upto - 1,
            y0,
            dy,
            shade(foreground, background, line[upto - 1] as int),
        )
    }
}

/// The pixels of the first `upto` rows of `raster`, painted with its top
/// left corner at `x0`, `y0`, row by row.
pub open spec fn raster_pixels(
    raster: Seq<Seq<u8>>,
    upto: int,
    x0: int,
    y0: int,
    foreground: Rgb,
    background: Rgb,
) -> Seq<Pixel>
    decreases upto,
{
    if upto <= 0 {
        Seq::empty()
    } else {
        raster_pixels(raster, upto - 1, x0, y0, foreground, background) + line_pixels(
            raster[upto - 1],
            raster[upto - 1].len() as int,
            x0,
            y0,
            upto - 1,
            foreground,
            background,
        )
    }
}

/// The first `upto` pixels of a row in one color, from `x0` to the right in
/// the row `dy` below `y0`.
pub open spec fn run_pixels(upto: int, x0: int, y0: int, dy: int, color: Rgb) -> Seq<Pixel>
    decreases upto,
{
    if upto <= 0 {
        Seq::empty()
    } else {
        run_pixels(upto - 1, x0, y0, dy, color) + pixel_at(x0, upto - 1, y0, dy, color)
    }
}

/// The pixels of the first `upto` rows of a rectangle `width` pixels wide
/// in one color, with its top left corner at `x0`, `y0`, row by row.
pub open spec fn block_pixels(width: int, upto: int, x0: int, y0: int, color: Rgb) -> Seq<Pixel>
    decreases upto,
{
    if upto <= 0 {
        Seq::empty()
    } else {
        block_pixels(width, upto - 1, x0, y0, color) + run_pixels(width, x0, y0, upto - 1, color)
    }
}

/// The pixels that paint `cell` with its top left corner at `x0`, `y0`,
/// given the cell size of the font and the raster that the font gave for the
/// cell: the raster in the blends of the cell's painted colors, then the
/// left column in the foreground under a beam cursor, then the bottom row in
/// the foreground under an underline.
pub open spec fn cell_pixels(
    cell: Cell,
    x0: int,
    y0: int,
    font_size: (usize, usize),
    raster: Seq<Seq<u8>>,
    foreground: Rgb,
    background: Rgb,
) -> Seq<Pixel> {
    let solid = shade(foreground, background, 255);
    raster_pixels(raster, raster.len() as int, x0, y0, foreground, background) + (if cell.flags.has_all(
        Flags::CURSOR_BEAM,
    ) {
        block_pixels(1, font_size.1 as int, x0, y0, solid)
    } else {
        Seq::empty()
    }) + (if cell.flags.has_any(Flags::UNDERLINE | Flags::CURSOR_UNDERLINE) && font_size.1 > 0
        && y0 + font_size.1 - 1 <= usize::MAX {
        block_pixels(font_size.0 as int, 1, x0, y0 + font_size.1 - 1, solid)
    } else {
        Seq::empty()
    })
}

/// What a font answered when a cell was painted: the size of its cells and
/// the raster for the cell.
pub struct FontAnswer {
    pub size: (usize, usize),
    pub raster: Seq<Seq<u8>>,
}

/// The pixels that paint `cell` at row `row`, column `col` under `scheme`,
/// given the cell size of the font and the raster that the font gave for the
/// cell. A placeholder paints nothing, nor does a cell whose origin lies
/// beyond what the machine can address.
pub open spec fn cell_painting(
    cell: Cell,
    row: int,
    col: int,
    scheme: ColorScheme,
    font_size: (usize, usize),
    raster: Seq<Seq<u8>>,
) -> Seq<Pixel> {
    if cell.placeholder {
        Seq::empty()
    } else {
        match cell_origin(row, col, (font_size.0 as int, font_size.1 as int)) {
            Some(at) => cell_pixels(
                cell,
                at.0,
                at.1,
                font_size,
                raster,
                painted_colors(cell, scheme).0,
                painted_colors(cell, scheme).1,
            ),
            None => Seq::empty(),
        }
    }
}

/// The pixel where the cell at `row`, `col` starts under a font whose cells
/// are `font_size` pixels; `None` where that pixel lies beyond what the
/// machine can address.
pub open spec fn cell_origin(row: int, col: int, font_size: (int, int)) -> Option<(int, int)> {
    if col * font_size.0 <= usize::MAX && row * font_size.1 <= usize::MAX {
        Some((col * font_size.0, row * font_size.1))
    } else {
        None
    }
}

/// The pixel where the cell at `row`, `col` starts.
pub fn origin_of(row: usize, col: usize, font_size: (usize, usize)) -> (r: Option<(usize, usize)>)
    ensures
        match r {
            Some(at) => cell_origin(row as int, col as int, (font_size.0 as int, font_size.1 as int))
                == Some((at.0 as int, at.1 as int)),
            None => cell_origin(row as int, col as int, (font_size.0 as int, font_size.1 as int))
                is None,
        },
{
    match col.checked_mul(font_size.0) {
        Some(x) => match row.checked_mul(font_size.1) {
            Some(y) => Some((x, y)),
            None => None,
        },
        None => None,
    }
}

/// Hands one pixel to the display, unless its place lies beyond what the
/// machine can address; `log` keeps what was handed over.
fn put_pixel<D: DrawTarget>(
    display: &mut D,
    log: &mut Ghost<Seq<Pixel>>,
    x0: usize,
    dx: usize,
    y0: usize,
    dy: usize,
    color: Rgb,
)
    ensures
        final(log)@ == old(log)@ + pixel_at(x0 as int, dx as int, y0 as int, dy as int, color),
{
    match x0.checked_add(dx) {
        Some(x) => match y0.checked_add(dy) {
            Some(y) => {
                display.draw_pixel(x, y, color);
                *log = Ghost(log@.push((x, y, color)));
                assert(log@ =~= old(log)@ + pixel_at(
                    x0 as int,
                    dx as int,
                    y0 as int,
                    dy as int,
                    color,
                ));
            },
            None => {
                assert(log@ =~= old(log)@ + Seq::<Pixel>::empty());
            },
        },
        None => {
            assert(log@ =~= old(log)@ + Seq::<Pixel>::empty());
        },
    }
}

/// Paints one row of intensities from the pixel `(x0, y0 + dy)` to the
/// right.
fn draw_line<D: DrawTarget>(
    display: &mut D,
    log: &mut Ghost<Seq<Pixel>>,
    line: &[u8],
    x0: usize,
    y0: usize,
    dy: usize,
    cache: &ColorCache,
    Ghost(colors): Ghost<ColorPair>,
)
    requires
        cache.is_ramp(colors.0, colors.1),
    ensures
        final(log)@ == old(log)@ + line_pixels(
            line@,
            line@.len() as int,
            x0 as int,
            y0 as int,
            dy as int,
            colors.0,
            colors.1,
        ),
{
    let mut x: usize = 0;
    assert(log@ =~= old(log)@ + Seq::<Pixel>::empty());
    while x < line.len()
        invariant
            x <= line.len(),
            cache.is_ramp(colors.0, colors.1),
            log@ == old(log)@ + line_pixels(
                line@,
                x as int,
                x0 as int,
                y0 as int,
                dy as int,
                colors.0,
                colors.1,
            ),
        decreases line.len() - x,
    {
        let ghost before = log@;
        let level = line[x];
        proof {
            cache.lemma_at(level as int);
            assert(cache.at_each(level as int, level as int, level as int) == shade(
                colors.0,
                colors.1,
                level as int,
            ));
        }
        put_pixel(display, log, x0, x, y0, dy, cache.lookup(level));
        assert(log@ =~= old(log)@ + line_pixels(
            line@,
            x + 1,
            x0 as int,
            y0 as int,
            dy as int,
            colors.0,
            colors.1,
        ));
        x += 1;
    }
}

/// Paints a raster held as a slice of rows with its top left corner at
/// `(x0, y0)`.
fn draw_slices<D: DrawTarget>(
    display: &mut D,
    log: &mut Ghost<Seq<Pixel>>,
    raster: &[&[u8]],
    x0: usize,
    y0: usize,
    cache: &ColorCache,
    Ghost(colors): Ghost<ColorPair>,
)
    requires
        cache.is_ramp(colors.0, colors.1),
    ensures
        final(log)@ == old(log)@ + raster_pixels(
            Rasterized::Slice(raster).rows(),
            raster@.len() as int,
            x0 as int,
            y0 as int,
            colors.0,
            colors.1,
        ),
{
    let ghost rows = Rasterized::Slice(raster).rows();
    let mut y: usize = 0;
    assert(log@ =~= old(log)@ + Seq::<Pixel>::empty());
    while y < raster.len()
        invariant
            y <= raster.len(),
            rows == Rasterized::Slice(raster).rows(),
            cache.is_ramp(colors.0, colors.1),
            log@ == old(log)@ + raster_pixels(rows, y as int, x0 as int, y0 as int, colors.0, colors.1),
        decreases raster.len() - y,
    {
        assert(rows[y as int] == raster@[y as int]@);
        draw_line(display, log, raster[y], x0, y0, y, cache, Ghost(colors));
        assert(log@ =~= old(log)@ + raster_pixels(
            rows,
            y + 1,
            x0 as int,
            y0 as int,
            colors.0,
            colors.1,
        ));
        y += 1;
    }
}

/// Paints a raster held as a vector of rows with its top left corner at
/// `(x0, y0)`.
fn draw_rows<D: DrawTarget>(
    display: &mut D,
    log: &mut Ghost<Seq<Pixel>>,
    raster: &Vec<Vec<u8>>,
    x0: usize,
    y0: usize,
    cache: &ColorCache,
    Ghost(colors): Ghost<ColorPair>,
)
    requires
        cache.is_ramp(colors.0, colors.1),
    ensures
        final(log)@ == old(log)@ + raster_pixels(
            Rasterized::Vec(raster).rows(),
            raster@.len() as int,
            x0 as int,
            y0 as int,
            colors.0,
            colors.1,
        ),
{
    let ghost rows = Rasterized::Vec(raster).rows();
    let mut y: usize = 0;
    assert(log@ =~= old(log)@ + Seq::<Pixel>::empty());
    while y < raster.len()
        invariant
            y <= raster.len(),
            rows == Rasterized::Vec(raster).rows(),
            cache.is_ramp(colors.0, colors.1),
            log@ == old(log)@ + raster_pixels(rows, y as int, x0 as int, y0 as int, colors.0, colors.1),
        decreases raster.len() - y,
    {
        assert(rows[y as int] == raster@[y as int]@);
        draw_line(display, log, raster[y].as_slice(), x0, y0, y, cache, Ghost(colors));
        assert(log@ =~= old(log)@ + raster_pixels(
            rows,
            y + 1,
            x0 as int,
            y0 as int,
            colors.0,
            colors.1,
        ));
        y += 1;
    }
}

/// Paints the rectangle of `width` by `height` pixels at `(x0, y0)` in one
/// color.
fn draw_block<D: DrawTarget>(
    display: &mut D,
    log: &mut Ghost<Seq<Pixel>>,
    x0: usize,
    y0: usize,
    width: usize,
    height: usize,
    color: Rgb,
)
    ensures
        final(log)@ == old(log)@ + block_pixels(
            width as int,
            height as int,
            x0 as int,
            y0 as int,
            color,
        ),
{
    let mut y: usize = 0;
    assert(log@ =~= old(log)@ + Seq::<Pixel>::empty());
    while y < height
        invariant
            y <= height,
            log@ == old(log)@ + block_pixels(width as int, y as int, x0 as int, y0 as int, color),
        decreases height - y,
    {
        let ghost start = log@;
        let mut x: usize = 0;
        assert(log@ =~= start + Seq::<Pixel>::empty());
        while x < width
            invariant
                x <= width,
                log@ == start + run_pixels(x as int, x0 as int, y0 as int, y as int, color),
            decreases width - x,
        {
            put_pixel(display, log, x0, x, y0, y, color);
            assert(log@ =~= start + run_pixels(x + 1, x0 as int, y0 as int, y as int, color));
            x += 1;
        }
        assert(log@ =~= old(log)@ + block_pixels(
            width as int,
            y + 1,
            x0 as int,
            y0 as int,
            color,
        ));
        y += 1;
    }
}

/// Paints `cell` with its top left corner at `(x0, y0)`: the glyph in the
/// blends that `cache` holds, then the beam and the underline if the cell
/// has them.
fn paint_cell<D: DrawTarget>(
    display: &mut D,
    log: &mut Ghost<Seq<Pixel>>,
    cell: Cell,
    x0: usize,
    y0: usize,
    font_size: (usize, usize),
    glyph: Rasterized<'_>,
    cache: &ColorCache,
    Ghost(colors): Ghost<ColorPair>,
)
    requires
        cache.is_ramp(colors.0, colors.1),
    ensures
        final(log)@ == old(log)@ + cell_pixels(
            cell,
            x0 as int,
            y0 as int,
            font_size,
            glyph.rows(),
            colors.0,
            colors.1,
        ),
{
    let ghost raster = glyph.rows();
    match glyph {
        Rasterized::Slice(rows) => draw_slices(display, log, rows, x0, y0, cache, Ghost(colors)),
        Rasterized::Vec(rows) => draw_rows(display, log, rows, x0, y0, cache, Ghost(colors)),
        Rasterized::Owned(rows) => {
            assert(Rasterized::Vec(&rows).rows() == raster);
            draw_rows(display, log, &rows, x0, y0, cache, Ghost(colors))
        },
    }
    let ghost after_raster = log@;
    assert(after_raster == old(log)@ + raster_pixels(
        raster,
        raster.len() as int,
        x0 as int,
        y0 as int,
        colors.0,
        colors.1,
    ));
    let solid = cache.lookup(0xff);
    proof {
        cache.lemma_at(255);
        assert(cache.at_each(255, 255, 255) == shade(colors.0, colors.1, 255));
    }
    if cell.flags.contains(Flags::CURSOR_BEAM) {
        draw_block(display, log, x0, y0, 1, font_size.1, solid);
    } else {
        assert(log@ =~= after_raster + Seq::<Pixel>::empty());
    }
    let ghost after_beam = log@;
    let mut underlined = false;
    if cell.flags.intersects(Flags::UNDERLINE | Flags::CURSOR_UNDERLINE) && font_size.1 > 0 {
        match y0.checked_add(font_size.1 - 1) {
            Some(y_base) => {
                draw_block(display, log, x0, y_base, font_size.0, 1, solid);
                underlined = true;
            },
            None => {},
        }
    }
    proof {
        if !underlined {
            assert(log@ =~= after_beam + Seq::<Pixel>::empty());
        }
        let beam = if cell.flags.has_all(Flags::CURSOR_BEAM) {
            block_pixels(1, font_size.1 as int, x0 as int, y0 as int, solid)
        } else {
            Seq::empty()
        };
        let line = if underlined {
            block_pixels(font_size.0 as int, 1, x0 as int, y0 + font_size.1 - 1, solid)
        } else {
            Seq::empty()
        };
        assert(after_beam == after_raster + beam);
        assert(log@ == after_beam + line);
        assert(log@ =~= old(log)@ + (raster_pixels(
            raster,
            raster.len() as int,
            x0 as int,
            y0 as int,
            colors.0,
            colors.1,
        ) + beam + line));
    }
}

/// The glyph that the painter asks the font for when it paints `cell`: the
/// cell's character, bold and italic as the cell's flags say, and wide as
/// the cell is.
pub open spec fn glyph_request(cell: Cell) -> ContentInfo {
    ContentInfo {
        content: cell.content,
        bold: cell.flags.has_all(Flags::BOLD),
        italic: cell.flags.has_all(Flags::ITALIC),
        wide: cell.wide,
    }
}

/// The glyphs that the painter asks the font for when it paints `cell` at
/// row `row`, column `col` under a font whose cells are `font_size` pixels:
/// the glyph of the cell, unless the cell is a placeholder or its origin
/// lies beyond what the machine can address.
pub open spec fn cell_requests(cell: Cell, row: int, col: int, font_size: (usize, usize)) -> Seq<
    ContentInfo,
> {
    if cell.placeholder || cell_origin(row, col, (font_size.0 as int, font_size.1 as int))
        is None {
        Seq::empty()
    } else {
        seq![glyph_request(cell)]
    }
}

/// The glyph to ask the font for when `cell` is painted.
pub fn request_for(cell: Cell) -> (r: ContentInfo)
    ensures
        r == glyph_request(cell),
{
    ContentInfo {
        content: cell.content,
        bold: cell.flags.contains(Flags::BOLD),
        italic: cell.flags.contains(Flags::ITALIC),
        wide: cell.wide,
    }
}

pub struct Graphic<D: DrawTarget> {
    display: D,
    pub(crate) color_scheme: ColorScheme,
    pub(crate) font_manager: Option<Box<dyn FontManager>>,
    color_cache: ColorTables,
    painted: Ghost<Seq<Pixel>>,
    requested: Ghost<Seq<ContentInfo>>,
}

/// How many pairs of colors a new painter keeps tables for.
pub const DEFAULT_COLOR_CACHE_SIZE: usize = 128;

impl<D: DrawTarget> Graphic<D> {
    /// The invariant of the painter: every table that it keeps holds the
    /// blends of the pair of colors that it is kept under.
    pub closed spec fn wf(&self) -> bool {
        forall|k: ColorPair| #[trigger]
            cached(self.color_cache).contains_key(k) ==> cached(self.color_cache)[k].is_ramp(
                k.0,
                k.1,
            )
    }

    /// The color scheme in use.
    pub closed spec fn scheme(&self) -> ColorScheme {
        self.color_scheme
    }

    /// Whether a font is installed.
    pub closed spec fn has_font(&self) -> bool {
        self.font_manager is Some
    }

    /// Every pixel that the painter has handed to the display so far, in
    /// order.
    pub closed spec fn painted(&self) -> Seq<Pixel> {
        self.painted@
    }

    /// How many pairs of colors the painter keeps tables for at most.
    pub closed spec fn cache_size(&self) -> usize {
        table_limit(self.color_cache)
    }

    /// Every glyph that the painter has asked the font for so far, in
    /// order.
    pub closed spec fn requested(&self) -> Seq<ContentInfo> {
        self.requested@
    }

    /// A painter on `display` with the default color scheme and no font.
    pub fn new(display: D) -> (r: Graphic<D>)
        ensures
            r.wf(),
            !r.has_font(),
            r.painted() == Seq::<Pixel>::empty(),
            r.scheme().is_preset(crate::palette::DEFAULT_PALETTE_INDEX as int),
            r.cache_size() == DEFAULT_COLOR_CACHE_SIZE,
            r.requested() == Seq::<ContentInfo>::empty(),
    {
        Graphic {
            display,
            color_scheme: ColorScheme::default(),
            font_manager: None,
            color_cache: cache_new(DEFAULT_COLOR_CACHE_SIZE),
            painted: Ghost(Seq::empty()),
            requested: Ghost(Seq::empty()),
        }
    }

    /// Sets how many pairs of colors the painter keeps tables for at most.
    /// Tables beyond that number are dropped.
    pub fn set_cache_size(&mut self, size: usize)
        requires
            old(self).wf(),
            size > 0,
        ensures
            final(self).wf(),
            final(self).cache_size() == size,
            final(self).requested() == old(self).requested(),
            final(self).scheme() == old(self).scheme(),
            final(self).has_font() == old(self).has_font(),
            final(self).painted() == old(self).painted(),
    {
        cache_resize(&mut self.color_cache, size);
    }

    /// Replaces the color scheme.
    pub fn set_color_scheme(&mut self, scheme: ColorScheme)
        requires
            old(self).wf(),
        ensures
            final(self).wf(),
            final(self).scheme() == scheme,
            final(self).has_font() == old(self).has_font(),
            final(self).cache_size() == old(self).cache_size(),
            final(self).requested() == old(self).requested(),
            final(self).painted() == old(self).painted(),
    {
        self.color_scheme = scheme;
    }

    /// Installs `font_manager` as the source of glyphs.
    pub fn set_font_manager(&mut self, font_manager: Box<dyn FontManager>)
        requires
            old(self).wf(),
        ensures
            final(self).wf(),
            final(self).scheme() == old(self).scheme(),
            final(self).has_font(),
            final(self).cache_size() == old(self).cache_size(),
            final(self).requested() == old(self).requested(),
            final(self).painted() == old(self).painted(),
    {
        self.font_manager = Some(font_manager);
    }

    /// The cell size of the installed font, if there is one.
    pub fn font_size(&self) -> (r: Option<(usize, usize)>)
        ensures
            r is Some == self.has_font(),
    {
        match &self.font_manager {
            Some(font_manager) => Some(font_manager.size()),
            None => None,
        }
    }

    /// The display.
    pub closed spec fn target(&self) -> &D {
        &self.display
    }

    /// The display's size in pixels, as the display reports it.
    pub fn size(&self) -> (usize, usize) {
        self.display.size()
    }

    /// The display.
    pub fn display(&self) -> (r: &D)
        ensures
            r == self.target(),
    {
        &self.display
    }

    /// Hands one pixel to the display.
    pub fn draw_pixel(&mut self, x: usize, y: usize, color: Rgb)
        requires
            old(self).wf(),
        ensures
            final(self).wf(),
            final(self).scheme() == old(self).scheme(),
            final(self).has_font() == old(self).has_font(),
            final(self).cache_size() == old(self).cache_size(),
            final(self).requested() == old(self).requested(),
            final(self).painted() == old(self).painted().push((x, y, color)),
    {
        self.display.draw_pixel(x, y, color);
        self.painted = Ghost(self.painted@.push((x, y, color)));
    }

    /// Paints the pixels with `x_from <= x < x_to` and `y_from <= y < y_to` in
    /// one color.
    pub fn fill_rect(&mut self, x_from: usize, x_to: usize, y_from: usize, y_to: usize, color: Rgb)
        requires
            old(self).wf(),
        ensures
            final(self).wf(),
            final(self).scheme() == old(self).scheme(),
            final(self).has_font() == old(self).has_font(),
            final(self).cache_size() == old(self).cache_size(),
            final(self).requested() == old(self).requested(),
            final(self).painted() == old(self).painted() + (if x_from < x_to && y_from < y_to {
                block_pixels(x_to - x_from, y_to - y_from, x_from as int, y_from as int, color)
            } else {
                Seq::empty()
            }),
    {
        if x_from < x_to && y_from < y_to {
            draw_block(
                &mut self.display,
                &mut self.painted,
                x_from,
                y_from,
                x_to - x_from,
                y_to - y_from,
                color,
            );
        } else {
            assert(self.painted@ =~= old(self).painted@ + Seq::<Pixel>::empty());
        }
    }

    /// Fills the whole display with the background of `cell`.
    pub fn clear(&mut self, cell: Cell)
        requires
            old(self).wf(),
        ensures
            final(self).wf(),
            final(self).scheme() == old(self).scheme(),
            final(self).has_font() == old(self).has_font(),
            final(self).cache_size() == old(self).cache_size(),
            final(self).requested() == old(self).requested(),
            exists|width: int, height: int|
                final(self).painted() == old(self).painted() + #[trigger] block_pixels(
                    width,
                    height,
                    0,
                    0,
                    old(self).scheme().resolve(cell.background),
                ),
    {
        let (width, height) = self.display.size();
        let color = color_to_rgb(&self.color_scheme, cell.background);
        draw_block(&mut self.display, &mut self.painted, 0, 0, width, height, color);
        assert(self.painted() == old(self).painted() + block_pixels(
            width as int,
            height as int,
            0,
            0,
            old(self).scheme().resolve(cell.background),
        ));
    }

    /// What `color` resolves to under the scheme in use.
    pub fn color_to_rgb(&self, color: Color) -> (r: Rgb)
        ensures
            r == self.scheme().resolve(color),
    {
        color_to_rgb(&self.color_scheme, color)
    }

    /// Paints `cell` at row `row`, column `col`, provided a font is
    /// installed. A placeholder paints nothing: the wide cell to its left
    /// covers it. Otherwise the font is asked for `glyph_request(cell)`, and
    /// the glyph that it gives is painted pixel by pixel from the cell's origin, each intensity as the
    /// blend of the cell's painted colors; then a beam cursor covers the
    /// left column of the cell and an underline its bottom row with the
    /// foreground.
    pub fn write(&mut self, row: usize, col: usize, cell: Cell)
        requires
            old(self).wf(),
        ensures
            final(self).wf(),
            final(self).scheme() == old(self).scheme(),
            final(self).has_font() == old(self).has_font(),
            final(self).cache_size() == old(self).cache_size(),
            !old(self).has_font() ==> final(self).painted() == old(self).painted(),
            !old(self).has_font() ==> final(self).requested() == old(self).requested(),
            old(self).has_font() ==> exists|answer: FontAnswer|
                {
                    &&& final(self).painted() == old(self).painted() + #[trigger] cell_painting(
                        cell,
                        row as int,
                        col as int,
                        old(self).scheme(),
                        answer.size,
                        answer.raster,
                    )
                    &&& final(self).requested() == old(self).requested() + cell_requests(
                        cell,
                        row as int,
                        col as int,
                        answer.size,
                    )
                },
    {
        let ghost scheme = self.color_scheme;
        let ghost before = self.painted@;
        let ghost mut seen_size: (usize, usize) = (0, 0);
        let ghost mut seen_raster: Seq<Seq<u8>> = Seq::empty();
        match self.font_manager.as_mut() {
            Some(font_manager) => {
                let font_size = font_manager.size();
                let (foreground, background) = cell_colors(cell, &self.color_scheme);
                let origin = origin_of(row, col, font_size);
                proof {
                    seen_size = font_size;
                }
                if cell.placeholder || origin.is_none() {
                    assert(self.painted@ == before);
                    assert(before =~= before + cell_painting(
                        cell,
                        row as int,
                        col as int,
                        scheme,
                        font_size,
                        Seq::empty(),
                    ));
                } else {
                    let (x0, y0) = origin.unwrap();
                    let color_cache = cache_get_or_insert(
                        &mut self.color_cache,
                        foreground,
                        background,
                    );
                    let glyph = font_manager.rasterize(request_for(cell));
                    let ghost raster = glyph.rows();
                    proof {
                        seen_raster = raster;
                        self.requested@ = self.requested@.push(glyph_request(cell));
                    }
                    paint_cell(
                        &mut self.display,
                        &mut self.painted,
                        cell,
                        x0,
                        y0,
                        font_size,
                        glyph,
                        color_cache,
                        Ghost((foreground, background)),
                    );
                    assert(self.painted@ == before + cell_painting(
                        cell,
                        row as int,
                        col as int,
                        scheme,
                        font_size,
                        raster,
                    ));
                }
            },
            None => {},
        }
        let ghost answer = FontAnswer { size: seen_size, raster: seen_raster };
        assert(old(self).has_font() ==> self.painted() == old(self).painted() + cell_painting(
            cell,
            row as int,
            col as int,
            old(self).scheme(),
            answer.size,
            answer.raster,
        ));
        assert(old(self).has_font() ==> self.requested() =~= old(self).requested() + cell_requests(
            cell,
            row as int,
            col as int,
            answer.size,
        ));
    }
}

} // verus!
