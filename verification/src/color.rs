//! Color schemes: the 256-entry xterm table built from a palette.

use vstd::prelude::*;
use crate::cell::Color;
use crate::palette::{
    rgb_of_hex, Palette, DEFAULT_PALETTE_INDEX, PALETTE_COLORS, PALETTE_COUNT, PALETTE_PAIRS,
};

verus! {

/// Red, green, blue.
pub type Rgb = (u8, u8, u8);

/// The intensity of level `c` (0 to 5) of the 6x6x6 color cube.
pub open spec fn cube_level(c: int) -> int {
    if c == 0 {
        0
    } else {
        c * 40 + 55
    }
}

/// Entry `index` (0 to 255) of the xterm table over the sixteen colors
/// `base`: those sixteen, the color cube, then the 24-step gray ramp.
pub open spec fn xterm_entry(base: Seq<Rgb>, index: int) -> Rgb {
    if index < 16 {
        base[index]
    } else if index < 232 {
        let i = index - 16;
        (cube_level(i / 36) as u8, cube_level((i % 36) / 6) as u8, cube_level(i % 6) as u8)
    } else {
        let gray = ((index - 232) * 10 + 8) as u8;
        (gray, gray, gray)
    }
}

pub struct ColorScheme {
    pub foreground: Rgb,
    pub background: Rgb,
    pub ansi_colors: [Rgb; 256],
}

impl ColorScheme {
    /// Whether `self` has the given foreground and background and holds the
    /// xterm table over the sixteen colors `base`.
    pub open spec fn holds(self, foreground: Rgb, background: Rgb, base: Seq<Rgb>) -> bool {
        &&& self.foreground == foreground
        &&& self.background == background
        &&& forall|i: int| 0 <= i < 256 ==> #[trigger] self.ansi_colors@[i] == xterm_entry(base, i)
    }

    /// Whether `self` is the scheme that `palette` gives.
    pub open spec fn built_from(self, palette: Palette) -> bool {
        self.holds(palette.foreground, palette.background, palette.ansi_colors@)
    }

    /// Whether `self` is the scheme of the built-in palette number `index`.
    pub open spec fn is_preset(self, index: int) -> bool {
        self.holds(
            rgb_of_hex(PALETTE_PAIRS@[index].0),
            rgb_of_hex(PALETTE_PAIRS@[index].1),
            Seq::new(16, |i: int| rgb_of_hex(PALETTE_COLORS@[index]@[i])),
        )
    }

    /// What `index` stands for: a table entry below 256, the foreground for
    /// 256, the background for 257 and for every index above.
    pub open spec fn entry(self, index: u16) -> Rgb {
        if index < 256 {
            self.ansi_colors@[index as int]
        } else if index == 256 {
            self.foreground
        } else {
            self.background
        }
    }

    /// What `color` resolves to under this scheme.
    pub open spec fn resolve(self, color: Color) -> Rgb {
        match color {
            Color::Rgb(r, g, b) => (r, g, b),
            Color::Indexed(index) => self.entry(index),
        }
    }

    /// The scheme of built-in palette `palette_index`; of the default palette
    /// when there is no such palette.
    pub fn new(palette_index: usize) -> (r: ColorScheme)
        ensures
            r.is_preset(
                if palette_index < PALETTE_COUNT {
                    palette_index as int
                } else {
                    DEFAULT_PALETTE_INDEX as int
                },
            ),
    {
        let index = if palette_index < PALETTE_COUNT {
            palette_index
        } else {
            DEFAULT_PALETTE_INDEX
        };
        let palette = Palette::build(PALETTE_PAIRS[index], PALETTE_COLORS[index]);
        let scheme = ColorScheme::from(&palette);
        proof {
            let base = Seq::new(16, |i: int| rgb_of_hex(PALETTE_COLORS@[index as int]@[i]));
            assert forall|i: int| 0 <= i < 256 implies #[trigger] scheme.ansi_colors@[i]
                == xterm_entry(base, i) by {
                if i < 16 {
                    assert(palette.ansi_colors@[i] == rgb_of_hex(PALETTE_COLORS@[index as int]@[i]));
                }
            }
        }
        scheme
    }

    /// The scheme over `palette`.
    pub fn from(palette: &Palette) -> (r: ColorScheme)
        ensures
            r.built_from(*palette),
    {
        let mut colors: [Rgb; 256] = [(0u8, 0u8, 0u8); 256];
        let mut index: usize = 0;
        while index < 16
            invariant
                index <= 16,
                forall|j: int| 0 <= j < index ==> #[trigger] colors@[j] == xterm_entry(palette.ansi_colors@, j),
            decreases 16 - index,
        {
            colors[index] = palette.ansi_colors[index];
            index += 1;
        }
        while index < 232
            invariant
                16 <= index <= 232,
                forall|j: int| 0 <= j < index ==> #[trigger] colors@[j] == xterm_entry(palette.ansi_colors@, j),
            decreases 232 - index,
        {
            let i = index - 16;
            colors[index] = (scale(i / 36), scale((i % 36) / 6), scale(i % 6));
            index += 1;
        }
        while index < 256
            invariant
                232 <= index <= 256,
                forall|j: int| 0 <= j < index ==> #[trigger] colors@[j] == xterm_entry(palette.ansi_colors@, j),
            decreases 256 - index,
        {
            let gray: u8 = ((index - 232) * 10 + 8) as u8;
            colors[index] = (gray, gray, gray);
            index += 1;
        }
        ColorScheme {
            foreground: palette.foreground,
            background: palette.background,
            ansi_colors: colors,
        }
    }

    /// Looks `index` up: 256 is the foreground, 257 the background.
    pub fn color(&self, index: u16) -> (r: Rgb)
        ensures
            r == self.entry(index),
            index == 256 ==> r == self.foreground,
            index == 257 ==> r == self.background,
    {
        if index < 256 {
            self.ansi_colors[index as usize]
        } else if index == 256 {
            self.foreground
        } else {
            self.background
        }
    }
}

/// The intensity of one cube level.
fn scale(c: usize) -> (r: u8)
    requires
        c < 6,
    ensures
        r == cube_level(c as int),
{
    if c == 0 {
        0
    } else {
        (c * 40 + 55) as u8
    }
}

impl Default for ColorScheme {
    fn default() -> (r: ColorScheme)
        ensures
            r.is_preset(DEFAULT_PALETTE_INDEX as int),
    {
        ColorScheme::new(DEFAULT_PALETTE_INDEX)
    }
}

/// Resolution of a stored color to red, green, blue under a scheme.
pub trait ToRgb: Sized {
    /// What `self` resolves to under `scheme`.
    spec fn rgb_under(self, scheme: &ColorScheme) -> Rgb;

    fn to_rgb(self, scheme: &ColorScheme) -> (r: Rgb)
        ensures
            r == self.rgb_under(scheme),
    ;
}

impl ToRgb for Color {
    open spec fn rgb_under(self, scheme: &ColorScheme) -> Rgb {
        scheme.resolve(self)
    }

    fn to_rgb(self, scheme: &ColorScheme) -> (r: Rgb) {
        match self {
            Color::Rgb(r, g, b) => (r, g, b),
            Color::Indexed(index) => scheme.color(index),
        }
    }
}

} // verus!
