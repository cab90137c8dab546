//! One screen position: a code point, its attributes and its two colors.

use vstd::prelude::*;

verus! {

/// Attribute bits of a cell. Every bit pattern is a valid set of flags.
#[derive(Clone, Copy, Debug, PartialEq, Eq, Structural)]
pub struct Flags {
    pub bits: u8,
}

impl Flags {
    pub const INVERSE: u8 = 0x01;
    pub const BOLD: u8 = 0x02;
    pub const ITALIC: u8 = 0x04;
    pub const UNDERLINE: u8 = 0x08;
    pub const HIDDEN: u8 = 0x10;
    pub const CURSOR_BLOCK: u8 = 0x20;
    pub const CURSOR_UNDERLINE: u8 = 0x40;
    pub const CURSOR_BEAM: u8 = 0x80;

    /// Whether every bit of `mask` is set.
    pub open spec fn has_all(self, mask: u8) -> bool {
        self.bits & mask == mask
    }

    /// Whether at least one bit of `mask` is set.
    pub open spec fn has_any(self, mask: u8) -> bool {
        self.bits & mask != 0
    }

    /// The empty set of flags.
    pub fn empty() -> (r: Flags)
        ensures
            r.bits == 0,
    {
        Flags { bits: 0 }
    }

    /// The raw bits.
    pub fn bits(&self) -> (r: u8)
        ensures
            r == self.bits,
    {
        self.bits
    }

    /// Whether all flags of `mask` are set.
    pub fn contains(&self, mask: u8) -> (r: bool)
        ensures
            r == self.has_all(mask),
    {
        self.bits & mask == mask
    }

    /// Whether some flag of `mask` is set.
    pub fn intersects(&self, mask: u8) -> (r: bool)
        ensures
            r == self.has_any(mask),
    {
        self.bits & mask != 0
    }

    /// Sets the flags of `mask`.
    pub fn insert(&mut self, mask: u8)
        ensures
            final(self).bits == old(self).bits | mask,
    {
        self.bits = self.bits | mask;
    }

    /// Clears the flags of `mask`.
    pub fn remove(&mut self, mask: u8)
        ensures
            final(self).bits == old(self).bits & !mask,
    {
        self.bits = self.bits & !mask;
    }
}

/// A color as a cell stores it: an entry of the active color scheme, or a
/// literal red, green, blue triple.
#[derive(Clone, Copy, Debug, PartialEq, Eq, Structural)]
pub enum Color {
    /// Entries 0 to 255 are the palette; 256 is the scheme's foreground and
    /// 257 its background.
    Indexed(u16),
    Rgb(u8, u8, u8),
}

impl Color {
    /// The index that stands for the scheme's foreground.
    pub const FOREGROUND: u16 = 256;
    /// The index that stands for the scheme's background.
    pub const BACKGROUND: u16 = 257;
}

/// The number of columns `c` occupies according to the `unicode-width`
/// tables; `None` for a control character.
pub uninterp spec fn display_width(c: char) -> Option<usize>;

/// Calls `unicode_width::UnicodeWidthChar::width`.
///
/// Assumed, not proved: the call is a function of the character alone; it
/// gives one column for U+0020 to U+007E and no width for the control ranges
/// below U+0020 and from U+007F to U+009F. Everything else comes from the
/// crate's tables and is only named here.
#[verifier::external_body]
pub(crate) fn char_width(c: char) -> (w: Option<usize>)
    ensures
        w == display_width(c),
        0x20 <= c as u32 && (c as u32) < 0x7f ==> w == Some(1usize),
        (c as u32) < 0x20 || (0x7f <= c as u32 && (c as u32) < 0xa0) ==> w is None,
{
    unicode_width::UnicodeWidthChar::width(c)
}

/// One screen position.
#[derive(Clone, Copy, Debug, PartialEq, Eq, Structural)]
pub struct Cell {
    pub content: char,
    /// The glyph is two columns wide.
    pub wide: bool,
    /// The cell is the right half of a wide glyph and paints nothing itself.
    pub placeholder: bool,
    pub flags: Flags,
    pub foreground: Color,
    pub background: Color,
}

impl Cell {
    /// A space in the scheme's foreground on its background, no flags.
    pub open spec fn blank() -> Cell {
        Cell {
            content: ' ',
            wide: false,
            placeholder: false,
            flags: Flags { bits: 0 },
            foreground: Color::Indexed(256),
            background: Color::Indexed(257),
        }
    }

    /// `self` marked as the right half of a wide glyph.
    pub open spec fn as_placeholder(self) -> Cell {
        Cell { placeholder: true, ..self }
    }

    /// `self` holding `content`, wide exactly when `width` is more than one
    /// column.
    pub open spec fn holding(self, content: char, width: Option<usize>) -> Cell {
        Cell {
            content,
            wide: match width {
                Some(w) => w > 1,
                None => false,
            },
            ..self
        }
    }

    /// A blank cell that keeps the colors of `self`.
    pub open spec fn cleared(self) -> Cell {
        Cell { foreground: self.foreground, background: self.background, ..Cell::blank() }
    }

    pub fn set_placeholder(self) -> (r: Cell)
        ensures
            r == self.as_placeholder(),
    {
        let mut cell = self;
        cell.placeholder = true;
        cell
    }

    /// Stores `content` with a display width that the caller has looked up.
    pub fn with_width(self, content: char, width: Option<usize>) -> (r: Cell)
        ensures
            r == self.holding(content, width),
    {
        let mut cell = self;
        cell.content = content;
        cell.wide = match width {
            Some(w) => w > 1,
            None => false,
        };
        cell
    }

    /// Stores `content`; the cell is wide when the code point takes two
    /// columns.
    pub fn set_content(self, content: char) -> (r: Cell)
        ensures
            r == self.holding(content, display_width(content)),
            0x20 <= content as u32 && (content as u32) < 0x7f ==> !r.wide,
    {
        let width = char_width(content);
        self.with_width(content, width)
    }

    pub fn clear(&self) -> (r: Cell)
        ensures
            r == self.cleared(),
    {
        Cell {
            content: ' ',
            wide: false,
            placeholder: false,
            flags: Flags::empty(),
            foreground: self.foreground,
            background: self.background,
        }
    }
}

impl Default for Cell {
    fn default() -> (r: Cell)
        ensures
            r == Cell::blank(),
    {
        Cell {
            content: ' ',
            wide: false,
            placeholder: false,
            flags: Flags::empty(),
            foreground: Color::Indexed(Color::FOREGROUND),
            background: Color::Indexed(Color::BACKGROUND),
        }
    }
}

} // verus!
