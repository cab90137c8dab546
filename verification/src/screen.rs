//! The screen state machine: cursor, pen, modes, scroll region, character
//! sets and the grid, moved from state to state by handler calls.

use vstd::prelude::*;
use core::ops::Range;
use crate::ansi::{
    Action, Attr, CharsetIndex, CursorShape, CursorStyle, LineClearMode, Mode, ScreenClearMode,
    StandardCharset,
};
use crate::buffer::{row_closed, row_filled, row_opened, GridView, TerminalBuffer};
use crate::cell::{display_width, Cell, Flags};
use crate::text::push_char;

verus! {

/// The terminal modes as a set of bits. Every bit pattern is valid.
#[derive(Clone, Copy, Debug, PartialEq, Eq, Structural)]
pub struct TerminalMode {
    pub bits: u32,
}

impl TerminalMode {
    pub const SHOW_CURSOR: u32 = 0x0000_0001;
    pub const APP_CURSOR: u32 = 0x0000_0002;
    pub const APP_KEYPAD: u32 = 0x0000_0004;
    pub const MOUSE_REPORT_CLICK: u32 = 0x0000_0008;
    pub const BRACKETED_PASTE: u32 = 0x0000_0010;
    pub const SGR_MOUSE: u32 = 0x0000_0020;
    pub const MOUSE_MOTION: u32 = 0x0000_0040;
    pub const LINE_WRAP: u32 = 0x0000_0080;
    pub const LINE_FEED_NEW_LINE: u32 = 0x0000_0100;
    pub const ORIGIN: u32 = 0x0000_0200;
    pub const INSERT: u32 = 0x0000_0400;
    pub const FOCUS_IN_OUT: u32 = 0x0000_0800;
    pub const ALT_SCREEN: u32 = 0x0000_1000;
    pub const MOUSE_DRAG: u32 = 0x0000_2000;
    pub const MOUSE_MODE: u32 = 0x0000_4000;
    pub const UTF8_MOUSE: u32 = 0x0000_8000;
    pub const ALTERNATE_SCROLL: u32 = 0x0001_0000;
    pub const VI: u32 = 0x0002_0000;
    pub const URGENCY_HINTS: u32 = 0x0004_0000;
    pub const ANY: u32 = 0xffff_ffff;
    /// The modes that are on at the start: the cursor shows and lines wrap.
    pub const INITIAL: u32 = 0x0000_0081;

    /// Whether every mode of `mask` is on.
    pub open spec fn has(self, mask: u32) -> bool {
        self.bits & mask == mask
    }

    pub fn contains(&self, mask: u32) -> (r: bool)
        ensures
            r == self.has(mask),
    {
        self.bits & mask == mask
    }

    pub fn insert(&mut self, mask: u32)
        ensures
            final(self).bits == old(self).bits | mask,
    {
        self.bits = self.bits | mask;
    }

    pub fn remove(&mut self, mask: u32)
        ensures
            final(self).bits == old(self).bits & !mask,
    {
        self.bits = self.bits & !mask;
    }

    pub fn toggle(&mut self, mask: u32)
        ensures
            final(self).bits == old(self).bits ^ mask,
    {
        self.bits = self.bits ^ mask;
    }
}

impl Default for TerminalMode {
    fn default() -> (r: TerminalMode)
        ensures
            r.bits == TerminalMode::INITIAL,
    {
        TerminalMode { bits: TerminalMode::INITIAL }
    }
}

/// Where the next glyph goes, and how the cursor is drawn.
#[derive(Clone, Copy, Debug, PartialEq, Eq, Structural)]
pub struct Cursor {
    pub row: usize,
    pub column: usize,
    pub shape: CursorShape,
}

impl Cursor {
    /// The cursor at the top left corner, drawn as a block.
    pub open spec fn home() -> Cursor {
        Cursor { row: 0, column: 0, shape: CursorShape::Block }
    }

    /// Whether the cursor lies on a grid of `width` by `height` cells. The
    /// column just past the last one is allowed: the cursor rests there
    /// after a glyph is put in the last column.
    pub open spec fn within(self, width: int, height: int) -> bool {
        self.row < height && self.column <= width
    }
}

impl Default for Cursor {
    fn default() -> (r: Cursor)
        ensures
            r == Cursor::home(),
    {
        Cursor { row: 0, column: 0, shape: CursorShape::Block }
    }
}

/// The smaller of two numbers.
pub open spec fn least(a: int, b: int) -> int {
    if a <= b {
        a
    } else {
        b
    }
}

/// `a - b`, but not below zero.
pub open spec fn minus(a: int, b: int) -> int {
    if a >= b {
        a - b
    } else {
        0
    }
}

/// The cell flag that draws a cursor of the given shape.
pub open spec fn cursor_flag(shape: CursorShape) -> u8 {
    match shape {
        CursorShape::Block => Flags::CURSOR_BLOCK,
        CursorShape::Underline => Flags::CURSOR_UNDERLINE,
        CursorShape::Beam => Flags::CURSOR_BEAM,
        CursorShape::HollowBlock => Flags::CURSOR_BLOCK,
        CursorShape::Hidden => Flags::HIDDEN,
    }
}

/// The pen after one change.
pub open spec fn pen_after(template: Cell, attr: Attr) -> Cell {
    match attr {
        Attr::Foreground(color) => Cell { foreground: color, ..template },
        Attr::Background(color) => Cell { background: color, ..template },
        Attr::Reset => Cell::blank(),
        Attr::Reverse => Cell { flags: Flags { bits: template.flags.bits | Flags::INVERSE }, ..template },
        Attr::CancelReverse => Cell {
            flags: Flags { bits: template.flags.bits & !Flags::INVERSE },
            ..template
        },
        Attr::Bold => Cell { flags: Flags { bits: template.flags.bits | Flags::BOLD }, ..template },
        Attr::CancelBold => Cell {
            flags: Flags { bits: template.flags.bits & !Flags::BOLD },
            ..template
        },
        Attr::CancelBoldDim => Cell {
            flags: Flags { bits: template.flags.bits & !Flags::BOLD },
            ..template
        },
        Attr::Italic => Cell { flags: Flags { bits: template.flags.bits | Flags::ITALIC }, ..template },
        Attr::CancelItalic => Cell {
            flags: Flags { bits: template.flags.bits & !Flags::ITALIC },
            ..template
        },
        Attr::Underline => Cell {
            flags: Flags { bits: template.flags.bits | Flags::UNDERLINE },
            ..template
        },
        Attr::CancelUnderline => Cell {
            flags: Flags { bits: template.flags.bits & !Flags::UNDERLINE },
            ..template
        },
        Attr::Hidden => Cell { flags: Flags { bits: template.flags.bits | Flags::HIDDEN }, ..template },
        Attr::CancelHidden => Cell {
            flags: Flags { bits: template.flags.bits & !Flags::HIDDEN },
            ..template
        },
    }
}

/// The decimal digits of `n`.
pub open spec fn decimal(n: nat) -> Seq<char>
    decreases n,
{
    if n < 10 {
        seq![(0x30 + n) as char]
    } else {
        decimal(n / 10).push((0x30 + n % 10) as char)
    }
}

/// `ESC [ ? 6 c`: the answer to a request for the primary device
/// attributes.
pub open spec fn primary_attributes_reply() -> Seq<char> {
    seq!['\x1b', '[', '?', '6', 'c']
}

/// `ESC [ > 0 ; version ; 1 c`: the answer to a request for the secondary
/// device attributes.
pub open spec fn secondary_attributes_reply(version: nat) -> Seq<char> {
    seq!['\x1b', '[', '>', '0', ';'] + decimal(version) + seq![';', '1', 'c']
}

/// `ESC [ 0 n`: the terminal is ready.
pub open spec fn ready_reply() -> Seq<char> {
    seq!['\x1b', '[', '0', 'n']
}

/// `ESC [ row ; column R`, both counted from one.
pub open spec fn position_reply(row: nat, column: nat) -> Seq<char> {
    seq!['\x1b', '['] + decimal(row + 1) + seq![';'] + decimal(column + 1) + seq!['R']
}

/// `ESC [ ? 0 u`: no keyboard mode is in force.
pub open spec fn keyboard_mode_reply() -> Seq<char> {
    seq!['\x1b', '[', '?', '0', 'u']
}

/// The version that the terminal reports of itself: major, minor and patch
/// number as two decimal digits each.
pub const VERSION_NUMBER: usize = 100;

/// The screen as mathematics.
pub struct ScreenView {
    pub cursor: Cursor,
    pub saved_cursor: Cursor,
    /// The cursor of the screen that is not active.
    pub alt_cursor: Cursor,
    pub mode: u32,
    /// The pen: the attributes given to every glyph put on the screen.
    pub template: Cell,
    pub grid: GridView,
    /// The scroll region: the rows from `region.0` up to `region.1`.
    pub region: (int, int),
    pub charsets: Seq<StandardCharset>,
    pub active_charset: CharsetIndex,
    /// A line feed also returns the carriage.
    pub crnl_mapping: bool,
}

impl ScreenView {
    /// The invariant of the screen: the grid's invariant holds, there is
    /// room for arithmetic on columns, the three cursors lie on the grid,
    /// the scroll region is a nonempty range of rows, there are four
    /// character set slots, the alternate-screen mode says which screen is
    /// active, and the pen is neither wide nor a placeholder.
    pub open spec fn wf(self) -> bool {
        &&& self.grid.wf()
        &&& !self.template.wide
        &&& !self.template.placeholder
        &&& self.grid.width + 2 <= usize::MAX
        &&& self.cursor.within(self.grid.width, self.grid.height)
        &&& self.saved_cursor.within(self.grid.width, self.grid.height)
        &&& self.alt_cursor.within(self.grid.width, self.grid.height)
        &&& 0 <= self.region.0 < self.region.1 <= self.grid.height
        &&& self.charsets.len() == 4
        &&& (self.mode & TerminalMode::ALT_SCREEN == TerminalMode::ALT_SCREEN)
            == self.grid.alt_screen_mode
    }

    pub open spec fn width(self) -> int {
        self.grid.width
    }

    pub open spec fn height(self) -> int {
        self.grid.height
    }

    /// Whether every mode of `mask` is on.
    pub open spec fn has_mode(self, mask: u32) -> bool {
        self.mode & mask == mask
    }

    /// The screen with the cursor at `row`, `column`.
    pub open spec fn at(self, row: int, column: int) -> ScreenView {
        ScreenView {
            cursor: Cursor { row: row as usize, column: column as usize, ..self.cursor },
            ..self
        }
    }

    /// The screen with the cursor in column `column`.
    pub open spec fn in_column(self, column: int) -> ScreenView {
        self.at(self.cursor.row as int, column)
    }

    /// The screen with `grid` for its grid.
    pub open spec fn on(self, grid: GridView) -> ScreenView {
        ScreenView { grid, ..self }
    }

    /// The screen with the modes of `mask` on.
    pub open spec fn with_mode(self, mask: u32) -> ScreenView {
        ScreenView { mode: self.mode | mask, ..self }
    }

    /// The screen with the modes of `mask` off.
    pub open spec fn without_mode(self, mask: u32) -> ScreenView {
        ScreenView { mode: self.mode & !mask, ..self }
    }

    /// The cursor goes to `row`, `col`, or as near as the grid allows.
    pub open spec fn goto(self, row: int, col: int) -> ScreenView {
        self.at(least(row, self.height() - 1), least(col, self.width() - 1))
    }

    pub open spec fn goto_line(self, row: int) -> ScreenView {
        self.goto(row, self.cursor.column as int)
    }

    pub open spec fn goto_col(self, col: int) -> ScreenView {
        self.goto(self.cursor.row as int, col)
    }

    pub open spec fn move_up(self, rows: int) -> ScreenView {
        self.goto(minus(self.cursor.row as int, rows), self.cursor.column as int)
    }

    pub open spec fn move_down(self, rows: int) -> ScreenView {
        self.goto(self.cursor.row + rows, self.cursor.column as int)
    }

    /// The cursor moves right, but not past the last column.
    pub open spec fn move_forward(self, cols: int) -> ScreenView {
        self.in_column(least(self.cursor.column + cols, self.width() - 1))
    }

    pub open spec fn move_backward(self, cols: int) -> ScreenView {
        self.in_column(minus(self.cursor.column as int, cols))
    }

    pub open spec fn move_up_and_cr(self, rows: int) -> ScreenView {
        self.goto(minus(self.cursor.row as int, rows), 0)
    }

    pub open spec fn move_down_and_cr(self, rows: int) -> ScreenView {
        self.goto(self.cursor.row + rows, 0)
    }

    pub open spec fn carriage_return(self) -> ScreenView {
        self.in_column(0)
    }

    pub open spec fn backspace(self) -> ScreenView {
        self.in_column(minus(self.cursor.column as int, 1))
    }

    /// The row of the cursor with its columns from `from` up to `to` blanked
    /// in the pen's colors.
    #[verifier::opaque]
    pub open spec fn blanking(self, from: int, to: int) -> ScreenView {
        let row = self.cursor.row as int;
        self.on(
            self.grid.with_row(row, row_filled(self.grid.row(row), from, to, self.template.cleared())),
        )
    }

    /// The column of the tab stop `count` stops after the cursor, stops being
    /// every eight columns; the width where that lies beyond the row.
    pub open spec fn tab_target(self, count: int) -> int {
        least((self.cursor.column / 8 + count) * 8, self.width())
    }

    /// The cursor moves to the `count`-th tab stop, blanking what it passes.
    #[verifier::opaque]
    pub open spec fn put_tab(self, count: int) -> ScreenView {
        if self.cursor.column >= self.width() || self.tab_target(count) <= self.cursor.column {
            self
        } else {
            self.blanking(self.cursor.column as int, self.tab_target(count)).in_column(
                self.tab_target(count),
            )
        }
    }

    #[verifier::opaque]
    pub open spec fn move_forward_tabs(self, count: int) -> ScreenView {
        if self.cursor.column >= self.width() {
            self
        } else {
            self.in_column(self.tab_target(count))
        }
    }

    #[verifier::opaque]
    pub open spec fn move_backward_tabs(self, count: int) -> ScreenView {
        if self.cursor.column == 0 {
            self
        } else {
            self.in_column(minus((self.cursor.column - 1) / 8, count) * 8)
        }
    }

    /// The region scrolls up by `count` rows; the new rows carry the pen.
    #[verifier::opaque]
    pub open spec fn scroll_up(self, count: int) -> ScreenView {
        self.on(
            self.grid.scrolled(least(count, isize::MAX as int), self.region.0, self.region.1, self.template),
        )
    }

    /// The region scrolls down by `count` rows; the new rows carry the pen.
    #[verifier::opaque]
    pub open spec fn scroll_down(self, count: int) -> ScreenView {
        self.on(
            self.grid.scrolled(
                -least(count, isize::MAX as int),
                self.region.0,
                self.region.1,
                self.template,
            ),
        )
    }

    /// A line feed: at the last row of the scroll region the region scrolls
    /// up by one; on any other row but the last of the grid the cursor moves
    /// down. Where line feeds return the carriage, the cursor first goes to
    /// column 0.
    #[verifier::opaque]
    pub open spec fn linefeed(self) -> ScreenView {
        let s = if self.crnl_mapping {
            self.carriage_return()
        } else {
            self
        };
        if s.cursor.row == s.region.1 - 1 {
            s.scroll_up(1)
        } else if s.cursor.row < s.height() - 1 {
            s.at(s.cursor.row + 1, s.cursor.column as int)
        } else {
            s
        }
    }

    #[verifier::opaque]
    pub open spec fn newline(self) -> ScreenView {
        if self.linefeed().has_mode(TerminalMode::LINE_FEED_NEW_LINE) {
            self.linefeed().carriage_return()
        } else {
            self.linefeed()
        }
    }

    /// A reverse index: at the first row of the scroll region the region
    /// scrolls down by one; elsewhere the cursor moves up.
    #[verifier::opaque]
    pub open spec fn reverse_index(self) -> ScreenView {
        if self.cursor.row == self.region.0 {
            self.scroll_down(1)
        } else {
            self.at(minus(self.cursor.row as int, 1), self.cursor.column as int)
        }
    }

    /// The glyph is put at the cursor and the cursor moves past it; the
    /// right half of a wide glyph is a placeholder with the same attributes.
    #[verifier::opaque]
    pub open spec fn place(self, glyph: Cell) -> ScreenView {
        let row = self.cursor.row as int;
        let col = self.cursor.column as int;
        if col >= self.width() {
            self
        } else if glyph.wide && col + 1 < self.width() {
            self.on(
                self.grid.with_cell(row, col, glyph).with_cell(row, col + 1, glyph.as_placeholder()),
            ).in_column(col + 2)
        } else {
            self.on(self.grid.with_cell(row, col, glyph)).in_column(col + 1)
        }
    }

    /// The glyph that the screen makes of the character `c`: the pen,
    /// holding what the active character set draws for `c`.
    pub open spec fn glyph(self, c: char) -> Cell {
        let drawn = self.charsets[self.active_charset.slot()].mapped(c);
        self.template.holding(drawn, display_width(drawn))
    }

    /// A character arrives. Where its glyph does not fit in the rest of the
    /// row, the screen wraps to the start of the next line first, or drops
    /// the glyph when line wrap is off.
    #[verifier::opaque]
    pub open spec fn input(self, c: char) -> ScreenView {
        let glyph = self.glyph(c);
        let needed: int = if glyph.wide {
            2
        } else {
            1
        };
        if self.cursor.column + needed > self.width() {
            if self.has_mode(TerminalMode::LINE_WRAP) {
                self.linefeed().carriage_return().place(glyph)
            } else {
                self
            }
        } else {
            self.place(glyph)
        }
    }

    /// `count` blank cells are inserted at the cursor.
    #[verifier::opaque]
    pub open spec fn insert_blank(self, count: int) -> ScreenView {
        let row = self.cursor.row as int;
        let col = self.cursor.column as int;
        if col >= self.width() {
            self
        } else {
            self.on(
                self.grid.with_row(
                    row,
                    row_opened(
                        self.grid.row(row),
                        col,
                        least(count, self.width() - col),
                        self.template.cleared(),
                    ),
                ),
            )
        }
    }

    /// `count` cells are deleted at the cursor.
    #[verifier::opaque]
    pub open spec fn delete_chars(self, count: int) -> ScreenView {
        let row = self.cursor.row as int;
        let col = self.cursor.column as int;
        if col >= self.width() {
            self
        } else {
            self.on(
                self.grid.with_row(
                    row,
                    row_closed(
                        self.grid.row(row),
                        col,
                        least(count, self.width() - col),
                        self.template.cleared(),
                    ),
                ),
            )
        }
    }

    /// `count` cells from the cursor on are blanked.
    #[verifier::opaque]
    pub open spec fn erase_chars(self, count: int) -> ScreenView {
        self.blanking(self.cursor.column as int, least(self.cursor.column + count, self.width()))
    }

    #[verifier::opaque]
    pub open spec fn clear_line(self, mode: LineClearMode) -> ScreenView {
        match mode {
            LineClearMode::All => self.blanking(0, self.width()),
            LineClearMode::Left => self.blanking(
                0,
                least(self.cursor.column as int, self.width() - 1) + 1,
            ),
            LineClearMode::Right => self.blanking(self.cursor.column as int, self.width()),
        }
    }

    #[verifier::opaque]
    pub open spec fn clear_screen(self, mode: ScreenClearMode) -> ScreenView {
        let row = self.cursor.row as int;
        let col = self.cursor.column as int;
        let blank = self.template.cleared();
        match mode {
            ScreenClearMode::All => ScreenView {
                grid: self.grid.cleared(blank),
                cursor: Cursor::home(),
                ..self
            },
            ScreenClearMode::Saved => ScreenView {
                grid: self.grid.cleared(blank).without_history(),
                cursor: Cursor::home(),
                ..self
            },
            ScreenClearMode::Above => self.on(self.grid.with_rows_filled(0, row, blank)).blanking(
                0,
                least(col + 1, self.width()),
            ),
            ScreenClearMode::Below => self.blanking(col, self.width()).on(
                self.blanking(col, self.width()).grid.with_rows_filled(row + 1, self.height(), blank),
            ),
        }
    }

    pub open spec fn terminal_attribute(self, attr: Attr) -> ScreenView {
        ScreenView { template: pen_after(self.template, attr), ..self }
    }

    /// The two screens and their cursors are exchanged. Entering the
    /// alternate screen clears it with the pen; leaving it saves the cursor
    /// and resets the pen.
    #[verifier::opaque]
    pub open spec fn swap_alt_screen(self) -> ScreenView {
        let swapped = ScreenView {
            mode: self.mode ^ TerminalMode::ALT_SCREEN,
            cursor: self.alt_cursor,
            alt_cursor: self.cursor,
            grid: self.grid.swapped(self.template),
            ..self
        };
        if swapped.has_mode(TerminalMode::ALT_SCREEN) {
            swapped
        } else {
            ScreenView { saved_cursor: swapped.cursor, template: Cell::blank(), ..swapped }
        }
    }

    pub open spec fn set_mode(self, mode: Mode) -> ScreenView {
        match mode {
            Mode::Insert => self.with_mode(TerminalMode::INSERT),
            Mode::LineFeedNewLine => self.with_mode(TerminalMode::LINE_FEED_NEW_LINE),
            _ => self,
        }
    }

    pub open spec fn unset_mode(self, mode: Mode) -> ScreenView {
        match mode {
            Mode::Insert => self.without_mode(TerminalMode::INSERT),
            Mode::LineFeedNewLine => self.without_mode(TerminalMode::LINE_FEED_NEW_LINE),
            _ => self,
        }
    }

    #[verifier::opaque]
    pub open spec fn set_private_mode(self, mode: Mode) -> ScreenView {
        match mode {
            Mode::SwapScreenAndSetRestoreCursor => if self.has_mode(TerminalMode::ALT_SCREEN) {
                self
            } else {
                self.swap_alt_screen()
            },
            Mode::ShowCursor => self.with_mode(TerminalMode::SHOW_CURSOR),
            Mode::CursorKeys => self.with_mode(TerminalMode::APP_CURSOR),
            Mode::LineWrap => self.with_mode(TerminalMode::LINE_WRAP),
            Mode::BracketedPaste => self.with_mode(TerminalMode::BRACKETED_PASTE),
            _ => self,
        }
    }

    #[verifier::opaque]
    pub open spec fn unset_private_mode(self, mode: Mode) -> ScreenView {
        match mode {
            Mode::SwapScreenAndSetRestoreCursor => if self.has_mode(TerminalMode::ALT_SCREEN) {
                self.swap_alt_screen()
            } else {
                self
            },
            Mode::ShowCursor => self.without_mode(TerminalMode::SHOW_CURSOR),
            Mode::CursorKeys => self.without_mode(TerminalMode::APP_CURSOR),
            Mode::LineWrap => self.without_mode(TerminalMode::LINE_WRAP),
            Mode::BracketedPaste => self.without_mode(TerminalMode::BRACKETED_PASTE),
            _ => self,
        }
    }

    /// The scroll region becomes the rows `top` to `bottom`, counted from
    /// one and both included, cut to the grid; the cursor goes home. A
    /// region that starts at row zero or that ends at or before its start is
    /// refused.
    #[verifier::opaque]
    pub open spec fn set_scrolling_region(self, top: int, bottom: Option<int>) -> ScreenView {
        let end = match bottom {
            Some(b) => b,
            None => self.height(),
        };
        if top == 0 || top >= end {
            self
        } else {
            ScreenView {
                region: (least(top, self.height()) - 1, least(end, self.height())),
                ..self
            }.goto(0, 0)
        }
    }

    pub open spec fn set_cursor_shape(self, shape: CursorShape) -> ScreenView {
        ScreenView { cursor: Cursor { shape, ..self.cursor }, ..self }
    }

    pub open spec fn set_cursor_style(self, style: Option<CursorStyle>) -> ScreenView {
        match style {
            Some(s) => self.set_cursor_shape(s.shape),
            None => self,
        }
    }

    pub open spec fn configure_charset(self, index: CharsetIndex, charset: StandardCharset) -> ScreenView {
        ScreenView { charsets: self.charsets.update(index.slot(), charset), ..self }
    }

    /// The answer to a request for the device attributes: the primary ones
    /// without an intermediate, the secondary ones after `>`, none after any
    /// other intermediate.
    pub open spec fn identify_terminal(intermediate: Option<char>) -> Option<Seq<char>> {
        match intermediate {
            None => Some(primary_attributes_reply()),
            Some(c) => if c == '>' {
                Some(secondary_attributes_reply(VERSION_NUMBER as nat))
            } else {
                None
            },
        }
    }

    /// The answer to a status request: 5 asks whether the terminal is ready,
    /// 6 where the cursor is; any other request gets no answer.
    pub open spec fn device_status(self, arg: int) -> Option<Seq<char>> {
        if arg == 5 {
            Some(ready_reply())
        } else if arg == 6 {
            Some(position_reply(self.cursor.row as nat, self.cursor.column as nat))
        } else {
            None
        }
    }

    /// What the screen answers to one handler call, if anything. The answer
    /// is for the program that sent the call.
    pub open spec fn reply_to(self, action: Action) -> Option<Seq<char>> {
        match action {
            Action::IdentifyTerminal(intermediate) => ScreenView::identify_terminal(intermediate),
            Action::DeviceStatus(arg) => self.device_status(arg as int),
            Action::ReportKeyboardMode => Some(keyboard_mode_reply()),
            _ => None,
        }
    }

    /// Everything returns to its first state but the shape of the grid, the
    /// scroll region and the character sets: the
    /// primary screen is active and blank, without scrollback, the cursor is
    /// home, and pen and modes are the initial ones.
    #[verifier::opaque]
    pub open spec fn reset_state(self) -> ScreenView {
        let primary = if self.has_mode(TerminalMode::ALT_SCREEN) {
            self.swap_alt_screen()
        } else {
            self
        };
        ScreenView {
            grid: primary.grid.cleared(Cell::blank()).without_history(),
            cursor: Cursor::home(),
            saved_cursor: Cursor::home(),
            mode: TerminalMode::INITIAL,
            template: Cell::blank(),
            ..primary
        }
    }

    /// `cursor`, moved onto a grid of `width` by `height` cells if need be.
    pub open spec fn kept_on(cursor: Cursor, width: int, height: int) -> Cursor {
        Cursor {
            row: least(cursor.row as int, height - 1) as usize,
            column: least(cursor.column as int, width) as usize,
            shape: cursor.shape,
        }
    }

    /// The screen on a grid of a new size: the scroll region is the whole
    /// grid and the cursors are kept on it.
    #[verifier::opaque]
    pub open spec fn resized(self, width: int, height: int, pixel_size: (int, int)) -> ScreenView {
        ScreenView {
            grid: self.grid.resized(width, height, pixel_size),
            region: (0, height),
            cursor: ScreenView::kept_on(self.cursor, width, height),
            saved_cursor: ScreenView::kept_on(self.saved_cursor, width, height),
            alt_cursor: ScreenView::kept_on(self.alt_cursor, width, height),
            ..self
        }
    }

    /// The cell under the cursor with the cursor's flag set (`enable`) or
    /// cleared.
    #[verifier::opaque]
    pub open spec fn cursor_drawn(self, enable: bool) -> ScreenView {
        let row = self.cursor.row as int % self.height();
        let col = self.cursor.column as int % self.width();
        let cell = self.grid.cell(row, col);
        let flag = cursor_flag(self.cursor.shape);
        self.on(
            self.grid.with_cell(
                row,
                col,
                Cell {
                    flags: Flags {
                        bits: if enable {
                            cell.flags.bits | flag
                        } else {
                            cell.flags.bits & !flag
                        },
                    },
                    ..cell
                },
            ),
        )
    }

    /// The screen after a call that writes a character or moves the cursor;
    /// `None` for any other call.
    pub open spec fn moved(self, action: Action) -> Option<ScreenView> {
        match action {
            Action::Input(c) => Some(self.input(c)),
            Action::Goto(row, col) => Some(self.goto(row as int, col as int)),
            Action::GotoLine(row) => Some(self.goto_line(row as int)),
            Action::GotoCol(col) => Some(self.goto_col(col as int)),
            Action::MoveUp(n) => Some(self.move_up(n as int)),
            Action::MoveDown(n) => Some(self.move_down(n as int)),
            Action::MoveForward(n) => Some(self.move_forward(n as int)),
            Action::MoveBackward(n) => Some(self.move_backward(n as int)),
            Action::MoveUpAndCr(n) => Some(self.move_up_and_cr(n as int)),
            Action::MoveDownAndCr(n) => Some(self.move_down_and_cr(n as int)),
            Action::CarriageReturn => Some(self.carriage_return()),
            Action::Linefeed => Some(self.linefeed()),
            Action::Newline => Some(self.newline()),
            Action::Backspace => Some(self.backspace()),
            Action::PutTab(n) => Some(self.put_tab(n as int)),
            Action::MoveForwardTabs(n) => Some(self.move_forward_tabs(n as int)),
            Action::MoveBackwardTabs(n) => Some(self.move_backward_tabs(n as int)),
            Action::SaveCursorPosition => Some(ScreenView { saved_cursor: self.cursor, ..self }),
            Action::RestoreCursorPosition => Some(ScreenView { cursor: self.saved_cursor, ..self }),
            Action::ReverseIndex => Some(self.reverse_index()),
            _ => None,
        }
    }

    /// The screen after a call that edits or scrolls the grid; `None` for
    /// any other call.
    pub open spec fn edited(self, action: Action) -> Option<ScreenView> {
        match action {
            Action::InsertBlank(n) => Some(self.insert_blank(n as int)),
            Action::InsertBlankLines(n) => Some(self.scroll_down(n as int)),
            Action::DeleteLines(n) => Some(self.scroll_up(n as int)),
            Action::EraseChars(n) => Some(self.erase_chars(n as int)),
            Action::DeleteChars(n) => Some(self.delete_chars(n as int)),
            Action::ScrollUp(n) => Some(self.scroll_up(n as int)),
            Action::ScrollDown(n) => Some(self.scroll_down(n as int)),
            Action::ClearLine(mode) => Some(self.clear_line(mode)),
            Action::ClearScreen(mode) => Some(self.clear_screen(mode)),
            Action::ResetState => Some(self.reset_state()),
            _ => None,
        }
    }

    /// The screen after a call that changes the pen, a mode, the scroll
    /// region, the cursor's shape or a character set; `None` for any other
    /// call.
    pub open spec fn switched(self, action: Action) -> Option<ScreenView> {
        match action {
            Action::TerminalAttribute(attr) => Some(self.terminal_attribute(attr)),
            Action::SetMode(mode) => Some(self.set_mode(mode)),
            Action::UnsetMode(mode) => Some(self.unset_mode(mode)),
            Action::SetPrivateMode(mode) => Some(self.set_private_mode(mode)),
            Action::UnsetPrivateMode(mode) => Some(self.unset_private_mode(mode)),
            Action::SetScrollingRegion(top, bottom) => Some(
                self.set_scrolling_region(
                    top as int,
                    match bottom {
                        Some(b) => Some(b as int),
                        None => None,
                    },
                ),
            ),
            Action::SetKeypadApplicationMode => Some(self.with_mode(TerminalMode::APP_KEYPAD)),
            Action::UnsetKeypadApplicationMode => Some(self.without_mode(TerminalMode::APP_KEYPAD)),
            Action::SetCursorShape(shape) => Some(self.set_cursor_shape(shape)),
            Action::SetCursorStyle(style) => Some(self.set_cursor_style(style)),
            Action::SetActiveCharset(index) => Some(ScreenView { active_charset: index, ..self }),
            Action::ConfigureCharset(index, charset) => Some(self.configure_charset(index, charset)),
            _ => None,
        }
    }

    /// The screen after one handler call. Requests for a report, calls that
    /// concern the host alone (the bell, the clipboard, the window title) and
    /// calls for features that the screen does not have leave it as it is.
    pub open spec fn apply(self, action: Action) -> ScreenView {
        match self.moved(action) {
            Some(next) => next,
            None => match self.edited(action) {
                Some(next) => next,
                None => match self.switched(action) {
                    Some(next) => next,
                    None => self,
                },
            },
        }
    }

    /// The screen after the calls of `actions`, in order.
    pub open spec fn apply_all(self, actions: Seq<Action>) -> ScreenView
        decreases actions.len(),
    {
        if actions.len() == 0 {
            self
        } else {
            self.apply_all(actions.drop_last()).apply(actions.last())
        }
    }

    /// What the screen answers to the calls of `actions`, in order.
    pub open spec fn replies(self, actions: Seq<Action>) -> Seq<Seq<char>>
        decreases actions.len(),
    {
        if actions.len() == 0 {
            Seq::empty()
        } else {
            self.replies(actions.drop_last()) + (match self.apply_all(
                actions.drop_last(),
            ).reply_to(actions.last()) {
                Some(text) => seq![text],
                None => Seq::empty(),
            })
        }
    }
}

/// Appends the decimal digits of `n`.
fn push_decimal(s: &mut String, n: usize)
    ensures
        final(s)@ == old(s)@ + decimal(n as nat),
    decreases n,
{
    if n >= 10 {
        push_decimal(s, n / 10);
    }
    let digit: u8 = 0x30 + (n % 10) as u8;
    push_char(s, digit as char);
    proof {
        if n >= 10 {
            assert(s@ =~= old(s)@ + decimal(n as nat));
        } else {
            assert(s@ =~= old(s)@ + decimal(n as nat));
        }
    }
}

/// A mode bit outside `mask` is not touched by switching `mask` on or off.
proof fn lemma_other_bits_keep(bits: u32, mask: u32, bit: u32)
    by (bit_vector)
    requires
        mask & bit == 0,
    ensures
        ((bits | mask) & bit == bit) == (bits & bit == bit),
        ((bits & !mask) & bit == bit) == (bits & bit == bit),
{
}

/// Toggling the alternate-screen bit inverts it.
proof fn lemma_toggle_alt(bits: u32)
    by (bit_vector)
    ensures
        ((bits ^ 0x1000u32) & 0x1000u32 == 0x1000u32) == !(bits & 0x1000u32 == 0x1000u32),
{
}

/// None of the modes that a mode call can switch is the alternate-screen
/// bit, and the initial modes do not hold it.
proof fn lemma_alt_is_apart()
    by (bit_vector)
    ensures
        0x0001u32 & 0x1000u32 == 0,
        0x0002u32 & 0x1000u32 == 0,
        0x0004u32 & 0x1000u32 == 0,
        0x0010u32 & 0x1000u32 == 0,
        0x0080u32 & 0x1000u32 == 0,
        0x0100u32 & 0x1000u32 == 0,
        0x0400u32 & 0x1000u32 == 0,
        0x0081u32 & 0x1000u32 != 0x1000u32,
{
}

pub struct Screen {
    cursor: Cursor,
    saved_cursor: Cursor,
    alt_cursor: Cursor,
    mode: TerminalMode,
    attribute_template: Cell,
    buffer: TerminalBuffer,
    scroll_region: Range<usize>,
    charsets: [StandardCharset; 4],
    active_charset: CharsetIndex,
    crnl_mapping: bool,
}

/// Texts as sequences of characters.
pub open spec fn texts(strings: Seq<String>) -> Seq<Seq<char>> {
    strings.map_values(|s: String| s@)
}

impl View for Screen {
    type V = ScreenView;

    closed spec fn view(&self) -> ScreenView {
        ScreenView {
            cursor: self.cursor,
            saved_cursor: self.saved_cursor,
            alt_cursor: self.alt_cursor,
            mode: self.mode.bits,
            template: self.attribute_template,
            grid: self.buffer@,
            region: (self.scroll_region.start as int, self.scroll_region.end as int),
            charsets: self.charsets@,
            active_charset: self.active_charset,
            crnl_mapping: self.crnl_mapping,
        }
    }
}

impl Screen {
    /// The invariant of the screen.
    pub open spec fn wf(&self) -> bool {
        self@.wf()
    }

    /// A screen of one cell in its first state.
    pub fn new() -> (r: Screen)
        ensures
            r.wf(),
            r@.cursor == Cursor::home(),
            r@.saved_cursor == Cursor::home(),
            r@.alt_cursor == Cursor::home(),
            r@.mode == TerminalMode::INITIAL,
            r@.template == Cell::blank(),
            r@.grid == GridView::fresh(1, 1, (0, 0), crate::buffer::DEFAULT_HISTORY_SIZE as int, false),
            r@.region == (0int, 1int),
            r@.charsets == seq![
                StandardCharset::Ascii,
                StandardCharset::Ascii,
                StandardCharset::Ascii,
                StandardCharset::Ascii,
            ],
            r@.active_charset == CharsetIndex::G0,
            !r@.crnl_mapping,
    {
        proof {
            lemma_alt_is_apart();
        }
        let screen = Screen {
            cursor: Cursor::default(),
            saved_cursor: Cursor::default(),
            alt_cursor: Cursor::default(),
            mode: TerminalMode::default(),
            attribute_template: Cell::default(),
            buffer: TerminalBuffer::default(),
            scroll_region: 0..1,
            charsets: [StandardCharset::Ascii; 4],
            active_charset: CharsetIndex::G0,
            crnl_mapping: false,
        };
        assert(screen@.charsets =~= seq![
            StandardCharset::Ascii,
            StandardCharset::Ascii,
            StandardCharset::Ascii,
            StandardCharset::Ascii,
        ]);
        screen
    }

    pub fn cursor(&self) -> (r: Cursor)
        ensures
            r == self@.cursor,
    {
        self.cursor
    }

    pub fn saved_cursor(&self) -> (r: Cursor)
        ensures
            r == self@.saved_cursor,
    {
        self.saved_cursor
    }

    pub fn mode(&self) -> (r: TerminalMode)
        ensures
            r.bits == self@.mode,
    {
        self.mode
    }

    /// The pen.
    pub fn attribute_template(&self) -> (r: Cell)
        ensures
            r == self@.template,
    {
        self.attribute_template
    }

    /// The scroll region: the rows from `start` up to `end`.
    pub fn scroll_region(&self) -> (r: Range<usize>)
        ensures
            r.start == self@.region.0,
            r.end == self@.region.1,
    {
        self.scroll_region.start..self.scroll_region.end
    }

    pub fn rows(&self) -> (r: usize)
        ensures
            r == self@.grid.height,
    {
        self.buffer.height()
    }

    pub fn columns(&self) -> (r: usize)
        ensures
            r == self@.grid.width,
    {
        self.buffer.width()
    }

    /// The grid.
    pub fn buffer(&self) -> (r: &TerminalBuffer)
        ensures
            r@ == self@.grid,
    {
        &self.buffer
    }

    /// The cell at row `r`, column `c` of the viewport.
    pub fn read(&self, r: usize, c: usize) -> (cell: Cell)
        requires
            self.wf(),
            r < self@.grid.height,
            c < self@.grid.width,
        ensures
            cell == self@.grid.cell(r as int, c as int),
    {
        self.buffer.read(r, c)
    }

    /// Says whether a line feed also returns the carriage.
    pub fn set_crnl_mapping(&mut self, mapping: bool)
        ensures
            final(self)@ == (ScreenView { crnl_mapping: mapping, ..old(self)@ }),
    {
        self.crnl_mapping = mapping;
    }

    fn set_position(&mut self, row: usize, column: usize)
        ensures
            final(self)@ == old(self)@.at(row as int, column as int),
    {
        self.cursor.row = row;
        self.cursor.column = column;
    }

    pub fn goto(&mut self, row: usize, col: usize)
        requires
            old(self).wf(),
        ensures
            final(self)@ == old(self)@.goto(row as int, col as int),
            final(self).wf(),
    {
        let height = self.buffer.height();
        let width = self.buffer.width();
        let r = if row < height - 1 {
            row
        } else {
            height - 1
        };
        let c = if col < width - 1 {
            col
        } else {
            width - 1
        };
        self.set_position(r, c);
    }

    pub fn goto_line(&mut self, row: usize)
        requires
            old(self).wf(),
        ensures
            final(self)@ == old(self)@.goto_line(row as int),
            final(self).wf(),
    {
        let column = self.cursor.column;
        self.goto(row, column);
    }

    pub fn goto_col(&mut self, col: usize)
        requires
            old(self).wf(),
        ensures
            final(self)@ == old(self)@.goto_col(col as int),
            final(self).wf(),
    {
        let row = self.cursor.row;
        self.goto(row, col);
    }

    pub fn move_up(&mut self, rows: usize)
        requires
            old(self).wf(),
        ensures
            final(self)@ == old(self)@.move_up(rows as int),
            final(self).wf(),
    {
        let row = if self.cursor.row >= rows {
            self.cursor.row - rows
        } else {
            0
        };
        let column = self.cursor.column;
        self.goto(row, column);
    }

    pub fn move_down(&mut self, rows: usize)
        requires
            old(self).wf(),
        ensures
            final(self)@ == old(self)@.move_down(rows as int),
            final(self).wf(),
    {
        let height = self.buffer.height();
        let row = match self.cursor.row.checked_add(rows) {
            Some(row) => row,
            None => height,
        };
        let column = self.cursor.column;
        self.goto(row, column);
    }

    pub fn move_forward(&mut self, cols: usize)
        requires
            old(self).wf(),
        ensures
            final(self)@ == old(self)@.move_forward(cols as int),
            final(self).wf(),
    {
        let width = self.buffer.width();
        let column = match self.cursor.column.checked_add(cols) {
            Some(column) => if column < width - 1 {
                column
            } else {
                width - 1
            },
            None => width - 1,
        };
        self.cursor.column = column;
    }

    pub fn move_backward(&mut self, cols: usize)
        requires
            old(self).wf(),
        ensures
            final(self)@ == old(self)@.move_backward(cols as int),
            final(self).wf(),
    {
        self.cursor.column = if self.cursor.column >= cols {
            self.cursor.column - cols
        } else {
            0
        };
    }

    pub fn move_up_and_cr(&mut self, rows: usize)
        requires
            old(self).wf(),
        ensures
            final(self)@ == old(self)@.move_up_and_cr(rows as int),
            final(self).wf(),
    {
        let row = if self.cursor.row >= rows {
            self.cursor.row - rows
        } else {
            0
        };
        self.goto(row, 0);
    }

    pub fn move_down_and_cr(&mut self, rows: usize)
        requires
            old(self).wf(),
        ensures
            final(self)@ == old(self)@.move_down_and_cr(rows as int),
            final(self).wf(),
    {
        let height = self.buffer.height();
        let row = match self.cursor.row.checked_add(rows) {
            Some(row) => row,
            None => height,
        };
        self.goto(row, 0);
    }

    pub fn carriage_return(&mut self)
        requires
            old(self).wf(),
        ensures
            final(self)@ == old(self)@.carriage_return(),
            final(self).wf(),
    {
        self.cursor.column = 0;
    }

    pub fn backspace(&mut self)
        requires
            old(self).wf(),
        ensures
            final(self)@ == old(self)@.backspace(),
            final(self).wf(),
    {
        self.cursor.column = if self.cursor.column >= 1 {
            self.cursor.column - 1
        } else {
            0
        };
    }

    /// Blanks the columns from `from` up to `to` of the cursor's row in the
    /// pen's colors.
    fn blank_cells(&mut self, from: usize, to: usize)
        requires
            old(self).wf(),
            to <= old(self)@.grid.width,
        ensures
            final(self)@ == old(self)@.blanking(from as int, to as int),
            final(self).wf(),
    {
        proof {
            reveal(ScreenView::blanking);
        }
        let blank = self.attribute_template.clear();
        let row = self.cursor.row;
        self.buffer.fill(row, from, to, blank);
    }

    /// The column of the `count`-th tab stop after the cursor.
    fn tab_stop(&self, count: u16) -> (r: usize)
        requires
            self.wf(),
        ensures
            r == self@.tab_target(count as int),
    {
        let width = self.buffer.width();
        let stops = self.cursor.column / 8 + count as usize;
        match stops.checked_mul(8) {
            Some(target) => if target < width {
                target
            } else {
                width
            },
            None => width,
        }
    }

    pub fn put_tab(&mut self, count: u16)
        requires
            old(self).wf(),
        ensures
            final(self)@ == old(self)@.put_tab(count as int),
            final(self).wf(),
    {
        proof {
            reveal(ScreenView::blanking);
            reveal(ScreenView::put_tab);
        }
        if self.cursor.column >= self.buffer.width() {
            return ;
        }
        let end_column = self.tab_stop(count);
        if end_column > self.cursor.column {
            let from = self.cursor.column;
            self.blank_cells(from, end_column);
            self.cursor.column = end_column;
        }
    }

    pub fn move_forward_tabs(&mut self, count: u16)
        requires
            old(self).wf(),
        ensures
            final(self)@ == old(self)@.move_forward_tabs(count as int),
            final(self).wf(),
    {
        proof {
            reveal(ScreenView::move_forward_tabs);
        }
        if self.cursor.column >= self.buffer.width() {
            return ;
        }
        self.cursor.column = self.tab_stop(count);
    }

    pub fn move_backward_tabs(&mut self, count: u16)
        requires
            old(self).wf(),
        ensures
            final(self)@ == old(self)@.move_backward_tabs(count as int),
            final(self).wf(),
    {
        proof {
            reveal(ScreenView::move_backward_tabs);
        }
        if self.cursor.column == 0 {
            return ;
        }
        let current = (self.cursor.column - 1) / 8;
        let target = if current >= count as usize {
            current - count as usize
        } else {
            0
        };
        self.cursor.column = target * 8;
    }

    pub fn save_cursor_position(&mut self)
        requires
            old(self).wf(),
        ensures
            final(self)@ == (ScreenView { saved_cursor: old(self)@.cursor, ..old(self)@ }),
            final(self).wf(),
    {
        self.saved_cursor = self.cursor;
    }

    pub fn restore_cursor_position(&mut self)
        requires
            old(self).wf(),
        ensures
            final(self)@ == (ScreenView { cursor: old(self)@.saved_cursor, ..old(self)@ }),
            final(self).wf(),
    {
        self.cursor = self.saved_cursor;
    }

    pub fn scroll_up(&mut self, count: usize)
        requires
            old(self).wf(),
        ensures
            final(self)@ == old(self)@.scroll_up(count as int),
            final(self).wf(),
    {
        proof {
            reveal(ScreenView::scroll_up);
        }
        let n: isize = if count > isize::MAX as usize {
            isize::MAX
        } else {
            count as isize
        };
        let region = self.scroll_region.start..self.scroll_region.end;
        proof {
            self@.grid.lemma_scrolled(n as int, region.start as int, region.end as int, self@.template);
        }
        self.buffer.scroll_region(n, self.attribute_template, region);
    }

    pub fn scroll_down(&mut self, count: usize)
        requires
            old(self).wf(),
        ensures
            final(self)@ == old(self)@.scroll_down(count as int),
            final(self).wf(),
    {
        proof {
            reveal(ScreenView::scroll_down);
        }
        let n: isize = if count > isize::MAX as usize {
            isize::MAX
        } else {
            count as isize
        };
        let region = self.scroll_region.start..self.scroll_region.end;
        proof {
            self@.grid.lemma_scrolled(
                -(n as int),
                region.start as int,
                region.end as int,
                self@.template,
            );
        }
        self.buffer.scroll_region(-n, self.attribute_template, region);
    }

    pub fn insert_blank_lines(&mut self, count: usize)
        requires
            old(self).wf(),
        ensures
            final(self)@ == old(self)@.scroll_down(count as int),
            final(self).wf(),
    {
        self.scroll_down(count);
    }

    pub fn delete_lines(&mut self, count: usize)
        requires
            old(self).wf(),
        ensures
            final(self)@ == old(self)@.scroll_up(count as int),
            final(self).wf(),
    {
        self.scroll_up(count);
    }

    pub fn linefeed(&mut self)
        requires
            old(self).wf(),
        ensures
            final(self)@ == old(self)@.linefeed(),
            final(self).wf(),
    {
        proof {
            reveal(ScreenView::linefeed);
        }
        if self.crnl_mapping {
            self.carriage_return();
        }
        if self.cursor.row == self.scroll_region.end - 1 {
            self.scroll_up(1);
        } else if self.cursor.row < self.buffer.height() - 1 {
            self.cursor.row = self.cursor.row + 1;
        }
    }

    pub fn newline(&mut self)
        requires
            old(self).wf(),
        ensures
            final(self)@ == old(self)@.newline(),
            final(self).wf(),
    {
        proof {
            reveal(ScreenView::newline);
        }
        self.linefeed();
        if self.mode.contains(TerminalMode::LINE_FEED_NEW_LINE) {
            self.carriage_return();
        }
    }

    pub fn reverse_index(&mut self)
        requires
            old(self).wf(),
        ensures
            final(self)@ == old(self)@.reverse_index(),
            final(self).wf(),
    {
        proof {
            reveal(ScreenView::reverse_index);
        }
        if self.cursor.row == self.scroll_region.start {
            self.scroll_down(1);
        } else {
            self.cursor.row = if self.cursor.row >= 1 {
                self.cursor.row - 1
            } else {
                0
            };
        }
    }

    /// Puts `glyph` at the cursor and moves the cursor past it.
    fn place(&mut self, glyph: Cell)
        requires
            old(self).wf(),
        ensures
            final(self)@ == old(self)@.place(glyph),
            final(self).wf(),
    {
        proof {
            reveal(ScreenView::place);
        }
        let row = self.cursor.row;
        let col = self.cursor.column;
        let width = self.buffer.width();
        if col < width {
            self.buffer.write(row, col, glyph);
            self.cursor.column = col + 1;
            if glyph.wide && col + 1 < width {
                self.buffer.write(row, col + 1, glyph.set_placeholder());
                self.cursor.column = col + 2;
            }
        }
    }

    /// Puts the character `content` on the screen at the cursor.
    pub fn input(&mut self, content: char)
        requires
            old(self).wf(),
        ensures
            final(self)@ == old(self)@.input(content),
            final(self).wf(),
    {
        proof {
            reveal(ScreenView::input);
        }
        let index = self.active_charset.index();
        let glyph = self.attribute_template.set_content(self.charsets[index].map(content));
        let needed: usize = if glyph.wide {
            2
        } else {
            1
        };
        if self.cursor.column + needed > self.buffer.width() {
            if !self.mode.contains(TerminalMode::LINE_WRAP) {
                return ;
            }
            self.linefeed();
            self.carriage_return();
        }
        self.place(glyph);
    }

    pub fn insert_blank(&mut self, count: usize)
        requires
            old(self).wf(),
        ensures
            final(self)@ == old(self)@.insert_blank(count as int),
            final(self).wf(),
    {
        proof {
            reveal(ScreenView::insert_blank);
        }
        let width = self.buffer.width();
        let col = self.cursor.column;
        if col >= width {
            return ;
        }
        let n = if count < width - col {
            count
        } else {
            width - col
        };
        let blank = self.attribute_template.clear();
        let row = self.cursor.row;
        self.buffer.insert_cells(row, col, n, blank);
    }

    pub fn delete_chars(&mut self, count: usize)
        requires
            old(self).wf(),
        ensures
            final(self)@ == old(self)@.delete_chars(count as int),
            final(self).wf(),
    {
        proof {
            reveal(ScreenView::delete_chars);
        }
        let width = self.buffer.width();
        let col = self.cursor.column;
        if col >= width {
            return ;
        }
        let n = if count < width - col {
            count
        } else {
            width - col
        };
        let blank = self.attribute_template.clear();
        let row = self.cursor.row;
        self.buffer.delete_cells(row, col, n, blank);
    }

    pub fn erase_chars(&mut self, count: usize)
        requires
            old(self).wf(),
        ensures
            final(self)@ == old(self)@.erase_chars(count as int),
            final(self).wf(),
    {
        proof {
            reveal(ScreenView::erase_chars);
        }
        let width = self.buffer.width();
        let start = self.cursor.column;
        let end = match start.checked_add(count) {
            Some(end) => if end < width {
                end
            } else {
                width
            },
            None => width,
        };
        self.blank_cells(start, end);
    }

    pub fn clear_line(&mut self, mode: LineClearMode)
        requires
            old(self).wf(),
        ensures
            final(self)@ == old(self)@.clear_line(mode),
            final(self).wf(),
    {
        proof {
            reveal(ScreenView::clear_line);
        }
        let width = self.buffer.width();
        let column = self.cursor.column;
        match mode {
            LineClearMode::All => self.blank_cells(0, width),
            LineClearMode::Left => {
                let end = if column < width - 1 {
                    column
                } else {
                    width - 1
                };
                self.blank_cells(0, end + 1);
            },
            LineClearMode::Right => self.blank_cells(column, width),
        }
    }

    pub fn clear_screen(&mut self, mode: ScreenClearMode)
        requires
            old(self).wf(),
        ensures
            final(self)@ == old(self)@.clear_screen(mode),
            final(self).wf(),
    {
        proof {
            reveal(ScreenView::blanking);
            reveal(ScreenView::clear_screen);
        }
        let width = self.buffer.width();
        let height = self.buffer.height();
        let blank = self.attribute_template.clear();
        let row = self.cursor.row;
        let column = self.cursor.column;
        match mode {
            ScreenClearMode::All => {
                self.buffer.clear(blank);
                self.cursor = Cursor::default();
            },
            ScreenClearMode::Saved => {
                self.buffer.clear(blank);
                self.cursor = Cursor::default();
                self.buffer.clear_history();
            },
            ScreenClearMode::Above => {
                self.buffer.fill_rows(0, row, blank);
                let end = if column + 1 < width {
                    column + 1
                } else {
                    width
                };
                self.blank_cells(0, end);
            },
            ScreenClearMode::Below => {
                self.blank_cells(column, width);
                self.buffer.fill_rows(row + 1, height, blank);
            },
        }
    }

    /// Changes the pen; nothing on the screen changes.
    pub fn terminal_attribute(&mut self, attr: Attr)
        requires
            old(self).wf(),
        ensures
            final(self)@ == old(self)@.terminal_attribute(attr),
            final(self).wf(),
    {
        match attr {
            Attr::Foreground(color) => {
                self.attribute_template.foreground = color;
            },
            Attr::Background(color) => {
                self.attribute_template.background = color;
            },
            Attr::Reset => {
                self.attribute_template = Cell::default();
            },
            Attr::Reverse => self.attribute_template.flags.insert(Flags::INVERSE),
            Attr::CancelReverse => self.attribute_template.flags.remove(Flags::INVERSE),
            Attr::Bold => self.attribute_template.flags.insert(Flags::BOLD),
            Attr::CancelBold => self.attribute_template.flags.remove(Flags::BOLD),
            Attr::CancelBoldDim => self.attribute_template.flags.remove(Flags::BOLD),
            Attr::Italic => self.attribute_template.flags.insert(Flags::ITALIC),
            Attr::CancelItalic => self.attribute_template.flags.remove(Flags::ITALIC),
            Attr::Underline => self.attribute_template.flags.insert(Flags::UNDERLINE),
            Attr::CancelUnderline => self.attribute_template.flags.remove(Flags::UNDERLINE),
            Attr::Hidden => self.attribute_template.flags.insert(Flags::HIDDEN),
            Attr::CancelHidden => self.attribute_template.flags.remove(Flags::HIDDEN),
        }
    }

    fn insert_mode(&mut self, mask: u32)
        requires
            old(self).wf(),
            mask & TerminalMode::ALT_SCREEN == 0,
        ensures
            final(self)@ == old(self)@.with_mode(mask),
            final(self).wf(),
    {
        proof {
            lemma_other_bits_keep(self.mode.bits, mask, TerminalMode::ALT_SCREEN);
        }
        self.mode.insert(mask);
    }

    fn remove_mode(&mut self, mask: u32)
        requires
            old(self).wf(),
            mask & TerminalMode::ALT_SCREEN == 0,
        ensures
            final(self)@ == old(self)@.without_mode(mask),
            final(self).wf(),
    {
        proof {
            lemma_other_bits_keep(self.mode.bits, mask, TerminalMode::ALT_SCREEN);
        }
        self.mode.remove(mask);
    }

    /// Exchanges the primary and the alternate screen.
    pub fn swap_alt_screen(&mut self)
        requires
            old(self).wf(),
        ensures
            final(self)@ == old(self)@.swap_alt_screen(),
            final(self).wf(),
    {
        proof {
            reveal(ScreenView::swap_alt_screen);
        }
        proof {
            lemma_toggle_alt(self.mode.bits);
        }
        self.mode.toggle(TerminalMode::ALT_SCREEN);
        let stashed = self.cursor;
        self.cursor = self.alt_cursor;
        self.alt_cursor = stashed;
        self.buffer.swap_alt_screen(self.attribute_template);
        if !self.mode.contains(TerminalMode::ALT_SCREEN) {
            self.saved_cursor = self.cursor;
            self.attribute_template = Cell::default();
        }
    }

    pub fn set_mode(&mut self, mode: Mode)
        requires
            old(self).wf(),
        ensures
            final(self)@ == old(self)@.set_mode(mode),
            final(self).wf(),
    {
        proof {
            lemma_alt_is_apart();
        }
        match mode {
            Mode::Insert => self.insert_mode(TerminalMode::INSERT),
            Mode::LineFeedNewLine => self.insert_mode(TerminalMode::LINE_FEED_NEW_LINE),
            _ => {},
        }
    }

    pub fn unset_mode(&mut self, mode: Mode)
        requires
            old(self).wf(),
        ensures
            final(self)@ == old(self)@.unset_mode(mode),
            final(self).wf(),
    {
        proof {
            lemma_alt_is_apart();
        }
        match mode {
            Mode::Insert => self.remove_mode(TerminalMode::INSERT),
            Mode::LineFeedNewLine => self.remove_mode(TerminalMode::LINE_FEED_NEW_LINE),
            _ => {},
        }
    }

    pub fn set_private_mode(&mut self, mode: Mode)
        requires
            old(self).wf(),
        ensures
            final(self)@ == old(self)@.set_private_mode(mode),
            final(self).wf(),
    {
        proof {
            reveal(ScreenView::set_private_mode);
        }
        proof {
            lemma_alt_is_apart();
        }
        match mode {
            Mode::SwapScreenAndSetRestoreCursor => {
                if !self.mode.contains(TerminalMode::ALT_SCREEN) {
                    self.swap_alt_screen();
                }
            },
            Mode::ShowCursor => self.insert_mode(TerminalMode::SHOW_CURSOR),
            Mode::CursorKeys => self.insert_mode(TerminalMode::APP_CURSOR),
            Mode::LineWrap => self.insert_mode(TerminalMode::LINE_WRAP),
            Mode::BracketedPaste => self.insert_mode(TerminalMode::BRACKETED_PASTE),
            _ => {},
        }
    }

    pub fn unset_private_mode(&mut self, mode: Mode)
        requires
            old(self).wf(),
        ensures
            final(self)@ == old(self)@.unset_private_mode(mode),
            final(self).wf(),
    {
        proof {
            reveal(ScreenView::unset_private_mode);
        }
        proof {
            lemma_alt_is_apart();
        }
        match mode {
            Mode::SwapScreenAndSetRestoreCursor => {
                if self.mode.contains(TerminalMode::ALT_SCREEN) {
                    self.swap_alt_screen();
                }
            },
            Mode::ShowCursor => self.remove_mode(TerminalMode::SHOW_CURSOR),
            Mode::CursorKeys => self.remove_mode(TerminalMode::APP_CURSOR),
            Mode::LineWrap => self.remove_mode(TerminalMode::LINE_WRAP),
            Mode::BracketedPaste => self.remove_mode(TerminalMode::BRACKETED_PASTE),
            _ => {},
        }
    }

    pub fn set_scrolling_region(&mut self, top: usize, bottom: Option<usize>)
        requires
            old(self).wf(),
        ensures
            final(self)@ == old(self)@.set_scrolling_region(
                top as int,
                match bottom {
                    Some(b) => Some(b as int),
                    None => None,
                },
            ),
            final(self).wf(),
    {
        proof {
            reveal(ScreenView::set_scrolling_region);
        }
        let height = self.buffer.height();
        let end = match bottom {
            Some(b) => b,
            None => height,
        };
        if top == 0 || top >= end {
            return ;
        }
        let first = if top < height {
            top
        } else {
            height
        };
        let last = if end < height {
            end
        } else {
            height
        };
        self.scroll_region = (first - 1)..last;
        self.goto(0, 0);
    }

    pub fn set_keypad_application_mode(&mut self)
        requires
            old(self).wf(),
        ensures
            final(self)@ == old(self)@.with_mode(TerminalMode::APP_KEYPAD),
            final(self).wf(),
    {
        proof {
            lemma_alt_is_apart();
        }
        self.insert_mode(TerminalMode::APP_KEYPAD);
    }

    pub fn unset_keypad_application_mode(&mut self)
        requires
            old(self).wf(),
        ensures
            final(self)@ == old(self)@.without_mode(TerminalMode::APP_KEYPAD),
            final(self).wf(),
    {
        proof {
            lemma_alt_is_apart();
        }
        self.remove_mode(TerminalMode::APP_KEYPAD);
    }

    pub fn set_cursor_shape(&mut self, shape: CursorShape)
        requires
            old(self).wf(),
        ensures
            final(self)@ == old(self)@.set_cursor_shape(shape),
            final(self).wf(),
    {
        self.cursor.shape = shape;
    }

    pub fn set_cursor_style(&mut self, style: Option<CursorStyle>)
        requires
            old(self).wf(),
        ensures
            final(self)@ == old(self)@.set_cursor_style(style),
            final(self).wf(),
    {
        match style {
            Some(s) => self.set_cursor_shape(s.shape),
            None => {},
        }
    }

    pub fn set_active_charset(&mut self, index: CharsetIndex)
        requires
            old(self).wf(),
        ensures
            final(self)@ == (ScreenView { active_charset: index, ..old(self)@ }),
            final(self).wf(),
    {
        self.active_charset = index;
    }

    pub fn configure_charset(&mut self, index: CharsetIndex, charset: StandardCharset)
        requires
            old(self).wf(),
        ensures
            final(self)@ == old(self)@.configure_charset(index, charset),
            final(self).wf(),
    {
        let slot = index.index();
        self.charsets[slot] = charset;
    }

    /// Answers a request for the device attributes: the primary ones
    /// without an intermediate, the secondary ones after `>`.
    pub fn identify_terminal(&self, intermediate: Option<char>) -> (r: Option<String>)
        ensures
            match r {
                Some(text) => ScreenView::identify_terminal(intermediate) == Some(text@),
                None => ScreenView::identify_terminal(intermediate) is None,
            },
    {
        match intermediate {
            None => {
                let mut text = String::new();
                push_char(&mut text, '\x1b');
                push_char(&mut text, '[');
                push_char(&mut text, '?');
                push_char(&mut text, '6');
                push_char(&mut text, 'c');
                assert(text@ =~= primary_attributes_reply());
                Some(text)
            },
            Some(c) => {
                if c == '>' {
                    let mut text = String::new();
                    push_char(&mut text, '\x1b');
                    push_char(&mut text, '[');
                    push_char(&mut text, '>');
                    push_char(&mut text, '0');
                    push_char(&mut text, ';');
                    push_decimal(&mut text, VERSION_NUMBER);
                    push_char(&mut text, ';');
                    push_char(&mut text, '1');
                    push_char(&mut text, 'c');
                    assert(text@ =~= secondary_attributes_reply(VERSION_NUMBER as nat));
                    Some(text)
                } else {
                    None
                }
            },
        }
    }

    /// Answers a status request: 5 asks whether the terminal is ready, 6
    /// where the cursor is.
    pub fn device_status(&self, arg: usize) -> (r: Option<String>)
        requires
            self.wf(),
        ensures
            match r {
                Some(text) => self@.device_status(arg as int) == Some(text@),
                None => self@.device_status(arg as int) is None,
            },
    {
        if arg == 5 {
            let mut text = String::new();
            push_char(&mut text, '\x1b');
            push_char(&mut text, '[');
            push_char(&mut text, '0');
            push_char(&mut text, 'n');
            assert(text@ =~= ready_reply());
            Some(text)
        } else if arg == 6 {
            let height = self.buffer.height();
            let mut text = String::new();
            push_char(&mut text, '\x1b');
            push_char(&mut text, '[');
            push_decimal(&mut text, self.cursor.row + 1);
            push_char(&mut text, ';');
            push_decimal(&mut text, self.cursor.column + 1);
            push_char(&mut text, 'R');
            assert(text@ =~= position_reply(self.cursor.row as nat, self.cursor.column as nat));
            Some(text)
        } else {
            None
        }
    }

    /// Answers which keyboard modes are in force: none.
    pub fn report_keyboard_mode(&self) -> (r: String)
        ensures
            r@ == keyboard_mode_reply(),
    {
        let mut text = String::new();
        push_char(&mut text, '\x1b');
        push_char(&mut text, '[');
        push_char(&mut text, '?');
        push_char(&mut text, '0');
        push_char(&mut text, 'u');
        assert(text@ =~= keyboard_mode_reply());
        text
    }

    pub fn reset_state(&mut self)
        requires
            old(self).wf(),
        ensures
            final(self)@ == old(self)@.reset_state(),
            final(self).wf(),
    {
        proof {
            reveal(ScreenView::swap_alt_screen);
            reveal(ScreenView::reset_state);
        }
        proof {
            lemma_alt_is_apart();
        }
        if self.mode.contains(TerminalMode::ALT_SCREEN) {
            self.swap_alt_screen();
        }
        self.buffer.clear(Cell::default());
        self.cursor = Cursor::default();
        self.saved_cursor = self.cursor;
        self.buffer.clear_history();
        self.mode = TerminalMode::default();
        self.attribute_template = Cell::default();
    }

    /// Sets (`enable`) or clears the flag that draws the cursor in the cell
    /// under it.
    pub fn cursor_handler(&mut self, enable: bool)
        requires
            old(self).wf(),
        ensures
            final(self)@ == old(self)@.cursor_drawn(enable),
            final(self).wf(),
    {
        proof {
            reveal(ScreenView::cursor_drawn);
        }
        let row = self.cursor.row % self.buffer.height();
        let column = self.cursor.column % self.buffer.width();
        let flag = match self.cursor.shape {
            CursorShape::Block => Flags::CURSOR_BLOCK,
            CursorShape::Underline => Flags::CURSOR_UNDERLINE,
            CursorShape::Beam => Flags::CURSOR_BEAM,
            CursorShape::HollowBlock => Flags::CURSOR_BLOCK,
            CursorShape::Hidden => Flags::HIDDEN,
        };
        let mut cell = self.buffer.read(row, column);
        if enable {
            cell.flags.insert(flag);
        } else {
            cell.flags.remove(flag);
        }
        self.buffer.write(row, column, cell);
    }

    /// Makes `action` on the screen if it writes a character or moves the
    /// cursor; says whether it did.
    fn apply_motion(&mut self, action: Action) -> (handled: bool)
        requires
            old(self).wf(),
        ensures
            final(self).wf(),
            match old(self)@.moved(action) {
                Some(next) => handled && final(self)@ == next,
                None => !handled && final(self)@ == old(self)@,
            },
    {
        match action {
            Action::Input(c) => self.input(c),
            Action::Goto(row, col) => self.goto(row, col),
            Action::GotoLine(row) => self.goto_line(row),
            Action::GotoCol(col) => self.goto_col(col),
            Action::MoveUp(n) => self.move_up(n),
            Action::MoveDown(n) => self.move_down(n),
            Action::MoveForward(n) => self.move_forward(n),
            Action::MoveBackward(n) => self.move_backward(n),
            Action::MoveUpAndCr(n) => self.move_up_and_cr(n),
            Action::MoveDownAndCr(n) => self.move_down_and_cr(n),
            Action::CarriageReturn => self.carriage_return(),
            Action::Linefeed => self.linefeed(),
            Action::Newline => self.newline(),
            Action::Backspace => self.backspace(),
            Action::PutTab(n) => self.put_tab(n),
            Action::MoveForwardTabs(n) => self.move_forward_tabs(n),
            Action::MoveBackwardTabs(n) => self.move_backward_tabs(n),
            Action::SaveCursorPosition => self.save_cursor_position(),
            Action::RestoreCursorPosition => self.restore_cursor_position(),
            Action::ReverseIndex => self.reverse_index(),
            _ => {
                return false;
            },
        }
        true
    }

    /// Makes `action` on the screen if it edits or scrolls the grid; says
    /// whether it did.
    fn apply_edit(&mut self, action: Action) -> (handled: bool)
        requires
            old(self).wf(),
        ensures
            final(self).wf(),
            match old(self)@.edited(action) {
                Some(next) => handled && final(self)@ == next,
                None => !handled && final(self)@ == old(self)@,
            },
    {
        match action {
            Action::InsertBlank(n) => self.insert_blank(n),
            Action::InsertBlankLines(n) => self.insert_blank_lines(n),
            Action::DeleteLines(n) => self.delete_lines(n),
            Action::EraseChars(n) => self.erase_chars(n),
            Action::DeleteChars(n) => self.delete_chars(n),
            Action::ScrollUp(n) => self.scroll_up(n),
            Action::ScrollDown(n) => self.scroll_down(n),
            Action::ClearLine(mode) => self.clear_line(mode),
            Action::ClearScreen(mode) => self.clear_screen(mode),
            Action::ResetState => self.reset_state(),
            _ => {
                return false;
            },
        }
        true
    }

    /// Makes `action` on the screen if it changes the pen, a mode, the
    /// scroll region, the cursor's shape or a character set; says whether it
    /// did.
    fn apply_switch(&mut self, action: Action) -> (handled: bool)
        requires
            old(self).wf(),
        ensures
            final(self).wf(),
            match old(self)@.switched(action) {
                Some(next) => handled && final(self)@ == next,
                None => !handled && final(self)@ == old(self)@,
            },
    {
        match action {
            Action::TerminalAttribute(attr) => self.terminal_attribute(attr),
            Action::SetMode(mode) => self.set_mode(mode),
            Action::UnsetMode(mode) => self.unset_mode(mode),
            Action::SetPrivateMode(mode) => self.set_private_mode(mode),
            Action::UnsetPrivateMode(mode) => self.unset_private_mode(mode),
            Action::SetScrollingRegion(top, bottom) => self.set_scrolling_region(top, bottom),
            Action::SetKeypadApplicationMode => self.set_keypad_application_mode(),
            Action::UnsetKeypadApplicationMode => self.unset_keypad_application_mode(),
            Action::SetCursorShape(shape) => self.set_cursor_shape(shape),
            Action::SetCursorStyle(style) => self.set_cursor_style(style),
            Action::SetActiveCharset(index) => self.set_active_charset(index),
            Action::ConfigureCharset(index, charset) => self.configure_charset(index, charset),
            _ => {
                return false;
            },
        }
        true
    }

    /// What the screen answers to `action`, if anything.
    pub fn answer(&self, action: Action) -> (reply: Option<String>)
        requires
            self.wf(),
        ensures
            match reply {
                Some(text) => self@.reply_to(action) == Some(text@),
                None => self@.reply_to(action) is None,
            },
    {
        match action {
            Action::IdentifyTerminal(intermediate) => self.identify_terminal(intermediate),
            Action::DeviceStatus(arg) => self.device_status(arg),
            Action::ReportKeyboardMode => Some(self.report_keyboard_mode()),
            _ => None,
        }
    }

    /// Makes one handler call on the screen and hands back what the screen
    /// answers to it, if anything.
    pub fn apply(&mut self, action: Action) -> (reply: Option<String>)
        requires
            old(self).wf(),
        ensures
            final(self)@ == old(self)@.apply(action),
            final(self).wf(),
            match reply {
                Some(text) => old(self)@.reply_to(action) == Some(text@),
                None => old(self)@.reply_to(action) is None,
            },
    {
        let reply = self.answer(action);
        if !self.apply_motion(action) {
            if !self.apply_edit(action) {
                self.apply_switch(action);
            }
        }
        reply
    }

    /// Makes the calls of `actions` on the screen in order and collects the
    /// answers.
    pub fn apply_all(&mut self, actions: &Vec<Action>) -> (replies: Vec<String>)
        requires
            old(self).wf(),
        ensures
            final(self)@ == old(self)@.apply_all(actions@),
            final(self).wf(),
            texts(replies@) == old(self)@.replies(actions@),
    {
        let mut replies: Vec<String> = Vec::new();
        let mut i: usize = 0;
        assert(texts(replies@) =~= Seq::<Seq<char>>::empty());
        while i < actions.len()
            invariant
                i <= actions.len(),
                self.wf(),
                self@ == old(self)@.apply_all(actions@.subrange(0, i as int)),
                texts(replies@) == old(self)@.replies(actions@.subrange(0, i as int)),
            decreases actions.len() - i,
        {
            let ghost done = actions@.subrange(0, i as int);
            let ghost next = actions@.subrange(0, i + 1);
            let ghost sofar = replies@;
            assert(next.drop_last() =~= done);
            assert(next.last() == actions@[i as int]);
            match self.apply(actions[i]) {
                Some(text) => {
                    replies.push(text);
                    assert(texts(replies@) =~= texts(sofar) + seq![text@]);
                },
                None => {
                    assert(texts(replies@) =~= texts(sofar) + Seq::<Seq<char>>::empty());
                },
            }
            i += 1;
        }
        assert(actions@.subrange(0, i as int) =~= actions@);
        replies
    }

    /// Whether a grid for a display of `graphic_size` pixels under a font
    /// whose cells are `font_size` pixels can be made: the cells have a size,
    /// at least one cell fits, and the number of columns leaves room for
    /// arithmetic.
    pub open spec fn fits(font_size: (usize, usize), graphic_size: (usize, usize)) -> bool {
        &&& 0 < font_size.0 <= graphic_size.0
        &&& 0 < font_size.1 <= graphic_size.1
        &&& graphic_size.0 as int / font_size.0 as int + 2 <= usize::MAX
    }

    /// Fits the screen to a display of `graphic_size` pixels under a font
    /// whose cells are `font_size` pixels. The scroll region becomes the
    /// whole grid and the cursors are kept on the grid. Where no grid can
    /// be made the screen stays as it is, and the answer is `false`.
    pub fn resize(&mut self, font_size: (usize, usize), graphic_size: (usize, usize)) -> (done:
        bool)
        requires
            old(self).wf(),
        ensures
            done == Screen::fits(font_size, graphic_size),
            !done ==> final(self)@ == old(self)@,
            done ==> final(self)@ == old(self)@.resized(
                graphic_size.0 as int / font_size.0 as int,
                graphic_size.1 as int / font_size.1 as int,
                (
                    font_size.0 * (graphic_size.0 as int / font_size.0 as int),
                    font_size.1 * (graphic_size.1 as int / font_size.1 as int),
                ),
            ),
            final(self).wf(),
    {
        proof {
            reveal(ScreenView::resized);
        }
        if font_size.0 == 0 || font_size.1 == 0 || font_size.0 > graphic_size.0 || font_size.1
            > graphic_size.1 {
            return false;
        }
        if graphic_size.0 / font_size.0 > usize::MAX - 2 {
            return false;
        }
        self.buffer.update_size(font_size, graphic_size);
        let width = self.buffer.width();
        let height = self.buffer.height();
        self.scroll_region = 0..height;
        self.cursor = Screen::kept_on(self.cursor, width, height);
        self.saved_cursor = Screen::kept_on(self.saved_cursor, width, height);
        self.alt_cursor = Screen::kept_on(self.alt_cursor, width, height);
        true
    }

    /// `cursor`, moved onto a grid of `width` by `height` cells if need be.
    fn kept_on(cursor: Cursor, width: usize, height: usize) -> (r: Cursor)
        requires
            width >= 1,
            height >= 1,
        ensures
            r == ScreenView::kept_on(cursor, width as int, height as int),
    {
        Cursor {
            row: if cursor.row < height - 1 {
                cursor.row
            } else {
                height - 1
            },
            column: if cursor.column < width {
                cursor.column
            } else {
                width
            },
            shape: cursor.shape,
        }
    }

    /// Paints what changed since the last flush.
    pub fn flush<D: crate::graphic::DrawTarget>(&mut self, graphic: &mut crate::graphic::Graphic<D>)
        requires
            old(self).wf(),
            old(graphic).wf(),
        ensures
            final(self)@ == old(self)@.on(TerminalBuffer::flushed(old(self)@.grid)),
            final(self).wf(),
            final(graphic).wf(),
            final(graphic).scheme() == old(graphic).scheme(),
            final(graphic).has_font() == old(graphic).has_font(),
            final(graphic).cache_size() == old(graphic).cache_size(),
            !old(graphic).has_font() || old(self)@.grid.flush_cache == old(self)@.grid.viewport()
                ==> final(graphic).painted() == old(graphic).painted(),
            old(graphic).has_font() ==> exists|answers: Seq<Seq<crate::graphic::FontAnswer>>|
                final(graphic).painted() == old(graphic).painted() + #[trigger] old(
                    self,
                )@.grid.repainting(false, old(graphic).scheme(), old(self)@.grid.height, answers),
    {
        self.buffer.flush(graphic);
    }

    /// Paints the whole viewport and the margins around the cells anew.
    pub fn full_flush<D: crate::graphic::DrawTarget>(
        &mut self,
        graphic: &mut crate::graphic::Graphic<D>,
    )
        requires
            old(self).wf(),
            old(graphic).wf(),
        ensures
            final(self)@ == old(self)@.on(TerminalBuffer::flushed(old(self)@.grid)),
            final(self).wf(),
            final(graphic).wf(),
            final(graphic).scheme() == old(graphic).scheme(),
            final(graphic).has_font() == old(graphic).has_font(),
            final(graphic).cache_size() == old(graphic).cache_size(),
            exists|answers: crate::buffer::FlushAnswers|
                final(graphic).painted() == old(graphic).painted() + #[trigger] old(
                    self,
                )@.grid.full_repainting(old(graphic).scheme(), old(graphic).has_font(), answers),
    {
        self.buffer.full_flush(graphic);
    }

    /// Moves the viewport up by `count` rows into the scrollback, or down
    /// for a negative count.
    pub fn scroll_history(&mut self, count: isize)
        requires
            old(self).wf(),
        ensures
            final(self)@ == old(self)@.on(
                GridView {
                    start_row: old(self)@.grid.history_position(count as int),
                    ..old(self)@.grid
                },
            ),
            final(self).wf(),
    {
        self.buffer.scroll_history(count);
    }

    /// Moves the viewport to the latest rows.
    pub fn ensure_latest(&mut self)
        requires
            old(self).wf(),
        ensures
            final(self)@ == old(self)@.on(
                GridView {
                    start_row: old(self)@.grid.rows.len() - old(self)@.grid.height,
                    ..old(self)@.grid
                },
            ),
            final(self)@.grid.at_latest(),
            final(self).wf(),
    {
        self.buffer.ensure_latest();
    }

    /// Sets the limit on the rows of scrollback.
    pub fn resize_history(&mut self, capacity: usize)
        requires
            old(self).wf(),
        ensures
            final(self)@ == old(self)@.on(
                GridView { history_size: capacity as int, ..old(self)@.grid },
            ),
            final(self).wf(),
    {
        self.buffer.resize_history(capacity);
    }

    /// Lets the pen go back to its first state.
    pub fn reset_template(&mut self)
        requires
            old(self).wf(),
        ensures
            final(self)@ == (ScreenView { template: Cell::blank(), ..old(self)@ }),
            final(self).wf(),
    {
        self.attribute_template = Cell::default();
    }
}

} // verus!
