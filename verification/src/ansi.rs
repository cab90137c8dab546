//! The vocabulary of the control-sequence interpreter: clear modes,
//! attributes, terminal modes, character sets, cursor shapes, and the
//! handler calls that a decoded sequence stands for.

use vstd::prelude::*;
use crate::cell::Color;

verus! {

#[derive(Clone, Copy, Debug, PartialEq, Eq, Structural)]
pub enum LineClearMode {
    /// From the cursor to the end of the line.
    Right,
    /// From the start of the line to the cursor, inclusive.
    Left,
    All,
}

#[derive(Clone, Copy, Debug, PartialEq, Eq, Structural)]
pub enum ScreenClearMode {
    Below,
    Above,
    All,
    /// The whole screen and the scrollback.
    Saved,
}

#[derive(Clone, Copy, Debug, PartialEq, Eq, Structural)]
pub enum TabulationClearMode {
    Current,
    All,
}

/// One change to the drawing pen.
#[derive(Clone, Copy, Debug, PartialEq, Eq, Structural)]
pub enum Attr {
    Reset,
    Bold,
    Italic,
    Underline,
    Reverse,
    Hidden,
    CancelBold,
    CancelBoldDim,
    CancelItalic,
    CancelUnderline,
    CancelReverse,
    CancelHidden,
    Foreground(Color),
    Background(Color),
}

/// The terminal modes that have a name. `Insert` and `LineFeedNewLine` are
/// public modes; all others are DEC private modes.
#[derive(Clone, Copy, Debug, PartialEq, Eq, Structural)]
pub enum Mode {
    CursorKeys,
    ColumnMode,
    Insert,
    Origin,
    LineWrap,
    BlinkingCursor,
    LineFeedNewLine,
    ShowCursor,
    ReportMouseClicks,
    ReportCellMouseMotion,
    ReportAllMouseMotion,
    ReportFocusInOut,
    Utf8Mouse,
    SgrMouse,
    AlternateScroll,
    UrgencyHints,
    SwapScreenAndSetRestoreCursor,
    BracketedPaste,
}

impl Mode {
    /// The number that selects the mode in a set-mode or reset-mode sequence.
    pub open spec fn number(self) -> u16 {
        match self {
            Mode::CursorKeys => 1,
            Mode::ColumnMode => 3,
            Mode::Insert => 4,
            Mode::Origin => 6,
            Mode::LineWrap => 7,
            Mode::BlinkingCursor => 12,
            Mode::LineFeedNewLine => 20,
            Mode::ShowCursor => 25,
            Mode::ReportMouseClicks => 1000,
            Mode::ReportCellMouseMotion => 1002,
            Mode::ReportAllMouseMotion => 1003,
            Mode::ReportFocusInOut => 1004,
            Mode::Utf8Mouse => 1005,
            Mode::SgrMouse => 1006,
            Mode::AlternateScroll => 1007,
            Mode::UrgencyHints => 1042,
            Mode::SwapScreenAndSetRestoreCursor => 1049,
            Mode::BracketedPaste => 2004,
        }
    }

    /// Whether the mode is a DEC private mode, selected with a `?` before
    /// the number.
    pub open spec fn is_private(self) -> bool {
        !(self == Mode::Insert || self == Mode::LineFeedNewLine)
    }

    /// The mode that `num` names among the private modes (`private`) or among
    /// the public ones.
    pub open spec fn named(private: bool, num: u16) -> Option<Mode> {
        if private {
            match num {
                1 => Some(Mode::CursorKeys),
                3 => Some(Mode::ColumnMode),
                6 => Some(Mode::Origin),
                7 => Some(Mode::LineWrap),
                12 => Some(Mode::BlinkingCursor),
                25 => Some(Mode::ShowCursor),
                1000 => Some(Mode::ReportMouseClicks),
                1002 => Some(Mode::ReportCellMouseMotion),
                1003 => Some(Mode::ReportAllMouseMotion),
                1004 => Some(Mode::ReportFocusInOut),
                1005 => Some(Mode::Utf8Mouse),
                1006 => Some(Mode::SgrMouse),
                1007 => Some(Mode::AlternateScroll),
                1042 => Some(Mode::UrgencyHints),
                1049 => Some(Mode::SwapScreenAndSetRestoreCursor),
                2004 => Some(Mode::BracketedPaste),
                _ => None,
            }
        } else {
            match num {
                4 => Some(Mode::Insert),
                20 => Some(Mode::LineFeedNewLine),
                _ => None,
            }
        }
    }

    /// What a mode parameter means after the given intermediate byte: no
    /// intermediate selects the public modes, `?` the private ones, and any
    /// other intermediate nothing.
    pub open spec fn primitive(intermediate: Option<u8>, num: u16) -> Option<Mode> {
        match intermediate {
            None => Mode::named(false, num),
            Some(b) => if b == 0x3f {
                Mode::named(true, num)
            } else {
                None
            },
        }
    }

    /// `named` finds exactly the mode with the given family and number.
    pub proof fn lemma_named_is_inverse(private: bool, num: u16, mode: Mode)
        ensures
            Mode::named(private, num) == Some(mode) <==> (mode.number() == num
                && mode.is_private() == private),
    {
    }

    pub fn from_primitive(intermediate: Option<&u8>, num: u16) -> (r: Option<Mode>)
        ensures
            r == Mode::primitive(
                match intermediate {
                    Some(b) => Some(*b),
                    None => None,
                },
                num,
            ),
    {
        let private = match intermediate {
            Some(b) => {
                if *b == 0x3f {
                    true
                } else {
                    return None;
                }
            },
            None => false,
        };
        if private {
            match num {
                1 => Some(Mode::CursorKeys),
                3 => Some(Mode::ColumnMode),
                6 => Some(Mode::Origin),
                7 => Some(Mode::LineWrap),
                12 => Some(Mode::BlinkingCursor),
                25 => Some(Mode::ShowCursor),
                1000 => Some(Mode::ReportMouseClicks),
                1002 => Some(Mode::ReportCellMouseMotion),
                1003 => Some(Mode::ReportAllMouseMotion),
                1004 => Some(Mode::ReportFocusInOut),
                1005 => Some(Mode::Utf8Mouse),
                1006 => Some(Mode::SgrMouse),
                1007 => Some(Mode::AlternateScroll),
                1042 => Some(Mode::UrgencyHints),
                1049 => Some(Mode::SwapScreenAndSetRestoreCursor),
                2004 => Some(Mode::BracketedPaste),
                _ => None,
            }
        } else {
            match num {
                4 => Some(Mode::Insert),
                20 => Some(Mode::LineFeedNewLine),
                _ => None,
            }
        }
    }

    /// The number that selects the mode.
    pub fn code(self) -> (r: u16)
        ensures
            r == self.number(),
    {
        match self {
            Mode::CursorKeys => 1,
            Mode::ColumnMode => 3,
            Mode::Insert => 4,
            Mode::Origin => 6,
            Mode::LineWrap => 7,
            Mode::BlinkingCursor => 12,
            Mode::LineFeedNewLine => 20,
            Mode::ShowCursor => 25,
            Mode::ReportMouseClicks => 1000,
            Mode::ReportCellMouseMotion => 1002,
            Mode::ReportAllMouseMotion => 1003,
            Mode::ReportFocusInOut => 1004,
            Mode::Utf8Mouse => 1005,
            Mode::SgrMouse => 1006,
            Mode::AlternateScroll => 1007,
            Mode::UrgencyHints => 1042,
            Mode::SwapScreenAndSetRestoreCursor => 1049,
            Mode::BracketedPaste => 2004,
        }
    }
}

/// The four slots that a character set can be designated to.
#[derive(Clone, Copy, Debug, PartialEq, Eq, Structural)]
pub enum CharsetIndex {
    G0,
    G1,
    G2,
    G3,
}

impl CharsetIndex {
    pub open spec fn slot(self) -> int {
        match self {
            CharsetIndex::G0 => 0,
            CharsetIndex::G1 => 1,
            CharsetIndex::G2 => 2,
            CharsetIndex::G3 => 3,
        }
    }

    /// The position of the slot in a table of four.
    pub fn index(self) -> (r: usize)
        ensures
            r == self.slot(),
            r < 4,
    {
        match self {
            CharsetIndex::G0 => 0,
            CharsetIndex::G1 => 1,
            CharsetIndex::G2 => 2,
            CharsetIndex::G3 => 3,
        }
    }
}

impl Default for CharsetIndex {
    fn default() -> (r: CharsetIndex)
        ensures
            r == CharsetIndex::G0,
    {
        CharsetIndex::G0
    }
}

#[derive(Clone, Copy, Debug, PartialEq, Eq, Structural)]
pub enum StandardCharset {
    Ascii,
    SpecialCharacterAndLineDrawing,
}

/// The DEC special graphics set: what each of the codes `_` to `~` draws;
/// every other character draws as itself.
pub open spec fn line_drawing(c: char) -> char {
    match c {
        '_' => '\u{0020}',
        '`' => '\u{25c6}',
        'a' => '\u{2592}',
        'b' => '\u{2409}',
        'c' => '\u{240c}',
        'd' => '\u{240d}',
        'e' => '\u{240a}',
        'f' => '\u{00b0}',
        'g' => '\u{00b1}',
        'h' => '\u{2424}',
        'i' => '\u{240b}',
        'j' => '\u{2518}',
        'k' => '\u{2510}',
        'l' => '\u{250c}',
        'm' => '\u{2514}',
        'n' => '\u{253c}',
        'o' => '\u{23ba}',
        'p' => '\u{23bb}',
        'q' => '\u{2500}',
        'r' => '\u{23bc}',
        's' => '\u{23bd}',
        't' => '\u{251c}',
        'u' => '\u{2524}',
        'v' => '\u{2534}',
        'w' => '\u{252c}',
        'x' => '\u{2502}',
        'y' => '\u{2264}',
        'z' => '\u{2265}',
        '{' => '\u{03c0}',
        '|' => '\u{2260}',
        '}' => '\u{00a3}',
        '~' => '\u{00b7}',
        _ => c,
    }
}

impl StandardCharset {
    /// The character drawn for `c` under this set.
    pub open spec fn mapped(self, c: char) -> char {
        match self {
            StandardCharset::Ascii => c,
            StandardCharset::SpecialCharacterAndLineDrawing => line_drawing(c),
        }
    }

    /// Calls `vte::ansi::StandardCharset::map`.
    ///
    /// Assumed, not proved: the ASCII set maps every character to itself, and
    /// the special set maps the codes `_` to `~` as `line_drawing` lists them
    /// and every other character to itself.
    #[verifier::external_body]
    pub(crate) fn map_with_table(self, c: char) -> (r: char)
        ensures
            r == self.mapped(c),
    {
        match self {
            StandardCharset::Ascii => vte::ansi::StandardCharset::Ascii.map(c),
            StandardCharset::SpecialCharacterAndLineDrawing => {
                vte::ansi::StandardCharset::SpecialCharacterAndLineDrawing.map(c)
            },
        }
    }

    /// The character drawn for `c` under this set.
    pub fn map(self, c: char) -> (r: char)
        ensures
            r == self.mapped(c),
    {
        self.map_with_table(c)
    }
}

impl Default for StandardCharset {
    fn default() -> (r: StandardCharset)
        ensures
            r == StandardCharset::Ascii,
    {
        StandardCharset::Ascii
    }
}

#[derive(Clone, Copy, Debug, PartialEq, Eq, Structural)]
pub enum CursorShape {
    Block,
    Underline,
    Beam,
    HollowBlock,
    Hidden,
}

impl Default for CursorShape {
    fn default() -> (r: CursorShape)
        ensures
            r == CursorShape::Block,
    {
        CursorShape::Block
    }
}

#[derive(Clone, Copy, Debug, PartialEq, Eq, Structural)]
pub struct CursorStyle {
    pub shape: CursorShape,
    pub blinking: bool,
}

/// One call on a handler, as a value. A decoded control sequence is a list of
/// these.
#[derive(Clone, Copy, Debug, PartialEq, Eq, Structural)]
pub enum Action {
    Input(char),
    Goto(usize, usize),
    GotoLine(usize),
    GotoCol(usize),
    MoveUp(usize),
    MoveDown(usize),
    MoveForward(usize),
    MoveBackward(usize),
    MoveUpAndCr(usize),
    MoveDownAndCr(usize),
    CarriageReturn,
    Linefeed,
    Newline,
    Backspace,
    PutTab(u16),
    MoveForwardTabs(u16),
    MoveBackwardTabs(u16),
    SaveCursorPosition,
    RestoreCursorPosition,
    ReverseIndex,
    InsertBlank(usize),
    InsertBlankLines(usize),
    DeleteLines(usize),
    EraseChars(usize),
    DeleteChars(usize),
    ScrollUp(usize),
    ScrollDown(usize),
    ClearLine(LineClearMode),
    ClearScreen(ScreenClearMode),
    ClearTabs(TabulationClearMode),
    TerminalAttribute(Attr),
    SetMode(Mode),
    UnsetMode(Mode),
    SetPrivateMode(Mode),
    UnsetPrivateMode(Mode),
    SetScrollingRegion(usize, Option<usize>),
    SetKeypadApplicationMode,
    UnsetKeypadApplicationMode,
    SetCursorShape(CursorShape),
    SetCursorStyle(Option<CursorStyle>),
    SetActiveCharset(CharsetIndex),
    ConfigureCharset(CharsetIndex, StandardCharset),
    IdentifyTerminal(Option<char>),
    DeviceStatus(usize),
    ReportKeyboardMode,
    PushKeyboardMode(u8),
    PopKeyboardModes(u16),
    Bell,
    Substitute,
    SetHorizontalTabstop,
    Decaln,
    ResetState,
    SetTitle,
    PushTitle,
    PopTitle,
    TextAreaSizePixels,
    TextAreaSizeChars,
    /// Give the color with this index these red, green and blue parts.
    /// Indices below 256 are palette entries; 256, 257 and 258 are the
    /// foreground, the background and the cursor.
    SetColor(usize, u8, u8, u8),
    /// Give the color with this index its first value back.
    ResetColor(usize),
    /// Report the color with this index; the flag says whether the request
    /// ended with BEL rather than with ESC `\`.
    DynamicColorSequence(usize, bool),
    /// Store the payload of the sequence, which is base64 text, in the
    /// clipboard with the given selector.
    ClipboardStore(u8),
    /// Report the clipboard with the given selector; the flag says whether
    /// the request ended with BEL rather than with ESC `\`.
    ClipboardLoad(u8, bool),
}

/// What a terminal tells the host's logger: something arrived that it has
/// nothing to do for.
#[derive(Clone, Copy, Debug, PartialEq, Eq, Structural)]
pub enum Notice {
    /// A handler call for a feature that the terminal does not have.
    Unhandled(Action),
    /// A control byte that stands for no handler call.
    UnknownControl(u8),
    /// A control sequence with this final character that stands for no
    /// handler call.
    UnknownCsi(char),
    /// An escape sequence with this final byte that stands for no handler
    /// call.
    UnknownEsc(u8),
    /// An operating system command that stands for no handler call.
    UnknownOsc,
}

} // verus!
