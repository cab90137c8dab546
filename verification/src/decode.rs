//! From one parsed control sequence to the handler calls it stands for.
//!
//! The tables here follow ECMA-48 and the xterm control sequences as far as
//! the handler interface has a call for them:
//!
//! - control bytes: BEL, BS, HT, LF, VT, FF, CR, SO, SI and SUB;
//! - control sequences: cursor motion (`A` to `H`, `` ` ``, `a`, `d`, `e`,
//!   `f`), tabs (`I`, `Z`, `g`), editing (`@`, `J`, `K`, `L`, `M`, `P`, `X`),
//!   scrolling (`S`, `T`, `r`), modes (`h`, `l`, also with `?`), attributes
//!   (`m`), reports (`c`, `n`, `t`), saving and restoring the cursor (`s`,
//!   `u`), the cursor style (`SP q`) and the keyboard modes (`? u`, `> u`,
//!   `< u`);
//! - escape sequences: character sets (`(`, `)`, `*`, `+`), the alignment
//!   test (`# 8`), `D`, `E`, `H`, `M`, `Z`, `c`, `7`, `8`, `=` and `>`;
//! - operating system commands: 0, 2, 4, 10 to 12, 50, 52, 104 and 110 to
//!   112.
//!
//! The sequence that repeats the character drawn last (`b`) needs that
//! character; the interpreter resolves it before an item is decoded, so here
//! it stands for no call. Left out, because the handler interface has no
//! call for them, are tab stops at every eighth column (`? 5 W`), the
//! character set chosen by `SP k`, the options for modified keys (`> m`,
//! `? m`), mode reports (`$ p`), setting the keyboard mode (`= u`),
//! hyperlinks (command 8) and the pointer's shape (command 22).
//!
//! A sequence that names nothing known decodes to no call at all, so that it
//! leaves a handler unchanged.

use vstd::prelude::*;
use crate::ansi::{
    Action, Attr, CharsetIndex, CursorShape, CursorStyle, LineClearMode, Mode, ScreenClearMode,
    StandardCharset, TabulationClearMode,
};
use crate::sgr::{attrs_from_sgr_parameters, head, rows, sgr_attrs};
use crate::xcolor::{color_value, decimal_index, parse_number, xparse_color};

verus! {

/// The fields of an operating system command as mathematical sequences.
pub open spec fn fields(params: Seq<Vec<u8>>) -> Seq<Seq<u8>> {
    params.map_values(|p: Vec<u8>| p@)
}

/// Parameter `i`, or `default` where it is missing or zero.
pub open spec fn param_or(params: Seq<Seq<u16>>, i: int, default: u16) -> u16 {
    if 0 <= i < params.len() && head(params[i]) != 0 {
        head(params[i])
    } else {
        default
    }
}

/// The call that a C0 control byte stands for.
pub open spec fn execute_call(byte: u8) -> Option<Action> {
    if byte == 0x08 {
        Some(Action::Backspace)
    } else if byte == 0x09 {
        Some(Action::PutTab(1))
    } else if byte == 0x0a || byte == 0x0b || byte == 0x0c {
        Some(Action::Linefeed)
    } else if byte == 0x0d {
        Some(Action::CarriageReturn)
    } else if byte == 0x07 {
        Some(Action::Bell)
    } else if byte == 0x1a {
        Some(Action::Substitute)
    } else if byte == 0x0f {
        Some(Action::SetActiveCharset(CharsetIndex::G0))
    } else if byte == 0x0e {
        Some(Action::SetActiveCharset(CharsetIndex::G1))
    } else {
        None
    }
}

/// The calls that set (`set`) or reset the modes named by the parameters
/// from `from` on. A number that names no mode of the selected family gives
/// no call.
pub open spec fn mode_calls(params: Seq<Seq<u16>>, from: int, mark: Option<u8>, set: bool) -> Seq<
    Action,
>
    decreases params.len() - from,
{
    if from < 0 || from >= params.len() {
        Seq::empty()
    } else {
        let rest = mode_calls(params, from + 1, mark, set);
        match Mode::primitive(mark, head(params[from])) {
            Some(mode) => seq![
                if mode.is_private() {
                    if set {
                        Action::SetPrivateMode(mode)
                    } else {
                        Action::UnsetPrivateMode(mode)
                    }
                } else {
                    if set {
                        Action::SetMode(mode)
                    } else {
                        Action::UnsetMode(mode)
                    }
                },
            ] + rest,
            None => rest,
        }
    }
}

/// The cursor style that `CSI Ps SP q` selects: none for 0, else a shape
/// that blinks for odd numbers. Numbers above 6 select nothing.
pub open spec fn cursor_style_call(id: u16) -> Option<Action> {
    if id == 0 {
        Some(Action::SetCursorStyle(None))
    } else if id <= 6 {
        Some(
            Action::SetCursorStyle(
                Some(
                    CursorStyle {
                        shape: if id <= 2 {
                            CursorShape::Block
                        } else if id <= 4 {
                            CursorShape::Underline
                        } else {
                            CursorShape::Beam
                        },
                        blinking: id % 2 == 1,
                    },
                ),
            ),
        )
    } else {
        None
    }
}

/// The call of a control sequence without intermediate bytes whose
/// argument is its first parameter; `None` where `action` is no such
/// sequence.
pub open spec fn counted_call(action: char, params: Seq<Seq<u16>>) -> Option<Action> {
    let n = param_or(params, 0, 1) as usize;
    if action == '@' {
        Some(Action::InsertBlank(n))
    } else if action == 'A' {
        Some(Action::MoveUp(n))
    } else if action == 'B' || action == 'e' {
        Some(Action::MoveDown(n))
    } else if action == 'C' || action == 'a' {
        Some(Action::MoveForward(n))
    } else if action == 'D' {
        Some(Action::MoveBackward(n))
    } else if action == 'E' {
        Some(Action::MoveDownAndCr(n))
    } else if action == 'F' {
        Some(Action::MoveUpAndCr(n))
    } else if action == 'G' || action == '`' {
        Some(Action::GotoCol((n - 1) as usize))
    } else if action == 'd' {
        Some(Action::GotoLine((n - 1) as usize))
    } else if action == 'I' {
        Some(Action::MoveForwardTabs(param_or(params, 0, 1)))
    } else if action == 'Z' {
        Some(Action::MoveBackwardTabs(param_or(params, 0, 1)))
    } else if action == 'L' {
        Some(Action::InsertBlankLines(n))
    } else if action == 'M' {
        Some(Action::DeleteLines(n))
    } else if action == 'P' {
        Some(Action::DeleteChars(n))
    } else if action == 'X' {
        Some(Action::EraseChars(n))
    } else if action == 'S' {
        Some(Action::ScrollUp(n))
    } else if action == 'T' {
        Some(Action::ScrollDown(n))
    } else {
        None
    }
}

/// The calls of a control sequence without intermediate bytes that is not
/// covered by `counted_call`.
pub open spec fn plain_calls(action: char, params: Seq<Seq<u16>>) -> Seq<Action> {
    let mode = param_or(params, 0, 0);
    if action == 'H' || action == 'f' {
        seq![
            Action::Goto(
                (param_or(params, 0, 1) - 1) as usize,
                (param_or(params, 1, 1) - 1) as usize,
            ),
        ]
    } else if action == 'J' {
        if mode == 0 {
            seq![Action::ClearScreen(ScreenClearMode::Below)]
        } else if mode == 1 {
            seq![Action::ClearScreen(ScreenClearMode::Above)]
        } else if mode == 2 {
            seq![Action::ClearScreen(ScreenClearMode::All)]
        } else if mode == 3 {
            seq![Action::ClearScreen(ScreenClearMode::Saved)]
        } else {
            Seq::empty()
        }
    } else if action == 'K' {
        if mode == 0 {
            seq![Action::ClearLine(LineClearMode::Right)]
        } else if mode == 1 {
            seq![Action::ClearLine(LineClearMode::Left)]
        } else if mode == 2 {
            seq![Action::ClearLine(LineClearMode::All)]
        } else {
            Seq::empty()
        }
    } else if action == 'g' {
        if mode == 0 {
            seq![Action::ClearTabs(TabulationClearMode::Current)]
        } else if mode == 3 {
            seq![Action::ClearTabs(TabulationClearMode::All)]
        } else {
            Seq::empty()
        }
    } else if action == 'm' {
        if params.len() == 0 {
            seq![Action::TerminalAttribute(Attr::Reset)]
        } else {
            sgr_attrs(params, 0).map_values(|a: Attr| Action::TerminalAttribute(a))
        }
    } else if action == 'n' {
        seq![Action::DeviceStatus(mode as usize)]
    } else if action == 'r' {
        seq![
            Action::SetScrollingRegion(
                param_or(params, 0, 1) as usize,
                if param_or(params, 1, 0) != 0 {
                    Some(param_or(params, 1, 0) as usize)
                } else {
                    None
                },
            ),
        ]
    } else if action == 's' {
        seq![Action::SaveCursorPosition]
    } else if action == 'u' {
        seq![Action::RestoreCursorPosition]
    } else if action == 't' {
        let op = param_or(params, 0, 1);
        if op == 14 {
            seq![Action::TextAreaSizePixels]
        } else if op == 18 {
            seq![Action::TextAreaSizeChars]
        } else if op == 22 {
            seq![Action::PushTitle]
        } else if op == 23 {
            seq![Action::PopTitle]
        } else {
            Seq::empty()
        }
    } else {
        Seq::empty()
    }
}

/// The calls of a control sequence with the one intermediate byte `mark`,
/// apart from mode changes and device attributes.
pub open spec fn marked_calls(action: char, mark: u8, params: Seq<Seq<u16>>) -> Seq<Action> {
    if action == 'q' && mark == 0x20 {
        match cursor_style_call(param_or(params, 0, 0)) {
            Some(call) => seq![call],
            None => Seq::empty(),
        }
    } else if action == 'u' && mark == 0x3f {
        seq![Action::ReportKeyboardMode]
    } else if action == 'u' && mark == 0x3e {
        seq![Action::PushKeyboardMode((param_or(params, 0, 0) % 256) as u8)]
    } else if action == 'u' && mark == 0x3c {
        seq![Action::PopKeyboardModes(param_or(params, 0, 1))]
    } else {
        Seq::empty()
    }
}

/// The calls that the control sequence `CSI params intermediates action`
/// stands for. A sequence that the parser flagged (`ignore`) or that has more
/// than one intermediate byte stands for none.
pub open spec fn csi_calls(
    params: Seq<Seq<u16>>,
    intermediates: Seq<u8>,
    ignore: bool,
    action: char,
) -> Seq<Action> {
    let mark = if intermediates.len() == 1 {
        Some(intermediates[0])
    } else {
        None
    };
    if ignore || intermediates.len() > 1 {
        Seq::empty()
    } else if action == 'h' {
        mode_calls(params, 0, mark, true)
    } else if action == 'l' {
        mode_calls(params, 0, mark, false)
    } else if action == 'c' {
        if param_or(params, 0, 0) == 0 {
            seq![
                Action::IdentifyTerminal(
                    match mark {
                        Some(b) => Some(b as char),
                        None => None,
                    },
                ),
            ]
        } else {
            Seq::empty()
        }
    } else {
        match mark {
            Some(b) => marked_calls(action, b, params),
            None => match counted_call(action, params) {
                Some(call) => seq![call],
                None => plain_calls(action, params),
            },
        }
    }
}

/// The slot that the intermediate bytes of a charset designation name:
/// `(`, `)`, `*` and `+` name G0 to G3.
pub open spec fn designated_slot(intermediates: Seq<u8>) -> Option<CharsetIndex> {
    if intermediates.len() != 1 {
        None
    } else if intermediates[0] == 0x28 {
        Some(CharsetIndex::G0)
    } else if intermediates[0] == 0x29 {
        Some(CharsetIndex::G1)
    } else if intermediates[0] == 0x2a {
        Some(CharsetIndex::G2)
    } else if intermediates[0] == 0x2b {
        Some(CharsetIndex::G3)
    } else {
        None
    }
}

/// The calls that the escape sequence `ESC intermediates byte` stands for.
pub open spec fn esc_calls(intermediates: Seq<u8>, byte: u8) -> Seq<Action> {
    if byte == 0x42 || byte == 0x30 {
        match designated_slot(intermediates) {
            Some(slot) => seq![
                Action::ConfigureCharset(
                    slot,
                    if byte == 0x42 {
                        StandardCharset::Ascii
                    } else {
                        StandardCharset::SpecialCharacterAndLineDrawing
                    },
                ),
            ],
            None => Seq::empty(),
        }
    } else if intermediates.len() == 1 && intermediates[0] == 0x23 && byte == 0x38 {
        seq![Action::Decaln]
    } else if intermediates.len() != 0 {
        Seq::empty()
    } else if byte == 0x44 {
        seq![Action::Linefeed]
    } else if byte == 0x45 {
        seq![Action::Linefeed, Action::CarriageReturn]
    } else if byte == 0x48 {
        seq![Action::SetHorizontalTabstop]
    } else if byte == 0x4d {
        seq![Action::ReverseIndex]
    } else if byte == 0x5a {
        seq![Action::IdentifyTerminal(None)]
    } else if byte == 0x63 {
        seq![Action::ResetState]
    } else if byte == 0x37 {
        seq![Action::SaveCursorPosition]
    } else if byte == 0x38 {
        seq![Action::RestoreCursorPosition]
    } else if byte == 0x3d {
        seq![Action::SetKeypadApplicationMode]
    } else if byte == 0x3e {
        seq![Action::UnsetKeypadApplicationMode]
    } else {
        Seq::empty()
    }
}

/// The bytes of `CursorShape=`.
pub open spec fn cursor_shape_key() -> Seq<u8> {
    seq![0x43u8, 0x75, 0x72, 0x73, 0x6f, 0x72, 0x53, 0x68, 0x61, 0x70, 0x65, 0x3d]
}

/// What an operating system command asks for the color with the given
/// index when it says `spec` of it: a color sets it, `?` asks for a report
/// of it, anything else asks for nothing.
pub open spec fn color_call(index: int, spec: Seq<u8>, bell_terminated: bool) -> Seq<Action> {
    match color_value(spec) {
        Some(color) => seq![Action::SetColor(index as usize, color.0, color.1, color.2)],
        None => if spec == seq![0x3fu8] {
            seq![Action::DynamicColorSequence(index as usize, bell_terminated)]
        } else {
            Seq::empty()
        },
    }
}

/// The calls of command 4 for the fields from `from` on, which come in
/// pairs of an index and what is said of the color with that index. A pair
/// whose index is no decimal number up to 255 asks for nothing.
pub open spec fn indexed_color_calls(params: Seq<Seq<u8>>, from: int, bell_terminated: bool) -> Seq<
    Action,
>
    decreases params.len() - from,
{
    if from < 0 || from + 1 >= params.len() {
        Seq::empty()
    } else {
        (match decimal_index(params[from]) {
            Some(index) => color_call(index as int, params[from + 1], bell_terminated),
            None => Seq::empty(),
        }) + indexed_color_calls(params, from + 2, bell_terminated)
    }
}

/// The calls of commands 10, 11 and 12 for the fields from `from` on: the
/// first speaks of the color with the given index and each further one of
/// the next color, up to the cursor color with index 258.
pub open spec fn named_color_calls(
    params: Seq<Seq<u8>>,
    from: int,
    index: int,
    bell_terminated: bool,
) -> Seq<Action>
    decreases params.len() - from,
{
    if from < 0 || from >= params.len() || index > 258 {
        Seq::empty()
    } else {
        color_call(index, params[from], bell_terminated) + named_color_calls(
            params,
            from + 1,
            index + 1,
            bell_terminated,
        )
    }
}

/// The calls of command 104 for the fields from `from` on, each the index
/// of a color to reset. A field that is no decimal number up to 255 asks for
/// nothing.
pub open spec fn reset_color_calls(params: Seq<Seq<u8>>, from: int) -> Seq<Action>
    decreases params.len() - from,
{
    if from < 0 || from >= params.len() {
        Seq::empty()
    } else {
        (match decimal_index(params[from]) {
            Some(index) => seq![Action::ResetColor(index as usize)],
            None => Seq::empty(),
        }) + reset_color_calls(params, from + 1)
    }
}

/// The calls of the commands that speak of colors: 4 sets or asks for
/// palette entries, 10 to 12 the foreground, the background and the cursor
/// color, 104 resets palette entries (all of them without a field), and 110
/// to 112 reset the foreground, the background and the cursor color.
pub open spec fn color_calls(params: Seq<Seq<u8>>, bell_terminated: bool) -> Seq<Action> {
    let command = params[0];
    if command == seq![0x34u8] {
        if params.len() <= 1 || params.len() % 2 == 0 {
            Seq::empty()
        } else {
            indexed_color_calls(params, 1, bell_terminated)
        }
    } else if command == seq![0x31u8, 0x30u8] {
        named_color_calls(params, 1, 256, bell_terminated)
    } else if command == seq![0x31u8, 0x31u8] {
        named_color_calls(params, 1, 257, bell_terminated)
    } else if command == seq![0x31u8, 0x32u8] {
        named_color_calls(params, 1, 258, bell_terminated)
    } else if command == seq![0x31u8, 0x30u8, 0x34u8] {
        if params.len() == 1 || params[1].len() == 0 {
            Seq::new(256, |i: int| Action::ResetColor(i as usize))
        } else {
            reset_color_calls(params, 1)
        }
    } else if command == seq![0x31u8, 0x31u8, 0x30u8] {
        seq![Action::ResetColor(256)]
    } else if command == seq![0x31u8, 0x31u8, 0x31u8] {
        seq![Action::ResetColor(257)]
    } else if command == seq![0x31u8, 0x31u8, 0x32u8] {
        seq![Action::ResetColor(258)]
    } else {
        Seq::empty()
    }
}

/// The calls that an operating system command stands for. Command 0 and 2
/// set the title, where one follows; 50 with `CursorShape=0`, `1` or `2` sets a block, beam or
/// underline cursor; 52 stores to the clipboard, or loads from it where the
/// payload is `?`; 4, 10 to 12, 104 and 110 to 112 speak of colors. Every
/// other command stands for no call.
pub open spec fn osc_calls(params: Seq<Seq<u8>>, bell_terminated: bool) -> Seq<Action> {
    if params.len() == 0 || params[0].len() == 0 {
        Seq::empty()
    } else if params[0] == seq![0x30u8] || params[0] == seq![0x32u8] {
        if params.len() >= 2 {
            seq![Action::SetTitle]
        } else {
            Seq::empty()
        }
    } else if params[0] == seq![0x35u8, 0x30u8] {
        if params.len() >= 2 && params[1].len() >= 13 && params[1].subrange(0, 12)
            == cursor_shape_key() {
            if params[1][12] == 0x30 {
                seq![Action::SetCursorShape(CursorShape::Block)]
            } else if params[1][12] == 0x31 {
                seq![Action::SetCursorShape(CursorShape::Beam)]
            } else if params[1][12] == 0x32 {
                seq![Action::SetCursorShape(CursorShape::Underline)]
            } else {
                Seq::empty()
            }
        } else {
            Seq::empty()
        }
    } else if params[0] == seq![0x35u8, 0x32u8] {
        if params.len() < 3 {
            Seq::empty()
        } else {
            let selector = if params[1].len() > 0 {
                params[1][0]
            } else {
                0x63u8
            };
            if params[2] == seq![0x3fu8] {
                seq![Action::ClipboardLoad(selector, bell_terminated)]
            } else {
                seq![Action::ClipboardStore(selector)]
            }
        }
    } else {
        color_calls(params, bell_terminated)
    }
}

/// Parameter `i`, or `default` where it is missing or zero.
pub fn extract_param(params: &Vec<Vec<u16>>, i: usize, default: u16) -> (r: u16)
    ensures
        r == param_or(rows(params@), i as int, default),
        default != 0 ==> r != 0,
{
    if i < params.len() {
        let p = &params[i];
        assert(rows(params@)[i as int] == p@);
        if p.len() > 0 && p[0] != 0 {
            return p[0];
        }
    }
    default
}

/// The call that a C0 control byte stands for, if any.
pub fn execute(byte: u8) -> (r: Option<Action>)
    ensures
        r == execute_call(byte),
{
    if byte == 0x08 {
        Some(Action::Backspace)
    } else if byte == 0x09 {
        Some(Action::PutTab(1))
    } else if byte == 0x0a || byte == 0x0b || byte == 0x0c {
        Some(Action::Linefeed)
    } else if byte == 0x0d {
        Some(Action::CarriageReturn)
    } else if byte == 0x07 {
        Some(Action::Bell)
    } else if byte == 0x1a {
        Some(Action::Substitute)
    } else if byte == 0x0f {
        Some(Action::SetActiveCharset(CharsetIndex::G0))
    } else if byte == 0x0e {
        Some(Action::SetActiveCharset(CharsetIndex::G1))
    } else {
        None
    }
}

fn mode_changes(params: &Vec<Vec<u16>>, mark: Option<u8>, set: bool) -> (r: Vec<Action>)
    ensures
        r@ == mode_calls(rows(params@), 0, mark, set),
{
    let ghost all = rows(params@);
    let mut out: Vec<Action> = Vec::new();
    let mut i: usize = 0;
    while i < params.len()
        invariant
            i <= params.len(),
            all == rows(params@),
            out@ + mode_calls(all, i as int, mark, set) == mode_calls(all, 0, mark, set),
        decreases params.len() - i,
    {
        let p = &params[i];
        assert(all[i as int] == p@);
        let num: u16 = if p.len() > 0 {
            p[0]
        } else {
            0
        };
        let found = match mark {
            Some(b) => Mode::from_primitive(Some(&b), num),
            None => Mode::from_primitive(None, num),
        };
        let ghost before = out@;
        match found {
            Some(mode) => {
                let private = mode.code() != 4 && mode.code() != 20;
                assert(private == mode.is_private());
                let call = if private {
                    if set {
                        Action::SetPrivateMode(mode)
                    } else {
                        Action::UnsetPrivateMode(mode)
                    }
                } else {
                    if set {
                        Action::SetMode(mode)
                    } else {
                        Action::UnsetMode(mode)
                    }
                };
                out.push(call);
            },
            None => {},
        }
        assert(out@ + mode_calls(all, i + 1, mark, set) =~= before + mode_calls(
            all,
            i as int,
            mark,
            set,
        ));
        i += 1;
    }
    assert(mode_calls(all, i as int, mark, set) =~= Seq::<Action>::empty());
    assert(out@ =~= out@ + Seq::<Action>::empty());
    out
}

fn one(call: Action) -> (r: Vec<Action>)
    ensures
        r@ == seq![call],
{
    let mut out: Vec<Action> = Vec::new();
    out.push(call);
    assert(out@ =~= seq![call]);
    out
}

fn none() -> (r: Vec<Action>)
    ensures
        r@ == Seq::<Action>::empty(),
{
    Vec::new()
}

fn counted(action: char, params: &Vec<Vec<u16>>) -> (r: Option<Action>)
    ensures
        r == counted_call(action, rows(params@)),
{
    let count = extract_param(params, 0, 1);
    let n = count as usize;
    if action == '@' {
        Some(Action::InsertBlank(n))
    } else if action == 'A' {
        Some(Action::MoveUp(n))
    } else if action == 'B' || action == 'e' {
        Some(Action::MoveDown(n))
    } else if action == 'C' || action == 'a' {
        Some(Action::MoveForward(n))
    } else if action == 'D' {
        Some(Action::MoveBackward(n))
    } else if action == 'E' {
        Some(Action::MoveDownAndCr(n))
    } else if action == 'F' {
        Some(Action::MoveUpAndCr(n))
    } else if action == 'G' || action == '`' {
        Some(Action::GotoCol(n - 1))
    } else if action == 'd' {
        Some(Action::GotoLine(n - 1))
    } else if action == 'I' {
        Some(Action::MoveForwardTabs(count))
    } else if action == 'Z' {
        Some(Action::MoveBackwardTabs(count))
    } else if action == 'L' {
        Some(Action::InsertBlankLines(n))
    } else if action == 'M' {
        Some(Action::DeleteLines(n))
    } else if action == 'P' {
        Some(Action::DeleteChars(n))
    } else if action == 'X' {
        Some(Action::EraseChars(n))
    } else if action == 'S' {
        Some(Action::ScrollUp(n))
    } else if action == 'T' {
        Some(Action::ScrollDown(n))
    } else {
        None
    }
}

fn pen_changes(params: &Vec<Vec<u16>>) -> (r: Vec<Action>)
    ensures
        r@ == sgr_attrs(rows(params@), 0).map_values(|a: Attr| Action::TerminalAttribute(a)),
{
    let attrs = attrs_from_sgr_parameters(params);
    let mut out: Vec<Action> = Vec::new();
    let mut i: usize = 0;
    while i < attrs.len()
        invariant
            i <= attrs.len(),
            out@.len() == i,
            forall|j: int| 0 <= j < i ==> #[trigger] out@[j] == Action::TerminalAttribute(attrs@[j]),
        decreases attrs.len() - i,
    {
        out.push(Action::TerminalAttribute(attrs[i]));
        i += 1;
    }
    assert(out@ =~= attrs@.map_values(|a: Attr| Action::TerminalAttribute(a)));
    out
}

fn plain(action: char, params: &Vec<Vec<u16>>) -> (r: Vec<Action>)
    ensures
        r@ == plain_calls(action, rows(params@)),
{
    let mode = extract_param(params, 0, 0);
    if action == 'H' || action == 'f' {
        let y = extract_param(params, 0, 1);
        let x = extract_param(params, 1, 1);
        one(Action::Goto((y - 1) as usize, (x - 1) as usize))
    } else if action == 'J' {
        if mode == 0 {
            one(Action::ClearScreen(ScreenClearMode::Below))
        } else if mode == 1 {
            one(Action::ClearScreen(ScreenClearMode::Above))
        } else if mode == 2 {
            one(Action::ClearScreen(ScreenClearMode::All))
        } else if mode == 3 {
            one(Action::ClearScreen(ScreenClearMode::Saved))
        } else {
            none()
        }
    } else if action == 'K' {
        if mode == 0 {
            one(Action::ClearLine(LineClearMode::Right))
        } else if mode == 1 {
            one(Action::ClearLine(LineClearMode::Left))
        } else if mode == 2 {
            one(Action::ClearLine(LineClearMode::All))
        } else {
            none()
        }
    } else if action == 'g' {
        if mode == 0 {
            one(Action::ClearTabs(TabulationClearMode::Current))
        } else if mode == 3 {
            one(Action::ClearTabs(TabulationClearMode::All))
        } else {
            none()
        }
    } else if action == 'm' {
        if params.len() == 0 {
            one(Action::TerminalAttribute(Attr::Reset))
        } else {
            pen_changes(params)
        }
    } else if action == 'n' {
        one(Action::DeviceStatus(mode as usize))
    } else if action == 'r' {
        let top = extract_param(params, 0, 1);
        let bottom = extract_param(params, 1, 0);
        one(
            Action::SetScrollingRegion(
                top as usize,
                if bottom != 0 {
                    Some(bottom as usize)
                } else {
                    None
                },
            ),
        )
    } else if action == 's' {
        one(Action::SaveCursorPosition)
    } else if action == 'u' {
        one(Action::RestoreCursorPosition)
    } else if action == 't' {
        let op = extract_param(params, 0, 1);
        if op == 14 {
            one(Action::TextAreaSizePixels)
        } else if op == 18 {
            one(Action::TextAreaSizeChars)
        } else if op == 22 {
            one(Action::PushTitle)
        } else if op == 23 {
            one(Action::PopTitle)
        } else {
            none()
        }
    } else {
        none()
    }
}

fn cursor_style(id: u16) -> (r: Option<Action>)
    ensures
        r == cursor_style_call(id),
{
    if id == 0 {
        Some(Action::SetCursorStyle(None))
    } else if id <= 6 {
        let shape = if id <= 2 {
            CursorShape::Block
        } else if id <= 4 {
            CursorShape::Underline
        } else {
            CursorShape::Beam
        };
        Some(Action::SetCursorStyle(Some(CursorStyle { shape, blinking: id % 2 == 1 })))
    } else {
        None
    }
}

fn marked(action: char, mark: u8, params: &Vec<Vec<u16>>) -> (r: Vec<Action>)
    ensures
        r@ == marked_calls(action, mark, rows(params@)),
{
    if action == 'q' && mark == 0x20 {
        match cursor_style(extract_param(params, 0, 0)) {
            Some(call) => one(call),
            None => none(),
        }
    } else if action == 'u' && mark == 0x3f {
        one(Action::ReportKeyboardMode)
    } else if action == 'u' && mark == 0x3e {
        one(Action::PushKeyboardMode((extract_param(params, 0, 0) % 256) as u8))
    } else if action == 'u' && mark == 0x3c {
        one(Action::PopKeyboardModes(extract_param(params, 0, 1)))
    } else {
        none()
    }
}

/// The handler calls that the control sequence `CSI params intermediates
/// action` stands for, in order.
pub fn csi_dispatch(
    params: &Vec<Vec<u16>>,
    intermediates: &Vec<u8>,
    ignore: bool,
    action: char,
) -> (r: Vec<Action>)
    ensures
        r@ == csi_calls(rows(params@), intermediates@, ignore, action),
{
    if ignore || intermediates.len() > 1 {
        return none();
    }
    let mark: Option<u8> = if intermediates.len() == 1 {
        Some(intermediates[0])
    } else {
        None
    };
    if action == 'h' {
        mode_changes(params, mark, true)
    } else if action == 'l' {
        mode_changes(params, mark, false)
    } else if action == 'c' {
        if extract_param(params, 0, 0) == 0 {
            one(
                Action::IdentifyTerminal(
                    match mark {
                        Some(b) => Some(b as char),
                        None => None,
                    },
                ),
            )
        } else {
            none()
        }
    } else {
        match mark {
            Some(b) => marked(action, b, params),
            None => match counted(action, params) {
                Some(call) => one(call),
                None => plain(action, params),
            },
        }
    }
}

fn slot_of(intermediates: &Vec<u8>) -> (r: Option<CharsetIndex>)
    ensures
        r == designated_slot(intermediates@),
{
    if intermediates.len() != 1 {
        None
    } else if intermediates[0] == 0x28 {
        Some(CharsetIndex::G0)
    } else if intermediates[0] == 0x29 {
        Some(CharsetIndex::G1)
    } else if intermediates[0] == 0x2a {
        Some(CharsetIndex::G2)
    } else if intermediates[0] == 0x2b {
        Some(CharsetIndex::G3)
    } else {
        None
    }
}

/// The handler calls that the escape sequence `ESC intermediates byte`
/// stands for, in order.
pub fn esc_dispatch(intermediates: &Vec<u8>, ignore: bool, byte: u8) -> (r: Vec<Action>)
    ensures
        r@ == esc_calls(intermediates@, byte),
{
    if byte == 0x42 || byte == 0x30 {
        match slot_of(intermediates) {
            Some(slot) => one(
                Action::ConfigureCharset(
                    slot,
                    if byte == 0x42 {
                        StandardCharset::Ascii
                    } else {
                        StandardCharset::SpecialCharacterAndLineDrawing
                    },
                ),
            ),
            None => none(),
        }
    } else if intermediates.len() == 1 && intermediates[0] == 0x23 && byte == 0x38 {
        one(Action::Decaln)
    } else if intermediates.len() != 0 {
        none()
    } else if byte == 0x44 {
        one(Action::Linefeed)
    } else if byte == 0x45 {
        let mut out = one(Action::Linefeed);
        out.push(Action::CarriageReturn);
        assert(out@ =~= seq![Action::Linefeed, Action::CarriageReturn]);
        out
    } else if byte == 0x48 {
        one(Action::SetHorizontalTabstop)
    } else if byte == 0x4d {
        one(Action::ReverseIndex)
    } else if byte == 0x5a {
        one(Action::IdentifyTerminal(None))
    } else if byte == 0x63 {
        one(Action::ResetState)
    } else if byte == 0x37 {
        one(Action::SaveCursorPosition)
    } else if byte == 0x38 {
        one(Action::RestoreCursorPosition)
    } else if byte == 0x3d {
        one(Action::SetKeypadApplicationMode)
    } else if byte == 0x3e {
        one(Action::UnsetKeypadApplicationMode)
    } else {
        none()
    }
}

fn is_byte(field: &Vec<u8>, byte: u8) -> (r: bool)
    ensures
        r == (field@ == seq![byte]),
{
    if field.len() == 1 && field[0] == byte {
        assert(field@ =~= seq![byte]);
        true
    } else {
        assert(field@.len() != 1 || field@[0] != byte);
        assert(seq![byte].len() == 1 && seq![byte][0] == byte);
        false
    }
}

fn is_pair(field: &Vec<u8>, first: u8, second: u8) -> (r: bool)
    ensures
        r == (field@ == seq![first, second]),
{
    if field.len() == 2 && field[0] == first && field[1] == second {
        assert(field@ =~= seq![first, second]);
        true
    } else {
        let ghost want = seq![first, second];
        assert(want.len() == 2 && want[0] == first && want[1] == second);
        false
    }
}

fn names_cursor_shape(field: &Vec<u8>) -> (r: bool)
    requires
        field.len() >= 13,
    ensures
        r == (field@.subrange(0, 12) == cursor_shape_key()),
{
    let ghost key = cursor_shape_key();
    let ghost front = field@.subrange(0, 12);
    assert(key.len() == 12 && key[0] == 0x43 && key[1] == 0x75 && key[2] == 0x72 && key[3] == 0x73
        && key[4] == 0x6f && key[5] == 0x72 && key[6] == 0x53 && key[7] == 0x68 && key[8] == 0x61
        && key[9] == 0x70 && key[10] == 0x65 && key[11] == 0x3d);
    assert(front.len() == 12 && front[0] == field@[0] && front[1] == field@[1] && front[2]
        == field@[2] && front[3] == field@[3] && front[4] == field@[4] && front[5] == field@[5]
        && front[6] == field@[6] && front[7] == field@[7] && front[8] == field@[8] && front[9]
        == field@[9] && front[10] == field@[10] && front[11] == field@[11]);
    let same = field[0] == 0x43 && field[1] == 0x75 && field[2] == 0x72 && field[3] == 0x73
        && field[4] == 0x6f && field[5] == 0x72 && field[6] == 0x53 && field[7] == 0x68
        && field[8] == 0x61 && field[9] == 0x70 && field[10] == 0x65 && field[11] == 0x3d;
    if same {
        assert(front =~= key);
    }
    same
}

fn is_triple(field: &Vec<u8>, first: u8, second: u8, third: u8) -> (r: bool)
    ensures
        r == (field@ == seq![first, second, third]),
{
    if field.len() == 3 && field[0] == first && field[1] == second && field[2] == third {
        assert(field@ =~= seq![first, second, third]);
        true
    } else {
        let ghost want = seq![first, second, third];
        assert(want.len() == 3 && want[0] == first && want[1] == second && want[2] == third);
        false
    }
}

fn color_request(index: usize, spec: &Vec<u8>, bell_terminated: bool) -> (r: Vec<Action>)
    ensures
        r@ == color_call(index as int, spec@, bell_terminated),
{
    match xparse_color(spec.as_slice()) {
        Some(color) => one(Action::SetColor(index, color.0, color.1, color.2)),
        None => if is_byte(spec, 0x3f) {
            one(Action::DynamicColorSequence(index, bell_terminated))
        } else {
            none()
        },
    }
}

/// Appends `more` to `out`.
fn append(out: &mut Vec<Action>, more: Vec<Action>)
    ensures
        final(out)@ == old(out)@ + more@,
{
    let mut i: usize = 0;
    assert(out@ =~= old(out)@ + more@.subrange(0, 0));
    while i < more.len()
        invariant
            i <= more.len(),
            out@ == old(out)@ + more@.subrange(0, i as int),
        decreases more.len() - i,
    {
        out.push(more[i]);
        assert(out@ =~= old(out)@ + more@.subrange(0, i + 1));
        i += 1;
    }
    assert(more@.subrange(0, i as int) =~= more@);
}

fn indexed_colors(params: &Vec<Vec<u8>>, bell_terminated: bool) -> (r: Vec<Action>)
    requires
        params.len() >= 1,
    ensures
        r@ == indexed_color_calls(fields(params@), 1, bell_terminated),
{
    let ghost all = fields(params@);
    let mut out: Vec<Action> = Vec::new();
    let mut i: usize = 1;
    assert(out@ + indexed_color_calls(all, 1, bell_terminated) =~= indexed_color_calls(
        all,
        1,
        bell_terminated,
    ));
    while i < params.len() && i + 1 < params.len()
        invariant
            1 <= i,
            all == fields(params@),
            out@ + indexed_color_calls(all, i as int, bell_terminated) == indexed_color_calls(
                all,
                1,
                bell_terminated,
            ),
        decreases params.len() - i,
    {
        let ghost before = out@;
        assert(all[i as int] == params@[i as int]@);
        assert(all[i + 1] == params@[i + 1]@);
        let calls = match parse_number(params[i].as_slice()) {
            Some(index) => color_request(index as usize, &params[i + 1], bell_terminated),
            None => none(),
        };
        append(&mut out, calls);
        assert(out@ + indexed_color_calls(all, i + 2, bell_terminated) =~= before
            + indexed_color_calls(all, i as int, bell_terminated));
        i += 2;
    }
    assert(indexed_color_calls(all, i as int, bell_terminated) =~= Seq::<Action>::empty());
    assert(out@ =~= out@ + Seq::<Action>::empty());
    out
}

fn named_colors(params: &Vec<Vec<u8>>, first: usize, bell_terminated: bool) -> (r: Vec<Action>)
    requires
        256 <= first <= 258,
    ensures
        r@ == named_color_calls(fields(params@), 1, first as int, bell_terminated),
{
    let ghost all = fields(params@);
    let mut out: Vec<Action> = Vec::new();
    let mut i: usize = 1;
    let mut index: usize = first;
    assert(out@ + named_color_calls(all, 1, first as int, bell_terminated) =~= named_color_calls(
        all,
        1,
        first as int,
        bell_terminated,
    ));
    while i < params.len() && index <= 258
        invariant
            1 <= i,
            256 <= index <= 259,
            all == fields(params@),
            out@ + named_color_calls(all, i as int, index as int, bell_terminated)
                == named_color_calls(all, 1, first as int, bell_terminated),
        decreases params.len() - i,
    {
        let ghost before = out@;
        assert(all[i as int] == params@[i as int]@);
        let calls = color_request(index, &params[i], bell_terminated);
        append(&mut out, calls);
        assert(out@ + named_color_calls(all, i + 1, index + 1, bell_terminated) =~= before
            + named_color_calls(all, i as int, index as int, bell_terminated));
        i += 1;
        index += 1;
    }
    assert(named_color_calls(all, i as int, index as int, bell_terminated) =~= Seq::<
        Action,
    >::empty());
    assert(out@ =~= out@ + Seq::<Action>::empty());
    out
}

fn reset_colors(params: &Vec<Vec<u8>>) -> (r: Vec<Action>)
    ensures
        r@ == reset_color_calls(fields(params@), 1),
{
    let ghost all = fields(params@);
    let mut out: Vec<Action> = Vec::new();
    let mut i: usize = 1;
    assert(out@ + reset_color_calls(all, 1) =~= reset_color_calls(all, 1));
    while i < params.len()
        invariant
            1 <= i,
            all == fields(params@),
            out@ + reset_color_calls(all, i as int) == reset_color_calls(all, 1),
        decreases params.len() - i,
    {
        let ghost before = out@;
        assert(all[i as int] == params@[i as int]@);
        match parse_number(params[i].as_slice()) {
            Some(index) => {
                out.push(Action::ResetColor(index as usize));
            },
            None => {},
        }
        assert(out@ + reset_color_calls(all, i + 1) =~= before + reset_color_calls(all, i as int));
        i += 1;
    }
    assert(reset_color_calls(all, i as int) =~= Seq::<Action>::empty());
    assert(out@ =~= out@ + Seq::<Action>::empty());
    out
}

fn reset_palette() -> (r: Vec<Action>)
    ensures
        r@ == Seq::new(256, |i: int| Action::ResetColor(i as usize)),
{
    let mut out: Vec<Action> = Vec::new();
    let mut i: usize = 0;
    while i < 256
        invariant
            i <= 256,
            out@.len() == i,
            forall|k: int| 0 <= k < i ==> #[trigger] out@[k] == Action::ResetColor(k as usize),
        decreases 256 - i,
    {
        out.push(Action::ResetColor(i));
        i += 1;
    }
    assert(out@ =~= Seq::new(256, |i: int| Action::ResetColor(i as usize)));
    out
}

fn colors(params: &Vec<Vec<u8>>, bell_terminated: bool) -> (r: Vec<Action>)
    requires
        params.len() >= 1,
    ensures
        r@ == color_calls(fields(params@), bell_terminated),
{
    let ghost all = fields(params@);
    let command = &params[0];
    assert(all[0] == command@);
    if is_byte(command, 0x34) {
        if params.len() <= 1 || params.len() % 2 == 0 {
            none()
        } else {
            indexed_colors(params, bell_terminated)
        }
    } else if is_pair(command, 0x31, 0x30) {
        named_colors(params, 256, bell_terminated)
    } else if is_pair(command, 0x31, 0x31) {
        named_colors(params, 257, bell_terminated)
    } else if is_pair(command, 0x31, 0x32) {
        named_colors(params, 258, bell_terminated)
    } else if is_triple(command, 0x31, 0x30, 0x34) {
        if params.len() == 1 || params[1].len() == 0 {
            assert(params.len() > 1 ==> all[1] == params@[1]@);
            reset_palette()
        } else {
            assert(all[1] == params@[1]@);
            reset_colors(params)
        }
    } else if is_triple(command, 0x31, 0x31, 0x30) {
        one(Action::ResetColor(256))
    } else if is_triple(command, 0x31, 0x31, 0x31) {
        one(Action::ResetColor(257))
    } else if is_triple(command, 0x31, 0x31, 0x32) {
        one(Action::ResetColor(258))
    } else {
        none()
    }
}

/// The handler calls that an operating system command stands for.
pub fn osc_dispatch(params: &Vec<Vec<u8>>, bell_terminated: bool) -> (r: Vec<Action>)
    ensures
        r@ == osc_calls(fields(params@), bell_terminated),
{
    let ghost all = fields(params@);
    if params.len() == 0 || params[0].len() == 0 {
        assert(params.len() > 0 ==> all[0] == params@[0]@);
        return none();
    }
    let command = &params[0];
    assert(all[0] == command@);
    if is_byte(command, 0x30) || is_byte(command, 0x32) {
        if params.len() >= 2 {
            one(Action::SetTitle)
        } else {
            none()
        }
    } else if is_pair(command, 0x35, 0x30) {
        if params.len() >= 2 && params[1].len() >= 13 {
            let field = &params[1];
            assert(all[1] == field@);
            if names_cursor_shape(field) {
                let shape = field[12];
                if shape == 0x30 {
                    one(Action::SetCursorShape(CursorShape::Block))
                } else if shape == 0x31 {
                    one(Action::SetCursorShape(CursorShape::Beam))
                } else if shape == 0x32 {
                    one(Action::SetCursorShape(CursorShape::Underline))
                } else {
                    none()
                }
            } else {
                none()
            }
        } else {
            assert(params.len() >= 2 ==> all[1] == params@[1]@);
            none()
        }
    } else if is_pair(command, 0x35, 0x32) {
        if params.len() < 3 {
            none()
        } else {
            let field = &params[1];
            let payload = &params[2];
            assert(all[1] == field@);
            assert(all[2] == payload@);
            let selector: u8 = if field.len() > 0 {
                field[0]
            } else {
                0x63
            };
            if is_byte(payload, 0x3f) {
                one(Action::ClipboardLoad(selector, bell_terminated))
            } else {
                one(Action::ClipboardStore(selector))
            }
        }
    } else {
        colors(params, bell_terminated)
    }
}

} // verus!
