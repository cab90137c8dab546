//! The handler interface, and the performer that makes the calls of decoded
//! control sequences on a handler.

use vstd::prelude::*;
use crate::ansi::{
    Action, Attr, CharsetIndex, CursorShape, CursorStyle, LineClearMode, Mode, ScreenClearMode,
    StandardCharset, TabulationClearMode,
};
use crate::parser::Dispatch;

verus! {

/// What a terminal does on each of the calls that control sequences stand
/// for. Every method has a body that does nothing, so that a handler says
/// only what it cares for.
pub trait Handler {
    /// The handler's invariant; every call keeps it. A handler that has
    /// none need not say so.
    open spec fn valid(&self) -> bool {
        true
    }

    fn input(&mut self, content: char)
        requires
            old(self).valid(),
        ensures
            final(self).valid(),
    {
    }

    fn goto(&mut self, row: usize, col: usize)
        requires
            old(self).valid(),
        ensures
            final(self).valid(),
    {
    }

    fn goto_line(&mut self, row: usize)
        requires
            old(self).valid(),
        ensures
            final(self).valid(),
    {
    }

    fn goto_col(&mut self, col: usize)
        requires
            old(self).valid(),
        ensures
            final(self).valid(),
    {
    }

    fn move_up(&mut self, rows: usize)
        requires
            old(self).valid(),
        ensures
            final(self).valid(),
    {
    }

    fn move_down(&mut self, rows: usize)
        requires
            old(self).valid(),
        ensures
            final(self).valid(),
    {
    }

    fn move_forward(&mut self, cols: usize)
        requires
            old(self).valid(),
        ensures
            final(self).valid(),
    {
    }

    fn move_backward(&mut self, cols: usize)
        requires
            old(self).valid(),
        ensures
            final(self).valid(),
    {
    }

    fn move_down_and_cr(&mut self, rows: usize)
        requires
            old(self).valid(),
        ensures
            final(self).valid(),
    {
    }

    fn move_up_and_cr(&mut self, rows: usize)
        requires
            old(self).valid(),
        ensures
            final(self).valid(),
    {
    }

    fn put_tab(&mut self, count: u16)
        requires
            old(self).valid(),
        ensures
            final(self).valid(),
    {
    }

    fn backspace(&mut self)
        requires
            old(self).valid(),
        ensures
            final(self).valid(),
    {
    }

    fn carriage_return(&mut self)
        requires
            old(self).valid(),
        ensures
            final(self).valid(),
    {
    }

    fn linefeed(&mut self)
        requires
            old(self).valid(),
        ensures
            final(self).valid(),
    {
    }

    fn newline(&mut self)
        requires
            old(self).valid(),
        ensures
            final(self).valid(),
    {
    }

    fn move_forward_tabs(&mut self, count: u16)
        requires
            old(self).valid(),
        ensures
            final(self).valid(),
    {
    }

    fn move_backward_tabs(&mut self, count: u16)
        requires
            old(self).valid(),
        ensures
            final(self).valid(),
    {
    }

    fn save_cursor_position(&mut self)
        requires
            old(self).valid(),
        ensures
            final(self).valid(),
    {
    }

    fn restore_cursor_position(&mut self)
        requires
            old(self).valid(),
        ensures
            final(self).valid(),
    {
    }

    fn reverse_index(&mut self)
        requires
            old(self).valid(),
        ensures
            final(self).valid(),
    {
    }

    fn insert_blank(&mut self, count: usize)
        requires
            old(self).valid(),
        ensures
            final(self).valid(),
    {
    }

    fn insert_blank_lines(&mut self, count: usize)
        requires
            old(self).valid(),
        ensures
            final(self).valid(),
    {
    }

    fn delete_lines(&mut self, count: usize)
        requires
            old(self).valid(),
        ensures
            final(self).valid(),
    {
    }

    fn erase_chars(&mut self, count: usize)
        requires
            old(self).valid(),
        ensures
            final(self).valid(),
    {
    }

    fn delete_chars(&mut self, count: usize)
        requires
            old(self).valid(),
        ensures
            final(self).valid(),
    {
    }

    fn scroll_up(&mut self, count: usize)
        requires
            old(self).valid(),
        ensures
            final(self).valid(),
    {
    }

    fn scroll_down(&mut self, count: usize)
        requires
            old(self).valid(),
        ensures
            final(self).valid(),
    {
    }

    fn clear_line(&mut self, mode: LineClearMode)
        requires
            old(self).valid(),
        ensures
            final(self).valid(),
    {
    }

    fn clear_screen(&mut self, mode: ScreenClearMode)
        requires
            old(self).valid(),
        ensures
            final(self).valid(),
    {
    }

    fn clear_tabs(&mut self, mode: TabulationClearMode)
        requires
            old(self).valid(),
        ensures
            final(self).valid(),
    {
    }

    fn terminal_attribute(&mut self, attr: Attr)
        requires
            old(self).valid(),
        ensures
            final(self).valid(),
    {
    }

    fn set_mode(&mut self, mode: Mode)
        requires
            old(self).valid(),
        ensures
            final(self).valid(),
    {
    }

    fn unset_mode(&mut self, mode: Mode)
        requires
            old(self).valid(),
        ensures
            final(self).valid(),
    {
    }

    fn set_private_mode(&mut self, mode: Mode)
        requires
            old(self).valid(),
        ensures
            final(self).valid(),
    {
    }

    fn unset_private_mode(&mut self, mode: Mode)
        requires
            old(self).valid(),
        ensures
            final(self).valid(),
    {
    }

    fn set_scrolling_region(&mut self, top: usize, bottom: Option<usize>)
        requires
            old(self).valid(),
        ensures
            final(self).valid(),
    {
    }

    fn set_keypad_application_mode(&mut self)
        requires
            old(self).valid(),
        ensures
            final(self).valid(),
    {
    }

    fn unset_keypad_application_mode(&mut self)
        requires
            old(self).valid(),
        ensures
            final(self).valid(),
    {
    }

    fn set_cursor_shape(&mut self, shape: CursorShape)
        requires
            old(self).valid(),
        ensures
            final(self).valid(),
    {
    }

    fn set_cursor_style(&mut self, style: Option<CursorStyle>)
        requires
            old(self).valid(),
        ensures
            final(self).valid(),
    {
    }

    fn set_active_charset(&mut self, index: CharsetIndex)
        requires
            old(self).valid(),
        ensures
            final(self).valid(),
    {
    }

    fn configure_charset(&mut self, index: CharsetIndex, charset: StandardCharset)
        requires
            old(self).valid(),
        ensures
            final(self).valid(),
    {
    }

    fn identify_terminal(&mut self, intermediate: Option<char>)
        requires
            old(self).valid(),
        ensures
            final(self).valid(),
    {
    }

    fn device_status(&mut self, arg: usize)
        requires
            old(self).valid(),
        ensures
            final(self).valid(),
    {
    }

    fn report_keyboard_mode(&mut self)
        requires
            old(self).valid(),
        ensures
            final(self).valid(),
    {
    }

    fn push_keyboard_mode(&mut self, mode: u8)
        requires
            old(self).valid(),
        ensures
            final(self).valid(),
    {
    }

    fn pop_keyboard_modes(&mut self, to_pop: u16)
        requires
            old(self).valid(),
        ensures
            final(self).valid(),
    {
    }

    fn bell(&mut self)
        requires
            old(self).valid(),
        ensures
            final(self).valid(),
    {
    }

    fn substitute(&mut self)
        requires
            old(self).valid(),
        ensures
            final(self).valid(),
    {
    }

    fn set_horizontal_tabstop(&mut self)
        requires
            old(self).valid(),
        ensures
            final(self).valid(),
    {
    }

    fn decaln(&mut self)
        requires
            old(self).valid(),
        ensures
            final(self).valid(),
    {
    }

    fn reset_state(&mut self)
        requires
            old(self).valid(),
        ensures
            final(self).valid(),
    {
    }

    fn set_title(&mut self)
        requires
            old(self).valid(),
        ensures
            final(self).valid(),
    {
    }

    fn push_title(&mut self)
        requires
            old(self).valid(),
        ensures
            final(self).valid(),
    {
    }

    fn pop_title(&mut self)
        requires
            old(self).valid(),
        ensures
            final(self).valid(),
    {
    }

    fn text_area_size_pixels(&mut self)
        requires
            old(self).valid(),
        ensures
            final(self).valid(),
    {
    }

    fn text_area_size_chars(&mut self)
        requires
            old(self).valid(),
        ensures
            final(self).valid(),
    {
    }

    /// Give the color with this index this value; indices below 256 are
    /// palette entries, 256 to 258 the foreground, the background and the
    /// cursor.
    fn set_color(&mut self, index: usize, color: crate::color::Rgb)
        requires
            old(self).valid(),
        ensures
            final(self).valid(),
    {
    }

    /// Give the color with this index its first value back.
    fn reset_color(&mut self, index: usize)
        requires
            old(self).valid(),
        ensures
            final(self).valid(),
    {
    }

    /// Report the color with this index; `bell_terminated` says how the
    /// request ended and so how the report is to end.
    fn dynamic_color_sequence(&mut self, index: usize, bell_terminated: bool)
        requires
            old(self).valid(),
        ensures
            final(self).valid(),
    {
    }

    /// Store what the Base64 text `base64` encodes in the clipboard with
    /// the given selector.
    fn clipboard_store(&mut self, clipboard: u8, base64: &[u8])
        requires
            old(self).valid(),
        ensures
            final(self).valid(),
    {
    }

    /// Report the clipboard with the given selector; `bell_terminated`
    /// says how the request ended and so how the report is to end.
    fn clipboard_load(&mut self, clipboard: u8, bell_terminated: bool)
        requires
            old(self).valid(),
        ensures
            final(self).valid(),
    {
    }
}

/// Makes the call `action` on `handler`; `payload` is what a clipboard
/// store carries.
pub fn perform<H: Handler>(handler: &mut H, action: Action, payload: &[u8])
    requires
        old(handler).valid(),
    ensures
        final(handler).valid(),
{
    match action {
        Action::Input(c) => handler.input(c),
        Action::Goto(row, col) => handler.goto(row, col),
        Action::GotoLine(row) => handler.goto_line(row),
        Action::GotoCol(col) => handler.goto_col(col),
        Action::MoveUp(n) => handler.move_up(n),
        Action::MoveDown(n) => handler.move_down(n),
        Action::MoveForward(n) => handler.move_forward(n),
        Action::MoveBackward(n) => handler.move_backward(n),
        Action::MoveUpAndCr(n) => handler.move_up_and_cr(n),
        Action::MoveDownAndCr(n) => handler.move_down_and_cr(n),
        Action::CarriageReturn => handler.carriage_return(),
        Action::Linefeed => handler.linefeed(),
        Action::Newline => handler.newline(),
        Action::Backspace => handler.backspace(),
        Action::PutTab(n) => handler.put_tab(n),
        Action::MoveForwardTabs(n) => handler.move_forward_tabs(n),
        Action::MoveBackwardTabs(n) => handler.move_backward_tabs(n),
        Action::SaveCursorPosition => handler.save_cursor_position(),
        Action::RestoreCursorPosition => handler.restore_cursor_position(),
        Action::ReverseIndex => handler.reverse_index(),
        Action::InsertBlank(n) => handler.insert_blank(n),
        Action::InsertBlankLines(n) => handler.insert_blank_lines(n),
        Action::DeleteLines(n) => handler.delete_lines(n),
        Action::EraseChars(n) => handler.erase_chars(n),
        Action::DeleteChars(n) => handler.delete_chars(n),
        Action::ScrollUp(n) => handler.scroll_up(n),
        Action::ScrollDown(n) => handler.scroll_down(n),
        Action::ClearLine(mode) => handler.clear_line(mode),
        Action::ClearScreen(mode) => handler.clear_screen(mode),
        Action::ClearTabs(mode) => handler.clear_tabs(mode),
        Action::TerminalAttribute(attr) => handler.terminal_attribute(attr),
        Action::SetMode(mode) => handler.set_mode(mode),
        Action::UnsetMode(mode) => handler.unset_mode(mode),
        Action::SetPrivateMode(mode) => handler.set_private_mode(mode),
        Action::UnsetPrivateMode(mode) => handler.unset_private_mode(mode),
        Action::SetScrollingRegion(top, bottom) => handler.set_scrolling_region(top, bottom),
        Action::SetKeypadApplicationMode => handler.set_keypad_application_mode(),
        Action::UnsetKeypadApplicationMode => handler.unset_keypad_application_mode(),
        Action::SetCursorShape(shape) => handler.set_cursor_shape(shape),
        Action::SetCursorStyle(style) => handler.set_cursor_style(style),
        Action::SetActiveCharset(index) => handler.set_active_charset(index),
        Action::ConfigureCharset(index, charset) => handler.configure_charset(index, charset),
        Action::IdentifyTerminal(intermediate) => handler.identify_terminal(intermediate),
        Action::DeviceStatus(arg) => handler.device_status(arg),
        Action::ReportKeyboardMode => handler.report_keyboard_mode(),
        Action::PushKeyboardMode(mode) => handler.push_keyboard_mode(mode),
        Action::PopKeyboardModes(n) => handler.pop_keyboard_modes(n),
        Action::Bell => handler.bell(),
        Action::Substitute => handler.substitute(),
        Action::SetHorizontalTabstop => handler.set_horizontal_tabstop(),
        Action::Decaln => handler.decaln(),
        Action::ResetState => handler.reset_state(),
        Action::SetTitle => handler.set_title(),
        Action::PushTitle => handler.push_title(),
        Action::PopTitle => handler.pop_title(),
        Action::TextAreaSizePixels => handler.text_area_size_pixels(),
        Action::TextAreaSizeChars => handler.text_area_size_chars(),
        Action::SetColor(index, r, g, b) => handler.set_color(index, (r, g, b)),
        Action::ResetColor(index) => handler.reset_color(index),
        Action::DynamicColorSequence(index, bell_terminated) => handler.dynamic_color_sequence(
            index,
            bell_terminated,
        ),
        Action::ClipboardStore(clipboard) => handler.clipboard_store(clipboard, payload),
        Action::ClipboardLoad(clipboard, bell_terminated) => handler.clipboard_load(
            clipboard,
            bell_terminated,
        ),
    }
}

/// Turns what the byte-level parser dispatches into calls on a handler.
pub struct Performer<'a, H: Handler> {
    handler: &'a mut H,
}

impl<'a, H: Handler> Performer<'a, H> {
    /// The handler's invariant holds.
    pub closed spec fn valid(&self) -> bool {
        self.handler.valid()
    }

    pub fn new(handler: &'a mut H) -> (r: Self)
        requires
            old(handler).valid(),
        ensures
            r.valid(),
    {
        Performer { handler }
    }

    /// Makes the calls that `dispatch` stands for on the handler, in order.
    pub fn advance(&mut self, dispatch: &Dispatch)
        requires
            old(self).valid(),
        ensures
            final(self).valid(),
    {
        let actions = dispatch.decode();
        let payload = dispatch.clipboard_payload();
        let mut i: usize = 0;
        while i < actions.len()
            invariant
                i <= actions.len(),
                self.valid(),
            decreases actions.len() - i,
        {
            perform(self.handler, actions[i], payload.as_slice());
            i += 1;
        }
    }
}

} // verus!
