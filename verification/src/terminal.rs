//! The terminal: the screen, the painter and the host's collaborators
//! behind one interface. Bytes from the program go in through `process`,
//! key presses and mouse input through `handle_keyboard` and
//! `handle_mouse`; pixels come out on the display, and text for the program
//! goes to the host's writer.

use vstd::prelude::*;
use vstd::utf8::encode_utf8;
use crate::ansi::{
    Action, Attr, CharsetIndex, CursorShape, CursorStyle, LineClearMode, Mode, Notice,
    ScreenClearMode, StandardCharset, TabulationClearMode,
};
use crate::buffer::{FlushAnswers, GridView, TerminalBuffer};
use crate::cell::Cell;
use crate::clipboard::{
    bracketed, clipboard_reply, clipboard_report, clipboard_text, pasted, stored_text,
    ClipboardHandler,
};
use crate::color::ColorScheme;
use crate::font::FontManager;
use crate::graphic::{block_pixels, DrawTarget, FontAnswer, Graphic, Pixel};
use crate::keyboard::{
    decoded, event_of, held, DecodedKey, KeyCode, KeyboardEvent, KeyboardEventView,
    KeyboardManager,
};
use crate::mouse::{MouseEvent, MouseInput, MouseManager};
use crate::palette::Palette;
use crate::parser::{dispatched, last_drawn, resolved_all, Dispatch, Interpreter};
use crate::performer::Handler;
use crate::screen::{Screen, ScreenView, TerminalMode};
use crate::text::{repeat, repeated};

verus! {

/// Where text for the program on the other side goes.
pub trait PtyWriter: Send {
    fn write(&mut self, data: &str);
}

/// What the host does when the bell rings.
pub trait BellHandler: Send {
    fn ring(&mut self);
}

/// Where the terminal reports what it has nothing to do for.
pub trait Logger: Send {
    fn log(&mut self, notice: Notice);
}

/// The timer for synchronized output: there is none, so no timeout is ever
/// pending.
#[derive(Default)]
pub struct DummySyncHandler;

impl vte::ansi::Timeout for DummySyncHandler {
    fn set_timeout(&mut self, duration: core::time::Duration)
        ensures
            *final(self) == *old(self),
    {
    }

    fn clear_timeout(&mut self)
        ensures
            *final(self) == *old(self),
    {
    }

    fn pending_timeout(&self) -> (r: bool)
        ensures
            !r,
    {
        false
    }
}

/// The pixels that a flush of `screen` paints if there is a flush (`flush`)
/// and a font (`has_font`), where `answers` holds what the font answered for
/// each cell of each row.
pub open spec fn flush_painting(
    screen: ScreenView,
    scheme: ColorScheme,
    has_font: bool,
    flush: bool,
    answers: Seq<Seq<FontAnswer>>,
) -> Seq<Pixel> {
    if flush && has_font {
        screen.grid.repainting(false, scheme, screen.grid.height, answers)
    } else {
        Seq::empty()
    }
}

/// The pixels that dealing with a keyboard event paints: a scroll key
/// flushes the screen at its new viewport position if the terminal flushes
/// by itself, a palette key paints everything anew under the new scheme, and
/// no other key paints.
pub open spec fn key_painting(
    screen: ScreenView,
    event: KeyboardEventView,
    scheme: ColorScheme,
    new_scheme: ColorScheme,
    has_font: bool,
    flush: bool,
    answers: FlushAnswers,
) -> Seq<Pixel> {
    match event {
        KeyboardEventView::Scroll { up, page } => flush_painting(
            screen.scrolled_back(screen.key_scroll(up, page)),
            scheme,
            has_font,
            flush,
            answers.cells,
        ),
        KeyboardEventView::SetColorScheme(index) => screen.grid.full_repainting(
            new_scheme,
            has_font,
            answers,
        ),
        _ => Seq::empty(),
    }
}

/// The pixels that the wheel paints when it turns by `lines`: on the
/// primary screen the screen is flushed at its new viewport position if the
/// terminal flushes by itself; on the alternate screen nothing is painted.
pub open spec fn wheel_painting(
    screen: ScreenView,
    lines: int,
    scheme: ColorScheme,
    has_font: bool,
    flush: bool,
    answers: Seq<Seq<FontAnswer>>,
) -> Seq<Pixel> {
    if screen.has_mode(TerminalMode::ALT_SCREEN) {
        Seq::empty()
    } else {
        flush_painting(screen.scrolled_back(lines), scheme, has_font, flush, answers)
    }
}

/// One thing that the terminal asks of its host. A request for a
/// collaborator that is not installed goes nowhere.
pub enum HostCall {
    /// Send the text to the program on the other side.
    Write(Seq<char>),
    /// Ring the bell.
    Ring,
    /// Put the text into the clipboard.
    Store(Seq<char>),
    /// Tell the logger.
    Log(Notice),
}

/// Whether the terminal acts on the mode when it is set or reset as a
/// private mode.
pub open spec fn private_mode_handled(mode: Mode) -> bool {
    match mode {
        Mode::SwapScreenAndSetRestoreCursor => true,
        Mode::ShowCursor | Mode::CursorKeys | Mode::LineWrap | Mode::BracketedPaste => true,
        _ => false,
    }
}

/// Whether the terminal acts on the mode when it is set or reset as a
/// public mode.
pub open spec fn mode_handled(mode: Mode) -> bool {
    match mode {
        Mode::Insert | Mode::LineFeedNewLine => true,
        _ => false,
    }
}

/// Whether the terminal has nothing to do for the call: window titles, tab
/// stops, the screen alignment test, reports of the text area's size,
/// keyboard modes, colors set by the program, the substitute character, and
/// modes that it does not act on.
pub open spec fn unhandled(action: Action) -> bool {
    match action {
        Action::SetPrivateMode(mode) => !private_mode_handled(mode),
        Action::UnsetPrivateMode(mode) => !private_mode_handled(mode),
        Action::SetMode(mode) => !mode_handled(mode),
        Action::UnsetMode(mode) => !mode_handled(mode),
        Action::SetTitle | Action::PushTitle | Action::PopTitle => true,
        Action::ClearTabs(mode) => true,
        Action::SetHorizontalTabstop | Action::Substitute | Action::Decaln => true,
        Action::TextAreaSizePixels | Action::TextAreaSizeChars => true,
        Action::PushKeyboardMode(mode) => true,
        Action::PopKeyboardModes(count) => true,
        Action::SetColor(index, r, g, b) => true,
        Action::ResetColor(index) => true,
        Action::DynamicColorSequence(index, bell_terminated) => true,
        _ => false,
    }
}

fn is_private_mode_handled(mode: Mode) -> (r: bool)
    ensures
        r == private_mode_handled(mode),
{
    match mode {
        Mode::SwapScreenAndSetRestoreCursor => true,
        Mode::ShowCursor | Mode::CursorKeys | Mode::LineWrap | Mode::BracketedPaste => true,
        _ => false,
    }
}

fn is_mode_handled(mode: Mode) -> (r: bool)
    ensures
        r == mode_handled(mode),
{
    match mode {
        Mode::Insert | Mode::LineFeedNewLine => true,
        _ => false,
    }
}

/// Whether the terminal has nothing to do for the call.
pub fn is_unhandled(action: Action) -> (r: bool)
    ensures
        r == unhandled(action),
{
    match action {
        Action::SetPrivateMode(mode) => !is_private_mode_handled(mode),
        Action::UnsetPrivateMode(mode) => !is_private_mode_handled(mode),
        Action::SetMode(mode) => !is_mode_handled(mode),
        Action::UnsetMode(mode) => !is_mode_handled(mode),
        Action::SetTitle | Action::PushTitle | Action::PopTitle => true,
        Action::ClearTabs(mode) => true,
        Action::SetHorizontalTabstop | Action::Substitute | Action::Decaln => true,
        Action::TextAreaSizePixels | Action::TextAreaSizeChars => true,
        Action::PushKeyboardMode(mode) => true,
        Action::PopKeyboardModes(count) => true,
        Action::SetColor(index, r, g, b) => true,
        Action::ResetColor(index) => true,
        Action::DynamicColorSequence(index, bell_terminated) => true,
        _ => false,
    }
}

/// What the logger is told of a call: that it is unhandled, if it is.
pub open spec fn unhandled_asks(action: Action) -> Seq<HostCall> {
    if unhandled(action) {
        seq![HostCall::Log(Notice::Unhandled(action))]
    } else {
        Seq::empty()
    }
}

/// What the logger is told of an item: how it is named, if it is a control
/// byte or sequence that stands for no call.
pub open spec fn unknown_asks(dispatch: Dispatch) -> Seq<HostCall> {
    match dispatch.unknown() {
        Some(notice) => seq![HostCall::Log(notice)],
        None => Seq::empty(),
    }
}

/// The request to send `reply`, if there is one.
pub open spec fn answer_calls(reply: Option<Seq<char>>) -> Seq<HostCall> {
    match reply {
        Some(text) => seq![HostCall::Write(text)],
        None => Seq::empty(),
    }
}

/// What a clipboard load asks of the host when the clipboard holds `held`:
/// to send the report of the text, unless there is none or it is too long
/// to be encoded.
pub open spec fn load_asks(clipboard: u8, held: Option<Seq<char>>, bell_terminated: bool) -> Seq<
    HostCall,
> {
    match held {
        Some(text) => if encode_utf8(text).len() <= usize::MAX / 4 {
            seq![HostCall::Write(clipboard_report(clipboard, encode_utf8(text), bell_terminated))]
        } else {
            Seq::empty()
        },
        None => Seq::empty(),
    }
}

/// What a paste asks of the host when the clipboard holds `held`: to send
/// the text, between the marks of a bracketed paste if `marks` is set.
pub open spec fn paste_asks(held: Option<Seq<char>>, marks: bool) -> Seq<HostCall> {
    match held {
        Some(text) => seq![
            HostCall::Write(
                if marks {
                    bracketed(text)
                } else {
                    text
                },
            ),
        ],
        None => Seq::empty(),
    }
}

/// What the wheel asks of the host on the alternate screen when it turned
/// by `lines` and Control and Shift are held as given: to send as many
/// arrow keys as lines, up for a positive number; nothing where the arrow
/// key stands for a command of the terminal.
pub open spec fn wheel_asks(
    lines: int,
    ctrl: bool,
    shift: bool,
    app_cursor_mode: bool,
    crnl_mapping: bool,
) -> Seq<HostCall> {
    let code = if lines > 0 {
        KeyCode::ARROW_UP
    } else {
        KeyCode::ARROW_DOWN
    };
    match event_of(DecodedKey::RawKey(code), ctrl, shift, app_cursor_mode, crnl_mapping) {
        KeyboardEventView::AnsiString(text) => seq![
            HostCall::Write(
                repeated(
                    text,
                    (if lines >= 0 {
                        lines
                    } else {
                        -lines
                    }) as nat,
                ),
            ),
        ],
        _ => Seq::empty(),
    }
}

/// Whether one of the calls is a clipboard load.
pub open spec fn loads_clipboard(actions: Seq<Action>) -> bool {
    exists|i: int| 0 <= i < actions.len() && (#[trigger] actions[i]) is ClipboardLoad
}

/// Whether one of the items stands for a clipboard load.
pub open spec fn any_loads(dispatches: Seq<Dispatch>) -> bool {
    exists|i: int| 0 <= i < dispatches.len() && loads_clipboard((#[trigger] dispatches[i]).calls())
}

impl ScreenView {
    /// What a handler call asks of the host: the bell rings, a clipboard
    /// store puts the text that `payload` carries into the clipboard, and
    /// any other call sends what the screen answers to it and tells the
    /// logger if the terminal has nothing to do for it. What a clipboard
    /// load asks depends on what the clipboard holds and is not counted
    /// here.
    pub open spec fn asks(self, action: Action, payload: Seq<u8>) -> Seq<HostCall> {
        match action {
            Action::Bell => seq![HostCall::Ring],
            Action::ClipboardStore(selector) => match stored_text(payload) {
                Some(text) => seq![HostCall::Store(text)],
                None => Seq::empty(),
            },
            Action::ClipboardLoad(selector, bell_terminated) => Seq::empty(),
            _ => answer_calls(self.reply_to(action)) + unhandled_asks(action),
        }
    }

    /// What an item asks of the host: what its calls ask, in order, and
    /// then what the logger is told of it.
    pub open spec fn dispatch_asks(self, dispatch: Dispatch) -> Seq<HostCall> {
        self.asks_all(dispatch.calls(), dispatch.payload()) + unknown_asks(dispatch)
    }

    /// What the calls of `actions` ask of the host, in order.
    pub open spec fn asks_all(self, actions: Seq<Action>, payload: Seq<u8>) -> Seq<HostCall>
        decreases actions.len(),
    {
        if actions.len() == 0 {
            Seq::empty()
        } else {
            self.asks_all(actions.drop_last(), payload) + self.apply_all(actions.drop_last()).asks(
                actions.last(),
                payload,
            )
        }
    }

    /// What the items of `dispatches` ask of the host, in order.
    pub open spec fn run_asks(self, dispatches: Seq<Dispatch>) -> Seq<HostCall>
        decreases dispatches.len(),
    {
        if dispatches.len() == 0 {
            Seq::empty()
        } else {
            self.run_asks(dispatches.drop_last()) + self.run(
                dispatches.drop_last(),
            ).dispatch_asks(dispatches.last())
        }
    }

    /// The screen after the calls that the items of `dispatches` stand for,
    /// in order.
    pub open spec fn run(self, dispatches: Seq<Dispatch>) -> ScreenView
        decreases dispatches.len(),
    {
        if dispatches.len() == 0 {
            self
        } else {
            self.run(dispatches.drop_last()).apply_all(dispatches.last().calls())
        }
    }

    /// The screen with the cursor drawn if the cursor shows.
    pub open spec fn cursor_shown(self) -> ScreenView {
        if self.has_mode(TerminalMode::SHOW_CURSOR) {
            self.cursor_drawn(true)
        } else {
            self
        }
    }

    /// The screen after a flush if `flush` is set, else as it is.
    pub open spec fn flushed_if(self, flush: bool) -> ScreenView {
        if flush {
            self.on(TerminalBuffer::flushed(self.grid))
        } else {
            self
        }
    }

    /// The screen after the items of `dispatches` were processed: the
    /// cursor is taken off the grid, the calls are made, the cursor is drawn
    /// again where it now is, and then the screen is flushed if asked for.
    pub open spec fn processed(self, dispatches: Seq<Dispatch>, flush: bool) -> ScreenView {
        self.cursor_drawn(false).run(dispatches).cursor_shown().flushed_if(flush)
    }

    /// The screen with the viewport at the latest rows.
    pub open spec fn at_latest(self) -> ScreenView {
        self.on(GridView { start_row: self.grid.rows.len() - self.grid.height, ..self.grid })
    }

    /// The screen with the viewport moved up by `count` rows.
    pub open spec fn scrolled_back(self, count: int) -> ScreenView {
        self.on(GridView { start_row: self.grid.history_position(count), ..self.grid })
    }

    /// The number of rows by which a scroll key moves the viewport up: a
    /// line or a page, counted downward for the key that says up.
    pub open spec fn key_scroll(self, up: bool, page: bool) -> int {
        let lines = if page {
            if self.grid.height > isize::MAX {
                isize::MAX as int
            } else {
                self.grid.height
            }
        } else {
            1
        };
        if up {
            -lines
        } else {
            lines
        }
    }

    /// The screen after the terminal has dealt with a keyboard event:
    /// text for the program brings the viewport to the latest rows, a scroll
    /// key moves the viewport, a new color scheme resets the pen and flushes
    /// everything; scrolling flushes too if `flush` is set.
    pub open spec fn after_key(self, event: KeyboardEventView, flush: bool) -> ScreenView {
        match event {
            KeyboardEventView::AnsiString(text) => self.at_latest(),
            KeyboardEventView::Scroll { up, page } => self.scrolled_back(
                self.key_scroll(up, page),
            ).flushed_if(flush),
            KeyboardEventView::SetColorScheme(index) => (ScreenView {
                template: Cell::blank(),
                ..self
            }).flushed_if(true),
            _ => self,
        }
    }
}

pub struct TerminalInner<D: DrawTarget> {
    graphic: Graphic<D>,
    screen: Screen,
    keyboard: KeyboardManager,
    mouse: MouseManager,
    auto_flush: bool,
    pty_writer: Option<Box<dyn PtyWriter>>,
    bell_handler: Option<Box<dyn BellHandler>>,
    clipboard: Option<Box<dyn ClipboardHandler>>,
    logger: Option<Box<dyn Logger>>,
    asked: Ghost<Seq<HostCall>>,
}

impl<D: DrawTarget> View for TerminalInner<D> {
    type V = ScreenView;

    closed spec fn view(&self) -> ScreenView {
        self.screen@
    }
}

impl<D: DrawTarget> TerminalInner<D> {
    /// The invariant: those of the screen and of the painter.
    pub closed spec fn wf(&self) -> bool {
        self.screen.wf() && self.graphic.wf()
    }

    /// A terminal that keeps its invariant shows a screen that keeps the
    /// screen's invariant.
    pub proof fn lemma_screen_wf(&self)
        requires
            self.wf(),
        ensures
            self@.wf(),
    {
    }

    /// Whether the terminal flushes after every `process`.
    pub closed spec fn auto_flush(&self) -> bool {
        self.auto_flush
    }

    /// The color scheme in use.
    pub closed spec fn scheme(&self) -> ColorScheme {
        self.graphic.scheme()
    }

    /// Whether a font is installed.
    pub closed spec fn has_font(&self) -> bool {
        self.graphic.has_font()
    }

    /// How many lines one line of the mouse wheel scrolls.
    pub closed spec fn scroll_speed(&self) -> usize {
        self.mouse.scroll_speed()
    }

    /// Whether a line feed from the keyboard is passed on as it is.
    pub closed spec fn keyboard_crnl(&self) -> bool {
        self.keyboard.crnl_mapping()
    }

    /// Everything that the terminal has asked of its host so far, in order.
    pub closed spec fn asked(&self) -> Seq<HostCall> {
        self.asked@
    }

    /// The painter.
    pub closed spec fn painter(&self) -> &Graphic<D> {
        &self.graphic
    }

    /// Every pixel that the terminal has handed to the display so far, in
    /// order.
    pub closed spec fn painted(&self) -> Seq<Pixel> {
        self.graphic.painted()
    }

    /// Whether the arrow keys send their application sequences.
    pub closed spec fn keyboard_app_cursor(&self) -> bool {
        self.keyboard.app_cursor_mode()
    }

    /// The scancodes that the keyboard has sent so far, in order.
    pub closed spec fn scancodes(&self) -> Seq<u8> {
        self.keyboard.seen()
    }

    /// Whether the host has given the terminal a writer.
    pub closed spec fn has_writer(&self) -> bool {
        self.pty_writer is Some
    }

    /// Whether the host has given the terminal a bell.
    pub closed spec fn has_bell(&self) -> bool {
        self.bell_handler is Some
    }

    /// Whether the host has given the terminal a clipboard.
    pub closed spec fn has_clipboard(&self) -> bool {
        self.clipboard is Some
    }

    /// Whether the host has given the terminal a logger.
    pub closed spec fn has_logger(&self) -> bool {
        self.logger is Some
    }

    /// How many pairs of colors the painter keeps tables for at most.
    pub closed spec fn color_cache_size(&self) -> usize {
        self.graphic.cache_size()
    }

    /// Whether `self` and `other` have the same of the host's writer, bell,
    /// clipboard and logger installed, and keep as many color tables.
    pub open spec fn same_host(&self, other: &Self) -> bool {
        &&& self.has_writer() == other.has_writer()
        &&& self.has_bell() == other.has_bell()
        &&& self.has_clipboard() == other.has_clipboard()
        &&& self.has_logger() == other.has_logger()
        &&& self.color_cache_size() == other.color_cache_size()
    }

    /// Whether nothing but the screen differs between `self` and `other`.
    pub closed spec fn same_settings(&self, other: &Self) -> bool {
        &&& self.same_host(other)
        &&& self.auto_flush == other.auto_flush
        &&& self.graphic.scheme() == other.graphic.scheme()
        &&& self.graphic.has_font() == other.graphic.has_font()
        &&& self.mouse.scroll_speed() == other.mouse.scroll_speed()
        &&& self.keyboard.crnl_mapping() == other.keyboard.crnl_mapping()
        &&& self.keyboard.seen() == other.keyboard.seen()
    }

    /// The screen.
    pub fn screen(&self) -> (r: &Screen)
        ensures
            r@ == self@,
    {
        &self.screen
    }

    /// The painter.
    pub fn graphic(&self) -> (r: &Graphic<D>)
        ensures
            r == self.painter(),
    {
        &self.graphic
    }

    /// Hands `data` to the host's writer, if there is one.
    pub fn pty_write(&mut self, data: &str)
        requires
            old(self).wf(),
        ensures
            final(self).wf(),
            final(self)@ == old(self)@,
            final(self).same_settings(old(self)),
            final(self).keyboard_app_cursor() == old(self).keyboard_app_cursor(),
            final(self).asked() == old(self).asked().push(HostCall::Write(data@)),
            final(self).painted() == old(self).painted(),
    {
        match self.pty_writer.as_mut() {
            Some(writer) => writer.write(data),
            None => {},
        }
        self.asked = Ghost(self.asked@.push(HostCall::Write(data@)));
    }

    /// Rings the bell at the host's, if the host has one.
    fn ring(&mut self)
        requires
            old(self).wf(),
        ensures
            final(self).wf(),
            final(self)@ == old(self)@,
            final(self).same_settings(old(self)),
            final(self).keyboard_app_cursor() == old(self).keyboard_app_cursor(),
            final(self).asked() == old(self).asked().push(HostCall::Ring),
            final(self).painted() == old(self).painted(),
    {
        match self.bell_handler.as_mut() {
            Some(handler) => handler.ring(),
            None => {},
        }
        self.asked = Ghost(self.asked@.push(HostCall::Ring));
    }

    /// Puts `text` into the host's clipboard, if the host has one.
    fn store(&mut self, text: String)
        requires
            old(self).wf(),
        ensures
            final(self).wf(),
            final(self)@ == old(self)@,
            final(self).same_settings(old(self)),
            final(self).keyboard_app_cursor() == old(self).keyboard_app_cursor(),
            final(self).asked() == old(self).asked().push(HostCall::Store(text@)),
            final(self).painted() == old(self).painted(),
    {
        let ghost stored = text@;
        match self.clipboard.as_mut() {
            Some(clipboard) => clipboard.set_text(text),
            None => {},
        }
        self.asked = Ghost(self.asked@.push(HostCall::Store(stored)));
    }

    /// Tells the host's logger, if the host has one.
    fn log(&mut self, notice: Notice)
        requires
            old(self).wf(),
        ensures
            final(self).wf(),
            final(self)@ == old(self)@,
            final(self).same_settings(old(self)),
            final(self).keyboard_app_cursor() == old(self).keyboard_app_cursor(),
            final(self).asked() == old(self).asked().push(HostCall::Log(notice)),
            final(self).painted() == old(self).painted(),
    {
        match self.logger.as_mut() {
            Some(logger) => logger.log(notice),
            None => {},
        }
        self.asked = Ghost(self.asked@.push(HostCall::Log(notice)));
    }

    /// What the host's clipboard holds, if the host has one and it holds
    /// text.
    fn held_text(&mut self) -> (r: Option<String>)
        requires
            old(self).wf(),
        ensures
            final(self).wf(),
            final(self)@ == old(self)@,
            final(self).same_settings(old(self)),
            final(self).keyboard_app_cursor() == old(self).keyboard_app_cursor(),
            final(self).asked() == old(self).asked(),
            final(self).painted() == old(self).painted(),
            !old(self).has_clipboard() ==> r is None,
    {
        match self.clipboard.as_mut() {
            Some(clipboard) => clipboard.get_text(),
            None => None,
        }
    }

    /// Paints what changed since the last flush.
    pub fn flush(&mut self)
        requires
            old(self).wf(),
        ensures
            final(self).wf(),
            final(self)@ == old(self)@.flushed_if(true),
            final(self).same_settings(old(self)),
            final(self).keyboard_app_cursor() == old(self).keyboard_app_cursor(),
            final(self).asked() == old(self).asked(),
            exists|answers: Seq<Seq<FontAnswer>>|
                final(self).painted() == old(self).painted() + #[trigger] flush_painting(
                    old(self)@,
                    old(self).scheme(),
                    old(self).has_font(),
                    true,
                    answers,
                ),
    {
        self.flush_if(true);
    }

    /// Paints what changed since the last flush if `flush` is set.
    fn flush_if(&mut self, flush: bool)
        requires
            old(self).wf(),
        ensures
            final(self).wf(),
            final(self)@ == old(self)@.flushed_if(flush),
            final(self).same_settings(old(self)),
            final(self).keyboard_app_cursor() == old(self).keyboard_app_cursor(),
            final(self).asked() == old(self).asked(),
            exists|answers: Seq<Seq<FontAnswer>>|
                final(self).painted() == old(self).painted() + #[trigger] flush_painting(
                    old(self)@,
                    old(self).scheme(),
                    old(self).has_font(),
                    flush,
                    answers,
                ),
    {
        let ghost before = self.graphic.painted();
        let ghost view = self.screen@;
        let ghost scheme = self.graphic.scheme();
        let ghost has_font = self.graphic.has_font();
        if flush {
            self.screen.flush(&mut self.graphic);
        }
        proof {
            let answers = if flush && has_font {
                choose|answers: Seq<Seq<FontAnswer>>|
                    self.graphic.painted() == before + #[trigger] view.grid.repainting(
                        false,
                        scheme,
                        view.grid.height,
                        answers,
                    )
            } else {
                Seq::empty()
            };
            assert(self.graphic.painted() =~= before + flush_painting(
                view,
                scheme,
                has_font,
                flush,
                answers,
            ));
            assert(self.painted() == old(self).painted() + flush_painting(
                old(self)@,
                old(self).scheme(),
                old(self).has_font(),
                flush,
                answers,
            ));
        }
    }

    /// Moves the viewport up by `count` rows into the scrollback, or down
    /// for a negative count, and flushes if the terminal flushes by itself.
    pub fn scroll_history(&mut self, count: isize)
        requires
            old(self).wf(),
        ensures
            final(self).wf(),
            final(self)@ == old(self)@.scrolled_back(count as int).flushed_if(old(self).auto_flush()),
            final(self).same_settings(old(self)),
            final(self).keyboard_app_cursor() == old(self).keyboard_app_cursor(),
            final(self).asked() == old(self).asked(),
            exists|answers: Seq<Seq<FontAnswer>>|
                final(self).painted() == old(self).painted() + #[trigger] flush_painting(
                    old(self)@.scrolled_back(count as int),
                    old(self).scheme(),
                    old(self).has_font(),
                    old(self).auto_flush(),
                    answers,
                ),
    {
        self.screen.scroll_history(count);
        let ghost scrolled = self@;
        let flush = self.auto_flush;
        self.flush_if(flush);
        proof {
            let answers = choose|answers: Seq<Seq<FontAnswer>>|
                self.painted() == old(self).painted() + #[trigger] flush_painting(
                    scrolled,
                    old(self).scheme(),
                    old(self).has_font(),
                    flush,
                    answers,
                );
            assert(self.painted() == old(self).painted() + flush_painting(
                old(self)@.scrolled_back(count as int),
                old(self).scheme(),
                old(self).has_font(),
                old(self).auto_flush(),
                answers,
            ));
        }
    }

    /// Makes one handler call. The screen changes as the call says and its
    /// answer, if it has one, goes to the host's writer; a call that the
    /// terminal has nothing to do for goes to the host's logger. The bell rings at
    /// the host's; a clipboard store puts the text that `payload` carries
    /// into the host's clipboard; a clipboard load sends the report of what
    /// the host's clipboard holds.
    pub fn perform(&mut self, action: Action, payload: &[u8])
        requires
            old(self).wf(),
        ensures
            final(self).wf(),
            final(self)@ == old(self)@.apply(action),
            final(self).same_settings(old(self)),
            final(self).keyboard_app_cursor() == old(self).keyboard_app_cursor(),
            final(self).painted() == old(self).painted(),
            !(action is ClipboardLoad) ==> final(self).asked() == old(self).asked() + old(
                self,
            )@.asks(action, payload@),
            action matches Action::ClipboardLoad(selector, bell_terminated) ==> exists|
                held: Option<Seq<char>>,
            |
                final(self).asked() == old(self).asked() + #[trigger] load_asks(
                    selector,
                    held,
                    bell_terminated,
                ),
            action is ClipboardLoad && !old(self).has_clipboard() ==> final(self).asked() == old(
                self,
            ).asked(),
    {
        let ghost before = self.asked@;
        match action {
            Action::Bell => {
                self.ring();
                assert(self.asked@ =~= before + seq![HostCall::Ring]);
            },
            Action::ClipboardStore(selector) => {
                match clipboard_text(payload) {
                    Some(text) => {
                        self.store(text);
                        assert(self.asked@ =~= before + seq![HostCall::Store(text@)]);
                    },
                    None => {
                        assert(self.asked@ =~= before + Seq::<HostCall>::empty());
                    },
                }
            },
            Action::ClipboardLoad(selector, bell_terminated) => {
                let held = self.held_text();
                let ghost seen: Option<Seq<char>> = match &held {
                    Some(text) => Some(text@),
                    None => None,
                };
                match held {
                    Some(text) => match clipboard_reply(selector, text.as_str(), bell_terminated) {
                        Some(report) => {
                            self.pty_write(report.as_str());
                            assert(self.asked@ =~= before + seq![HostCall::Write(report@)]);
                        },
                        None => {
                            assert(self.asked@ =~= before + Seq::<HostCall>::empty());
                        },
                    },
                    None => {
                        assert(self.asked@ =~= before + Seq::<HostCall>::empty());
                    },
                }
                assert(self.asked() == old(self).asked() + load_asks(selector, seen, bell_terminated));
            },
            _ => {
                match self.screen.apply(action) {
                    Some(text) => {
                        self.pty_write(text.as_str());
                        assert(self.asked@ =~= before + seq![HostCall::Write(text@)]);
                    },
                    None => {
                        assert(self.asked@ =~= before + Seq::<HostCall>::empty());
                    },
                }
                let ghost answered = self.asked@;
                if is_unhandled(action) {
                    self.log(Notice::Unhandled(action));
                }
                assert(self.asked@ =~= answered + unhandled_asks(action));
                assert(self.asked@ =~= before + (answer_calls(old(self)@.reply_to(action))
                    + unhandled_asks(action)));
            },
        }
    }

    /// Makes the calls that `dispatch` stands for, in order, and tells the
    /// logger of a control byte or sequence that stands for none.
    pub fn dispatch(&mut self, dispatch: &Dispatch)
        requires
            old(self).wf(),
        ensures
            final(self).wf(),
            final(self)@ == old(self)@.apply_all(dispatch.calls()),
            final(self).same_settings(old(self)),
            final(self).keyboard_app_cursor() == old(self).keyboard_app_cursor(),
            final(self).painted() == old(self).painted(),
            !loads_clipboard(dispatch.calls()) ==> final(self).asked() == old(self).asked() + old(
                self,
            )@.dispatch_asks(*dispatch),
    {
        let actions = dispatch.decode();
        let payload = dispatch.clipboard_payload();
        let mut i: usize = 0;
        assert(self.asked@ =~= old(self).asked@ + Seq::<HostCall>::empty());
        while i < actions.len()
            invariant
                i <= actions.len(),
                self.wf(),
                self@ == old(self)@.apply_all(actions@.subrange(0, i as int)),
                self.same_settings(old(self)),
                self.keyboard_app_cursor() == old(self).keyboard_app_cursor(),
                self.painted() == old(self).painted(),
                !loads_clipboard(actions@.subrange(0, i as int)) ==> self.asked() == old(
                    self,
                ).asked() + old(self)@.asks_all(actions@.subrange(0, i as int), payload@),
            decreases actions.len() - i,
        {
            let ghost done = actions@.subrange(0, i as int);
            let ghost next = actions@.subrange(0, i + 1);
            let ghost held = self.asked@;
            assert(next.drop_last() =~= done);
            assert(next.last() == actions@[i as int]);
            self.perform(actions[i], payload.as_slice());
            proof {
                if !loads_clipboard(next) {
                    if loads_clipboard(done) {
                        let j = choose|j: int| 0 <= j < done.len() && (#[trigger] done[j]) is ClipboardLoad;
                        assert(next[j] == done[j]);
                    }
                    if next.last() is ClipboardLoad {
                        assert(next[i as int] is ClipboardLoad);
                    }
                    assert(self.asked@ =~= old(self).asked@ + old(self)@.asks_all(next, payload@));
                }
            }
            i += 1;
        }
        assert(actions@.subrange(0, i as int) =~= actions@);
        let ghost called = self.asked@;
        if actions.len() == 0 {
            match dispatch.kind() {
                Some(notice) => self.log(notice),
                None => {},
            }
        }
        assert(self.asked@ =~= called + unknown_asks(*dispatch));
        assert(!loads_clipboard(dispatch.calls()) ==> self.asked@ =~= old(self).asked@ + (old(
            self,
        )@.asks_all(dispatch.calls(), dispatch.payload()) + unknown_asks(*dispatch)));
    }

    /// Processes what the byte-level parser has dispatched: takes the cursor
    /// off the grid, makes the calls, draws the cursor again where it now
    /// is if the cursor shows, tells the keyboard whether the arrow keys are
    /// in application mode, and flushes if the terminal flushes by itself.
    pub fn process_dispatches(&mut self, dispatches: &Vec<Dispatch>)
        requires
            old(self).wf(),
        ensures
            final(self).wf(),
            final(self)@ == old(self)@.processed(dispatches@, old(self).auto_flush()),
            final(self).same_settings(old(self)),
            final(self).keyboard_app_cursor() == final(self)@.has_mode(TerminalMode::APP_CURSOR),
            !any_loads(dispatches@) ==> final(self).asked() == old(self).asked() + old(
                self,
            )@.cursor_drawn(false).run_asks(dispatches@),
            exists|answers: Seq<Seq<FontAnswer>>|
                final(self).painted() == old(self).painted() + #[trigger] flush_painting(
                    old(self)@.cursor_drawn(false).run(dispatches@).cursor_shown(),
                    old(self).scheme(),
                    old(self).has_font(),
                    old(self).auto_flush(),
                    answers,
                ),
    {
        self.screen.cursor_handler(false);
        let ghost start = self@;
        let mut i: usize = 0;
        assert(self.asked@ =~= old(self).asked@ + Seq::<HostCall>::empty());
        while i < dispatches.len()
            invariant
                i <= dispatches.len(),
                self.wf(),
                self@ == start.run(dispatches@.subrange(0, i as int)),
                self.same_settings(old(self)),
                self.painted() == old(self).painted(),
                !any_loads(dispatches@.subrange(0, i as int)) ==> self.asked() == old(self).asked()
                    + start.run_asks(dispatches@.subrange(0, i as int)),
            decreases dispatches.len() - i,
        {
            let ghost done = dispatches@.subrange(0, i as int);
            let ghost next = dispatches@.subrange(0, i + 1);
            assert(next.drop_last() =~= done);
            assert(next.last() == dispatches@[i as int]);
            self.dispatch(&dispatches[i]);
            proof {
                if !any_loads(next) {
                    if any_loads(done) {
                        let j = choose|j: int|
                            0 <= j < done.len() && loads_clipboard((#[trigger] done[j]).calls());
                        assert(next[j] == done[j]);
                    }
                    if loads_clipboard(next.last().calls()) {
                        assert(loads_clipboard(next[i as int].calls()));
                    }
                    assert(self.asked@ =~= old(self).asked@ + start.run_asks(next));
                }
            }
            i += 1;
        }
        assert(dispatches@.subrange(0, i as int) =~= dispatches@);
        if self.screen.mode().contains(TerminalMode::SHOW_CURSOR) {
            self.screen.cursor_handler(true);
        }
        let app_cursor = self.screen.mode().contains(TerminalMode::APP_CURSOR);
        self.keyboard.set_app_cursor_mode(app_cursor);
        let ghost shown = self@;
        let flush = self.auto_flush;
        self.flush_if(flush);
        proof {
            let answers = choose|answers: Seq<Seq<FontAnswer>>|
                self.painted() == old(self).painted() + #[trigger] flush_painting(
                    shown,
                    old(self).scheme(),
                    old(self).has_font(),
                    flush,
                    answers,
                );
            assert(self.painted() == old(self).painted() + flush_painting(
                old(self)@.cursor_drawn(false).run(dispatches@).cursor_shown(),
                old(self).scheme(),
                old(self).has_font(),
                old(self).auto_flush(),
                answers,
            ));
        }
    }

    /// Replaces the color scheme, resets the pen and paints everything
    /// anew.
    pub fn use_color_scheme(&mut self, scheme: ColorScheme)
        requires
            old(self).wf(),
        ensures
            final(self).wf(),
            final(self)@ == (ScreenView { template: Cell::blank(), ..old(self)@ }).flushed_if(true),
            final(self).scheme() == scheme,
            final(self).auto_flush() == old(self).auto_flush(),
            final(self).has_font() == old(self).has_font(),
            final(self).same_host(old(self)),
            final(self).scancodes() == old(self).scancodes(),
            final(self).scroll_speed() == old(self).scroll_speed(),
            final(self).keyboard_crnl() == old(self).keyboard_crnl(),
            final(self).keyboard_app_cursor() == old(self).keyboard_app_cursor(),
            final(self).asked() == old(self).asked(),
            exists|answers: FlushAnswers|
                final(self).painted() == old(self).painted() + #[trigger] old(
                    self,
                )@.grid.full_repainting(scheme, old(self).has_font(), answers),
    {
        self.graphic.set_color_scheme(scheme);
        self.screen.reset_template();
        let ghost before = self.graphic.painted();
        let ghost view = self.screen@;
        self.screen.full_flush(&mut self.graphic);
        proof {
            let answers = choose|answers: FlushAnswers|
                self.graphic.painted() == before + #[trigger] view.grid.full_repainting(
                    scheme,
                    old(self).has_font(),
                    answers,
                );
            assert(self.painted() == old(self).painted() + old(self)@.grid.full_repainting(
                scheme,
                old(self).has_font(),
                answers,
            ));
        }
    }

    /// Deals with what a key press asks for. Text for the program brings
    /// the viewport to the latest rows and goes to the host's writer; a
    /// scroll key moves the viewport by a line or a page; a palette key
    /// switches the color scheme; a paste sends what the host's clipboard
    /// holds, between the marks of a bracketed paste where the program asked
    /// for them.
    pub fn handle_key_event(&mut self, event: KeyboardEvent)
        requires
            old(self).wf(),
        ensures
            final(self).wf(),
            final(self)@ == old(self)@.after_key(event@, old(self).auto_flush()),
            event@ is AnsiString ==> final(self)@.grid.at_latest(),
            final(self).auto_flush() == old(self).auto_flush(),
            final(self).has_font() == old(self).has_font(),
            final(self).same_host(old(self)),
            final(self).scancodes() == old(self).scancodes(),
            final(self).scroll_speed() == old(self).scroll_speed(),
            final(self).keyboard_crnl() == old(self).keyboard_crnl(),
            final(self).keyboard_app_cursor() == old(self).keyboard_app_cursor(),
            !(event@ is SetColorScheme) ==> final(self).scheme() == old(self).scheme(),
            event@ matches KeyboardEventView::SetColorScheme(index) ==> final(self).scheme().is_preset(
                if index < crate::palette::PALETTE_COUNT {
                    index as int
                } else {
                    crate::palette::DEFAULT_PALETTE_INDEX as int
                },
            ),
            event@ matches KeyboardEventView::AnsiString(text) ==> final(self).asked() == old(
                self,
            ).asked().push(HostCall::Write(text)),
            event@ is Paste ==> exists|held: Option<Seq<char>>|
                final(self).asked() == old(self).asked() + #[trigger] paste_asks(
                    held,
                    old(self)@.has_mode(TerminalMode::BRACKETED_PASTE),
                ),
            event@ is Paste && !old(self).has_clipboard() ==> final(self).asked() == old(
                self,
            ).asked(),
            !(event@ is AnsiString) && !(event@ is Paste) ==> final(self).asked() == old(
                self,
            ).asked(),
            exists|answers: FlushAnswers|
                final(self).painted() == old(self).painted() + #[trigger] key_painting(
                    old(self)@,
                    event@,
                    old(self).scheme(),
                    final(self).scheme(),
                    old(self).has_font(),
                    old(self).auto_flush(),
                    answers,
                ),
    {
        let ghost mut seen = FlushAnswers { cells: Seq::empty(), display: (0, 0) };
        let ghost seen_event = event@;
        match event {
            KeyboardEvent::SetColorScheme(index) => {
                let scheme = ColorScheme::new(index);
                let ghost chosen = scheme;
                self.use_color_scheme(scheme);
                proof {
                    seen = choose|answers: FlushAnswers|
                        self.painted() == old(self).painted() + #[trigger] old(
                            self,
                        )@.grid.full_repainting(chosen, old(self).has_font(), answers);
                }
            },
            KeyboardEvent::Scroll { up, page } => {
                let rows = self.screen.rows();
                let lines: isize = if page {
                    if rows > isize::MAX as usize {
                        isize::MAX
                    } else {
                        rows as isize
                    }
                } else {
                    1
                };
                let count = if up {
                    -lines
                } else {
                    lines
                };
                self.scroll_history(count);
                proof {
                    let cells = choose|answers: Seq<Seq<FontAnswer>>|
                        self.painted() == old(self).painted() + #[trigger] flush_painting(
                            old(self)@.scrolled_back(count as int),
                            old(self).scheme(),
                            old(self).has_font(),
                            old(self).auto_flush(),
                            answers,
                        );
                    seen = FlushAnswers { cells, display: (0, 0) };
                }
            },
            KeyboardEvent::AnsiString(text) => {
                self.screen.ensure_latest();
                self.pty_write(text.as_str());
            },
            KeyboardEvent::Paste => {
                let held = self.held_text();
                let ghost held_text: Option<Seq<char>> = match &held {
                    Some(text) => Some(text@),
                    None => None,
                };
                let ghost before = self.asked@;
                let marks = self.screen.mode().contains(TerminalMode::BRACKETED_PASTE);
                match held {
                    Some(text) => {
                        let sent = pasted(text.as_str(), marks);
                        self.pty_write(sent.as_str());
                        assert(self.asked@ =~= before + seq![HostCall::Write(sent@)]);
                    },
                    None => {
                        assert(self.asked@ =~= before + Seq::<HostCall>::empty());
                    },
                }
                assert(self.asked() == old(self).asked() + paste_asks(
                    held_text,
                    old(self)@.has_mode(TerminalMode::BRACKETED_PASTE),
                ));
            },
            _ => {},
        }
        proof {
            let painting = key_painting(
                old(self)@,
                seen_event,
                old(self).scheme(),
                self.scheme(),
                old(self).has_font(),
                old(self).auto_flush(),
                seen,
            );
            assert(self.painted() =~= old(self).painted() + painting);
        }
    }

    /// Deals with what the mouse asks for. On the primary screen the wheel
    /// moves the viewport; on the alternate screen it sends the program as
    /// many arrow keys as the wheel turned lines.
    pub fn handle_mouse_event(&mut self, event: MouseEvent)
        requires
            old(self).wf(),
        ensures
            final(self).wf(),
            final(self).same_settings(old(self)),
            final(self).keyboard_app_cursor() == old(self).keyboard_app_cursor(),
            match event {
                MouseEvent::Scroll(lines) => if old(self)@.has_mode(TerminalMode::ALT_SCREEN) {
                    &&& final(self)@ == old(self)@
                    &&& final(self).asked() == old(self).asked() + wheel_asks(
                        lines as int,
                        held(old(self).scancodes()).0,
                        held(old(self).scancodes()).1,
                        old(self).keyboard_app_cursor(),
                        old(self).keyboard_crnl(),
                    )
                } else {
                    &&& final(self)@ == old(self)@.scrolled_back(lines as int).flushed_if(
                        old(self).auto_flush(),
                    )
                    &&& final(self).asked() == old(self).asked()
                },
                MouseEvent::NoEvent => final(self)@ == old(self)@ && final(self).asked() == old(
                    self,
                ).asked() && final(self).painted() == old(self).painted(),
            },
            event matches MouseEvent::Scroll(lines) ==> exists|answers: Seq<Seq<FontAnswer>>|
                final(self).painted() == old(self).painted() + #[trigger] wheel_painting(
                    old(self)@,
                    lines as int,
                    old(self).scheme(),
                    old(self).has_font(),
                    old(self).auto_flush(),
                    answers,
                ),
    {
        match event {
            MouseEvent::Scroll(lines) => {
                if !self.screen.mode().contains(TerminalMode::ALT_SCREEN) {
                    self.scroll_history(lines);
                    proof {
                        let answers = choose|answers: Seq<Seq<FontAnswer>>|
                            self.painted() == old(self).painted() + #[trigger] flush_painting(
                                old(self)@.scrolled_back(lines as int),
                                old(self).scheme(),
                                old(self).has_font(),
                                old(self).auto_flush(),
                                answers,
                            );
                        assert(self.painted() == old(self).painted() + wheel_painting(
                            old(self)@,
                            lines as int,
                            old(self).scheme(),
                            old(self).has_font(),
                            old(self).auto_flush(),
                            answers,
                        ));
                    }
                } else {
                    let code = if lines > 0 {
                        KeyCode::ARROW_UP
                    } else {
                        KeyCode::ARROW_DOWN
                    };
                    let ghost before = self.asked@;
                    let key = self.keyboard.key_to_event(DecodedKey::RawKey(code));
                    let ghost ctrl = held(self.keyboard.seen()).0;
                    let ghost shift = held(self.keyboard.seen()).1;
                    match key {
                        KeyboardEvent::AnsiString(text) => {
                            let count = crate::buffer::magnitude(lines);
                            let keys = repeat(text.as_str(), count);
                            self.pty_write(keys.as_str());
                            assert(self.asked@ =~= before + seq![HostCall::Write(keys@)]);
                        },
                        _ => {
                            assert(self.asked@ =~= before + Seq::<HostCall>::empty());
                        },
                    }
                    assert(self.asked() == old(self).asked() + wheel_asks(
                        lines as int,
                        ctrl,
                        shift,
                        old(self).keyboard_app_cursor(),
                        old(self).keyboard_crnl(),
                    ));
                    assert(self.painted() =~= old(self).painted() + wheel_painting(
                        old(self)@,
                        lines as int,
                        old(self).scheme(),
                        old(self).has_font(),
                        old(self).auto_flush(),
                        Seq::empty(),
                    ));
                }
            },
            MouseEvent::NoEvent => {},
        }
    }
}

/// The terminal as a handler: every call changes the screen as
/// `ScreenView::apply` says and sends what the screen answers, or what the
/// host's clipboard holds, to the host's writer.
impl<D: DrawTarget> Handler for TerminalInner<D> {
    open spec fn valid(&self) -> bool {
        self.wf()
    }

    fn input(&mut self, content: char)
        ensures
            final(self)@ == old(self)@.apply(Action::Input(content)),
            final(self).asked() == old(self).asked(),
            final(self).same_settings(old(self)),
            final(self).painted() == old(self).painted(),
    {
        let nothing: [u8; 0] = [];
        self.perform(Action::Input(content), nothing.as_slice());
    }

    fn goto(&mut self, row: usize, col: usize)
        ensures
            final(self)@ == old(self)@.apply(Action::Goto(row, col)),
            final(self).asked() == old(self).asked(),
            final(self).same_settings(old(self)),
            final(self).painted() == old(self).painted(),
    {
        let nothing: [u8; 0] = [];
        self.perform(Action::Goto(row, col), nothing.as_slice());
    }

    fn goto_line(&mut self, row: usize)
        ensures
            final(self)@ == old(self)@.apply(Action::GotoLine(row)),
            final(self).asked() == old(self).asked(),
            final(self).same_settings(old(self)),
            final(self).painted() == old(self).painted(),
    {
        let nothing: [u8; 0] = [];
        self.perform(Action::GotoLine(row), nothing.as_slice());
    }

    fn goto_col(&mut self, col: usize)
        ensures
            final(self)@ == old(self)@.apply(Action::GotoCol(col)),
            final(self).asked() == old(self).asked(),
            final(self).same_settings(old(self)),
            final(self).painted() == old(self).painted(),
    {
        let nothing: [u8; 0] = [];
        self.perform(Action::GotoCol(col), nothing.as_slice());
    }

    fn move_up(&mut self, rows: usize)
        ensures
            final(self)@ == old(self)@.apply(Action::MoveUp(rows)),
            final(self).asked() == old(self).asked(),
            final(self).same_settings(old(self)),
            final(self).painted() == old(self).painted(),
    {
        let nothing: [u8; 0] = [];
        self.perform(Action::MoveUp(rows), nothing.as_slice());
    }

    fn move_down(&mut self, rows: usize)
        ensures
            final(self)@ == old(self)@.apply(Action::MoveDown(rows)),
            final(self).asked() == old(self).asked(),
            final(self).same_settings(old(self)),
            final(self).painted() == old(self).painted(),
    {
        let nothing: [u8; 0] = [];
        self.perform(Action::MoveDown(rows), nothing.as_slice());
    }

    fn move_forward(&mut self, cols: usize)
        ensures
            final(self)@ == old(self)@.apply(Action::MoveForward(cols)),
            final(self).asked() == old(self).asked(),
            final(self).same_settings(old(self)),
            final(self).painted() == old(self).painted(),
    {
        let nothing: [u8; 0] = [];
        self.perform(Action::MoveForward(cols), nothing.as_slice());
    }

    fn move_backward(&mut self, cols: usize)
        ensures
            final(self)@ == old(self)@.apply(Action::MoveBackward(cols)),
            final(self).asked() == old(self).asked(),
            final(self).same_settings(old(self)),
            final(self).painted() == old(self).painted(),
    {
        let nothing: [u8; 0] = [];
        self.perform(Action::MoveBackward(cols), nothing.as_slice());
    }

    fn move_down_and_cr(&mut self, rows: usize)
        ensures
            final(self)@ == old(self)@.apply(Action::MoveDownAndCr(rows)),
            final(self).asked() == old(self).asked(),
            final(self).same_settings(old(self)),
            final(self).painted() == old(self).painted(),
    {
        let nothing: [u8; 0] = [];
        self.perform(Action::MoveDownAndCr(rows), nothing.as_slice());
    }

    fn move_up_and_cr(&mut self, rows: usize)
        ensures
            final(self)@ == old(self)@.apply(Action::MoveUpAndCr(rows)),
            final(self).asked() == old(self).asked(),
            final(self).same_settings(old(self)),
            final(self).painted() == old(self).painted(),
    {
        let nothing: [u8; 0] = [];
        self.perform(Action::MoveUpAndCr(rows), nothing.as_slice());
    }

    fn put_tab(&mut self, count: u16)
        ensures
            final(self)@ == old(self)@.apply(Action::PutTab(count)),
            final(self).asked() == old(self).asked(),
            final(self).same_settings(old(self)),
            final(self).painted() == old(self).painted(),
    {
        let nothing: [u8; 0] = [];
        self.perform(Action::PutTab(count), nothing.as_slice());
    }

    fn backspace(&mut self)
        ensures
            final(self)@ == old(self)@.apply(Action::Backspace),
            final(self).asked() == old(self).asked(),
            final(self).same_settings(old(self)),
            final(self).painted() == old(self).painted(),
    {
        let nothing: [u8; 0] = [];
        self.perform(Action::Backspace, nothing.as_slice());
    }

    fn carriage_return(&mut self)
        ensures
            final(self)@ == old(self)@.apply(Action::CarriageReturn),
            final(self).asked() == old(self).asked(),
            final(self).same_settings(old(self)),
            final(self).painted() == old(self).painted(),
    {
        let nothing: [u8; 0] = [];
        self.perform(Action::CarriageReturn, nothing.as_slice());
    }

    fn linefeed(&mut self)
        ensures
            final(self)@ == old(self)@.apply(Action::Linefeed),
            final(self).asked() == old(self).asked(),
            final(self).same_settings(old(self)),
            final(self).painted() == old(self).painted(),
    {
        let nothing: [u8; 0] = [];
        self.perform(Action::Linefeed, nothing.as_slice());
    }

    fn newline(&mut self)
        ensures
            final(self)@ == old(self)@.apply(Action::Newline),
            final(self).asked() == old(self).asked(),
            final(self).same_settings(old(self)),
            final(self).painted() == old(self).painted(),
    {
        let nothing: [u8; 0] = [];
        self.perform(Action::Newline, nothing.as_slice());
    }

    fn move_forward_tabs(&mut self, count: u16)
        ensures
            final(self)@ == old(self)@.apply(Action::MoveForwardTabs(count)),
            final(self).asked() == old(self).asked(),
            final(self).same_settings(old(self)),
            final(self).painted() == old(self).painted(),
    {
        let nothing: [u8; 0] = [];
        self.perform(Action::MoveForwardTabs(count), nothing.as_slice());
    }

    fn move_backward_tabs(&mut self, count: u16)
        ensures
            final(self)@ == old(self)@.apply(Action::MoveBackwardTabs(count)),
            final(self).asked() == old(self).asked(),
            final(self).same_settings(old(self)),
            final(self).painted() == old(self).painted(),
    {
        let nothing: [u8; 0] = [];
        self.perform(Action::MoveBackwardTabs(count), nothing.as_slice());
    }

    fn save_cursor_position(&mut self)
        ensures
            final(self)@ == old(self)@.apply(Action::SaveCursorPosition),
            final(self).asked() == old(self).asked(),
            final(self).same_settings(old(self)),
            final(self).painted() == old(self).painted(),
    {
        let nothing: [u8; 0] = [];
        self.perform(Action::SaveCursorPosition, nothing.as_slice());
    }

    fn restore_cursor_position(&mut self)
        ensures
            final(self)@ == old(self)@.apply(Action::RestoreCursorPosition),
            final(self).asked() == old(self).asked(),
            final(self).same_settings(old(self)),
            final(self).painted() == old(self).painted(),
    {
        let nothing: [u8; 0] = [];
        self.perform(Action::RestoreCursorPosition, nothing.as_slice());
    }

    fn reverse_index(&mut self)
        ensures
            final(self)@ == old(self)@.apply(Action::ReverseIndex),
            final(self).asked() == old(self).asked(),
            final(self).same_settings(old(self)),
            final(self).painted() == old(self).painted(),
    {
        let nothing: [u8; 0] = [];
        self.perform(Action::ReverseIndex, nothing.as_slice());
    }

    fn insert_blank(&mut self, count: usize)
        ensures
            final(self)@ == old(self)@.apply(Action::InsertBlank(count)),
            final(self).asked() == old(self).asked(),
            final(self).same_settings(old(self)),
            final(self).painted() == old(self).painted(),
    {
        let nothing: [u8; 0] = [];
        self.perform(Action::InsertBlank(count), nothing.as_slice());
    }

    fn insert_blank_lines(&mut self, count: usize)
        ensures
            final(self)@ == old(self)@.apply(Action::InsertBlankLines(count)),
            final(self).asked() == old(self).asked(),
            final(self).same_settings(old(self)),
            final(self).painted() == old(self).painted(),
    {
        let nothing: [u8; 0] = [];
        self.perform(Action::InsertBlankLines(count), nothing.as_slice());
    }

    fn delete_lines(&mut self, count: usize)
        ensures
            final(self)@ == old(self)@.apply(Action::DeleteLines(count)),
            final(self).asked() == old(self).asked(),
            final(self).same_settings(old(self)),
            final(self).painted() == old(self).painted(),
    {
        let nothing: [u8; 0] = [];
        self.perform(Action::DeleteLines(count), nothing.as_slice());
    }

    fn erase_chars(&mut self, count: usize)
        ensures
            final(self)@ == old(self)@.apply(Action::EraseChars(count)),
            final(self).asked() == old(self).asked(),
            final(self).same_settings(old(self)),
            final(self).painted() == old(self).painted(),
    {
        let nothing: [u8; 0] = [];
        self.perform(Action::EraseChars(count), nothing.as_slice());
    }

    fn delete_chars(&mut self, count: usize)
        ensures
            final(self)@ == old(self)@.apply(Action::DeleteChars(count)),
            final(self).asked() == old(self).asked(),
            final(self).same_settings(old(self)),
            final(self).painted() == old(self).painted(),
    {
        let nothing: [u8; 0] = [];
        self.perform(Action::DeleteChars(count), nothing.as_slice());
    }

    fn scroll_up(&mut self, count: usize)
        ensures
            final(self)@ == old(self)@.apply(Action::ScrollUp(count)),
            final(self).asked() == old(self).asked(),
            final(self).same_settings(old(self)),
            final(self).painted() == old(self).painted(),
    {
        let nothing: [u8; 0] = [];
        self.perform(Action::ScrollUp(count), nothing.as_slice());
    }

    fn scroll_down(&mut self, count: usize)
        ensures
            final(self)@ == old(self)@.apply(Action::ScrollDown(count)),
            final(self).asked() == old(self).asked(),
            final(self).same_settings(old(self)),
            final(self).painted() == old(self).painted(),
    {
        let nothing: [u8; 0] = [];
        self.perform(Action::ScrollDown(count), nothing.as_slice());
    }

    fn clear_line(&mut self, mode: LineClearMode)
        ensures
            final(self)@ == old(self)@.apply(Action::ClearLine(mode)),
            final(self).asked() == old(self).asked(),
            final(self).same_settings(old(self)),
            final(self).painted() == old(self).painted(),
    {
        let nothing: [u8; 0] = [];
        self.perform(Action::ClearLine(mode), nothing.as_slice());
    }

    fn clear_screen(&mut self, mode: ScreenClearMode)
        ensures
            final(self)@ == old(self)@.apply(Action::ClearScreen(mode)),
            final(self).asked() == old(self).asked(),
            final(self).same_settings(old(self)),
            final(self).painted() == old(self).painted(),
    {
        let nothing: [u8; 0] = [];
        self.perform(Action::ClearScreen(mode), nothing.as_slice());
    }

    fn clear_tabs(&mut self, mode: TabulationClearMode)
        ensures
            final(self)@ == old(self)@,
            final(self).asked() == old(self).asked().push(
                HostCall::Log(Notice::Unhandled(Action::ClearTabs(mode))),
            ),
            final(self).same_settings(old(self)),
            final(self).painted() == old(self).painted(),
    {
        let nothing: [u8; 0] = [];
        self.perform(Action::ClearTabs(mode), nothing.as_slice());
    }

    fn terminal_attribute(&mut self, attr: Attr)
        ensures
            final(self)@ == old(self)@.apply(Action::TerminalAttribute(attr)),
            final(self).asked() == old(self).asked(),
            final(self).same_settings(old(self)),
            final(self).painted() == old(self).painted(),
    {
        let nothing: [u8; 0] = [];
        self.perform(Action::TerminalAttribute(attr), nothing.as_slice());
    }

    fn set_mode(&mut self, mode: Mode)
        ensures
            final(self)@ == old(self)@.apply(Action::SetMode(mode)),
            final(self).asked() == old(self).asked() + unhandled_asks(Action::SetMode(mode)),
            final(self).same_settings(old(self)),
            final(self).painted() == old(self).painted(),
    {
        let nothing: [u8; 0] = [];
        self.perform(Action::SetMode(mode), nothing.as_slice());
    }

    fn unset_mode(&mut self, mode: Mode)
        ensures
            final(self)@ == old(self)@.apply(Action::UnsetMode(mode)),
            final(self).asked() == old(self).asked() + unhandled_asks(Action::UnsetMode(mode)),
            final(self).same_settings(old(self)),
            final(self).painted() == old(self).painted(),
    {
        let nothing: [u8; 0] = [];
        self.perform(Action::UnsetMode(mode), nothing.as_slice());
    }

    fn set_private_mode(&mut self, mode: Mode)
        ensures
            final(self)@ == old(self)@.apply(Action::SetPrivateMode(mode)),
            final(self).asked() == old(self).asked() + unhandled_asks(Action::SetPrivateMode(mode)),
            final(self).same_settings(old(self)),
            final(self).painted() == old(self).painted(),
    {
        let nothing: [u8; 0] = [];
        self.perform(Action::SetPrivateMode(mode), nothing.as_slice());
    }

    fn unset_private_mode(&mut self, mode: Mode)
        ensures
            final(self)@ == old(self)@.apply(Action::UnsetPrivateMode(mode)),
            final(self).asked() == old(self).asked() + unhandled_asks(Action::UnsetPrivateMode(mode)),
            final(self).same_settings(old(self)),
            final(self).painted() == old(self).painted(),
    {
        let nothing: [u8; 0] = [];
        self.perform(Action::UnsetPrivateMode(mode), nothing.as_slice());
    }

    fn set_scrolling_region(&mut self, top: usize, bottom: Option<usize>)
        ensures
            final(self)@ == old(self)@.apply(Action::SetScrollingRegion(top, bottom)),
            final(self).asked() == old(self).asked(),
            final(self).same_settings(old(self)),
            final(self).painted() == old(self).painted(),
    {
        let nothing: [u8; 0] = [];
        self.perform(Action::SetScrollingRegion(top, bottom), nothing.as_slice());
    }

    fn set_keypad_application_mode(&mut self)
        ensures
            final(self)@ == old(self)@.apply(Action::SetKeypadApplicationMode),
            final(self).asked() == old(self).asked(),
            final(self).same_settings(old(self)),
            final(self).painted() == old(self).painted(),
    {
        let nothing: [u8; 0] = [];
        self.perform(Action::SetKeypadApplicationMode, nothing.as_slice());
    }

    fn unset_keypad_application_mode(&mut self)
        ensures
            final(self)@ == old(self)@.apply(Action::UnsetKeypadApplicationMode),
            final(self).asked() == old(self).asked(),
            final(self).same_settings(old(self)),
            final(self).painted() == old(self).painted(),
    {
        let nothing: [u8; 0] = [];
        self.perform(Action::UnsetKeypadApplicationMode, nothing.as_slice());
    }

    fn set_cursor_shape(&mut self, shape: CursorShape)
        ensures
            final(self)@ == old(self)@.apply(Action::SetCursorShape(shape)),
            final(self).asked() == old(self).asked(),
            final(self).same_settings(old(self)),
            final(self).painted() == old(self).painted(),
    {
        let nothing: [u8; 0] = [];
        self.perform(Action::SetCursorShape(shape), nothing.as_slice());
    }

    fn set_cursor_style(&mut self, style: Option<CursorStyle>)
        ensures
            final(self)@ == old(self)@.apply(Action::SetCursorStyle(style)),
            final(self).asked() == old(self).asked(),
            final(self).same_settings(old(self)),
            final(self).painted() == old(self).painted(),
    {
        let nothing: [u8; 0] = [];
        self.perform(Action::SetCursorStyle(style), nothing.as_slice());
    }

    fn set_active_charset(&mut self, index: CharsetIndex)
        ensures
            final(self)@ == old(self)@.apply(Action::SetActiveCharset(index)),
            final(self).asked() == old(self).asked(),
            final(self).same_settings(old(self)),
            final(self).painted() == old(self).painted(),
    {
        let nothing: [u8; 0] = [];
        self.perform(Action::SetActiveCharset(index), nothing.as_slice());
    }

    fn configure_charset(&mut self, index: CharsetIndex, charset: StandardCharset)
        ensures
            final(self)@ == old(self)@.apply(Action::ConfigureCharset(index, charset)),
            final(self).asked() == old(self).asked(),
            final(self).same_settings(old(self)),
            final(self).painted() == old(self).painted(),
    {
        let nothing: [u8; 0] = [];
        self.perform(Action::ConfigureCharset(index, charset), nothing.as_slice());
    }

    fn identify_terminal(&mut self, intermediate: Option<char>)
        ensures
            final(self)@ == old(self)@,
            final(self).asked() == old(self).asked() + answer_calls(old(self)@.reply_to(
                Action::IdentifyTerminal(intermediate),
            )),
            final(self).same_settings(old(self)),
            final(self).painted() == old(self).painted(),
    {
        let nothing: [u8; 0] = [];
        self.perform(Action::IdentifyTerminal(intermediate), nothing.as_slice());
    }

    fn device_status(&mut self, arg: usize)
        ensures
            final(self)@ == old(self)@,
            final(self).asked() == old(self).asked() + answer_calls(old(self)@.reply_to(
                Action::DeviceStatus(arg),
            )),
            final(self).same_settings(old(self)),
            final(self).painted() == old(self).painted(),
    {
        let nothing: [u8; 0] = [];
        self.perform(Action::DeviceStatus(arg), nothing.as_slice());
    }

    fn report_keyboard_mode(&mut self)
        ensures
            final(self)@ == old(self)@,
            final(self).asked() == old(self).asked() + answer_calls(old(self)@.reply_to(
                Action::ReportKeyboardMode,
            )),
            final(self).same_settings(old(self)),
            final(self).painted() == old(self).painted(),
    {
        let nothing: [u8; 0] = [];
        self.perform(Action::ReportKeyboardMode, nothing.as_slice());
    }

    fn push_keyboard_mode(&mut self, mode: u8)
        ensures
            final(self)@ == old(self)@,
            final(self).asked() == old(self).asked().push(
                HostCall::Log(Notice::Unhandled(Action::PushKeyboardMode(mode))),
            ),
            final(self).same_settings(old(self)),
            final(self).painted() == old(self).painted(),
    {
        let nothing: [u8; 0] = [];
        self.perform(Action::PushKeyboardMode(mode), nothing.as_slice());
    }

    fn pop_keyboard_modes(&mut self, to_pop: u16)
        ensures
            final(self)@ == old(self)@,
            final(self).asked() == old(self).asked().push(
                HostCall::Log(Notice::Unhandled(Action::PopKeyboardModes(to_pop))),
            ),
            final(self).same_settings(old(self)),
            final(self).painted() == old(self).painted(),
    {
        let nothing: [u8; 0] = [];
        self.perform(Action::PopKeyboardModes(to_pop), nothing.as_slice());
    }

    fn bell(&mut self)
        ensures
            final(self)@ == old(self)@,
            final(self).asked() == old(self).asked().push(HostCall::Ring),
            final(self).same_settings(old(self)),
            final(self).painted() == old(self).painted(),
    {
        let nothing: [u8; 0] = [];
        self.perform(Action::Bell, nothing.as_slice());
    }

    fn substitute(&mut self)
        ensures
            final(self)@ == old(self)@,
            final(self).asked() == old(self).asked().push(
                HostCall::Log(Notice::Unhandled(Action::Substitute)),
            ),
            final(self).same_settings(old(self)),
            final(self).painted() == old(self).painted(),
    {
        let nothing: [u8; 0] = [];
        self.perform(Action::Substitute, nothing.as_slice());
    }

    fn set_horizontal_tabstop(&mut self)
        ensures
            final(self)@ == old(self)@,
            final(self).asked() == old(self).asked().push(
                HostCall::Log(Notice::Unhandled(Action::SetHorizontalTabstop)),
            ),
            final(self).same_settings(old(self)),
            final(self).painted() == old(self).painted(),
    {
        let nothing: [u8; 0] = [];
        self.perform(Action::SetHorizontalTabstop, nothing.as_slice());
    }

    fn decaln(&mut self)
        ensures
            final(self)@ == old(self)@,
            final(self).asked() == old(self).asked().push(
                HostCall::Log(Notice::Unhandled(Action::Decaln)),
            ),
            final(self).same_settings(old(self)),
            final(self).painted() == old(self).painted(),
    {
        let nothing: [u8; 0] = [];
        self.perform(Action::Decaln, nothing.as_slice());
    }

    fn reset_state(&mut self)
        ensures
            final(self)@ == old(self)@.apply(Action::ResetState),
            final(self).asked() == old(self).asked(),
            final(self).same_settings(old(self)),
            final(self).painted() == old(self).painted(),
    {
        let nothing: [u8; 0] = [];
        self.perform(Action::ResetState, nothing.as_slice());
    }

    fn set_title(&mut self)
        ensures
            final(self)@ == old(self)@,
            final(self).asked() == old(self).asked().push(
                HostCall::Log(Notice::Unhandled(Action::SetTitle)),
            ),
            final(self).same_settings(old(self)),
            final(self).painted() == old(self).painted(),
    {
        let nothing: [u8; 0] = [];
        self.perform(Action::SetTitle, nothing.as_slice());
    }

    fn push_title(&mut self)
        ensures
            final(self)@ == old(self)@,
            final(self).asked() == old(self).asked().push(
                HostCall::Log(Notice::Unhandled(Action::PushTitle)),
            ),
            final(self).same_settings(old(self)),
            final(self).painted() == old(self).painted(),
    {
        let nothing: [u8; 0] = [];
        self.perform(Action::PushTitle, nothing.as_slice());
    }

    fn pop_title(&mut self)
        ensures
            final(self)@ == old(self)@,
            final(self).asked() == old(self).asked().push(
                HostCall::Log(Notice::Unhandled(Action::PopTitle)),
            ),
            final(self).same_settings(old(self)),
            final(self).painted() == old(self).painted(),
    {
        let nothing: [u8; 0] = [];
        self.perform(Action::PopTitle, nothing.as_slice());
    }

    fn text_area_size_pixels(&mut self)
        ensures
            final(self)@ == old(self)@,
            final(self).asked() == old(self).asked().push(
                HostCall::Log(Notice::Unhandled(Action::TextAreaSizePixels)),
            ),
            final(self).same_settings(old(self)),
            final(self).painted() == old(self).painted(),
    {
        let nothing: [u8; 0] = [];
        self.perform(Action::TextAreaSizePixels, nothing.as_slice());
    }

    fn text_area_size_chars(&mut self)
        ensures
            final(self)@ == old(self)@,
            final(self).asked() == old(self).asked().push(
                HostCall::Log(Notice::Unhandled(Action::TextAreaSizeChars)),
            ),
            final(self).same_settings(old(self)),
            final(self).painted() == old(self).painted(),
    {
        let nothing: [u8; 0] = [];
        self.perform(Action::TextAreaSizeChars, nothing.as_slice());
    }

    fn set_color(&mut self, index: usize, color: crate::color::Rgb)
        ensures
            final(self)@ == old(self)@,
            final(self).asked() == old(self).asked().push(
                HostCall::Log(Notice::Unhandled(Action::SetColor(index, color.0, color.1, color.2))),
            ),
            final(self).same_settings(old(self)),
            final(self).painted() == old(self).painted(),
    {
        let nothing: [u8; 0] = [];
        self.perform(Action::SetColor(index, color.0, color.1, color.2), nothing.as_slice());
    }

    fn reset_color(&mut self, index: usize)
        ensures
            final(self)@ == old(self)@,
            final(self).asked() == old(self).asked().push(
                HostCall::Log(Notice::Unhandled(Action::ResetColor(index))),
            ),
            final(self).same_settings(old(self)),
            final(self).painted() == old(self).painted(),
    {
        let nothing: [u8; 0] = [];
        self.perform(Action::ResetColor(index), nothing.as_slice());
    }

    fn dynamic_color_sequence(&mut self, index: usize, bell_terminated: bool)
        ensures
            final(self)@ == old(self)@,
            final(self).asked() == old(self).asked().push(
                HostCall::Log(Notice::Unhandled(Action::DynamicColorSequence(index, bell_terminated))),
            ),
            final(self).same_settings(old(self)),
            final(self).painted() == old(self).painted(),
    {
        let nothing: [u8; 0] = [];
        self.perform(Action::DynamicColorSequence(index, bell_terminated), nothing.as_slice());
    }

    fn clipboard_store(&mut self, clipboard: u8, base64: &[u8])
        ensures
            final(self)@ == old(self)@,
            final(self).asked() == old(self).asked() + (match stored_text(base64@) {
                Some(text) => seq![HostCall::Store(text)],
                None => Seq::empty(),
            }),
            final(self).same_settings(old(self)),
            final(self).painted() == old(self).painted(),
    {
        self.perform(Action::ClipboardStore(clipboard), base64);
    }

    fn clipboard_load(&mut self, clipboard: u8, bell_terminated: bool)
        ensures
            final(self)@ == old(self)@,
            exists|held: Option<Seq<char>>|
                final(self).asked() == old(self).asked() + #[trigger] load_asks(
                    clipboard,
                    held,
                    bell_terminated,
                ),
            !old(self).has_clipboard() ==> final(self).asked() == old(self).asked(),
            final(self).same_settings(old(self)),
            final(self).painted() == old(self).painted(),
    {
        let nothing: [u8; 0] = [];
        self.perform(Action::ClipboardLoad(clipboard, bell_terminated), nothing.as_slice());
    }
}

pub struct Terminal<D: DrawTarget> {
    performer: Interpreter,
    inner: TerminalInner<D>,
}

impl<D: DrawTarget> View for Terminal<D> {
    type V = ScreenView;

    closed spec fn view(&self) -> ScreenView {
        self.inner@
    }
}

impl<D: DrawTarget> Terminal<D> {
    /// The terminal's invariant.
    pub closed spec fn wf(&self) -> bool {
        self.inner.wf()
    }

    /// A terminal that keeps its invariant shows a screen that keeps the
    /// screen's invariant.
    pub proof fn lemma_screen_wf(&self)
        requires
            self.wf(),
        ensures
            self@.wf(),
    {
        self.inner.lemma_screen_wf();
    }

    /// Whether the terminal flushes after every `process`.
    pub closed spec fn auto_flush(&self) -> bool {
        self.inner.auto_flush()
    }

    /// The color scheme in use.
    pub closed spec fn scheme(&self) -> ColorScheme {
        self.inner.scheme()
    }

    /// Whether a font is installed.
    pub closed spec fn has_font(&self) -> bool {
        self.inner.has_font()
    }

    /// How many lines one line of the mouse wheel scrolls.
    pub closed spec fn scroll_speed(&self) -> usize {
        self.inner.scroll_speed()
    }

    /// Everything that the terminal has asked of its host so far, in order.
    pub closed spec fn asked(&self) -> Seq<HostCall> {
        self.inner.asked()
    }

    /// Every pixel that the terminal has handed to the display so far, in
    /// order.
    pub closed spec fn painted(&self) -> Seq<Pixel> {
        self.inner.painted()
    }

    /// Whether the arrow keys send their application sequences.
    pub closed spec fn keyboard_app_cursor(&self) -> bool {
        self.inner.keyboard_app_cursor()
    }

    /// Whether a line feed from the keyboard is passed on as it is.
    pub closed spec fn keyboard_crnl(&self) -> bool {
        self.inner.keyboard_crnl()
    }

    /// The scancodes that the keyboard has sent so far, in order.
    pub closed spec fn scancodes(&self) -> Seq<u8> {
        self.inner.scancodes()
    }

    /// The bytes that the program has sent so far, in order.
    pub closed spec fn fed(&self) -> Seq<u8> {
        self.performer.fed()
    }

    /// The character that was drawn last, if any was.
    pub closed spec fn preceding(&self) -> Option<char> {
        self.performer.preceding()
    }

    /// Whether `self` and `other` have taken the same bytes from the
    /// program.
    pub open spec fn same_interpreter(&self, other: &Self) -> bool {
        self.fed() == other.fed() && self.preceding() == other.preceding()
    }

    /// What `bytes` complete when the program sends them now: the items
    /// that the parser dispatches, with every repetition resolved.
    pub open spec fn items_for(&self, bytes: Seq<u8>) -> Seq<Dispatch> {
        resolved_all(self.preceding(), dispatched(self.fed(), bytes))
    }

    /// What the scancode asks for when the keyboard sends it now: what the
    /// key asks for that it completes, under the modifier keys that are
    /// held then; nothing where it completes no key.
    pub open spec fn pressed(&self, scancode: u8) -> KeyboardEventView {
        match decoded(self.scancodes(), scancode) {
            Some(key) => event_of(
                key,
                held(self.scancodes().push(scancode)).0,
                held(self.scancodes().push(scancode)).1,
                self.keyboard_app_cursor(),
                self.keyboard_crnl(),
            ),
            None => KeyboardEventView::NoEvent,
        }
    }

    /// Whether the host has given the terminal a writer.
    pub closed spec fn has_writer(&self) -> bool {
        self.inner.has_writer()
    }

    /// Whether the host has given the terminal a bell.
    pub closed spec fn has_bell(&self) -> bool {
        self.inner.has_bell()
    }

    /// Whether the host has given the terminal a clipboard.
    pub closed spec fn has_clipboard(&self) -> bool {
        self.inner.has_clipboard()
    }

    /// Whether the host has given the terminal a logger.
    pub closed spec fn has_logger(&self) -> bool {
        self.inner.has_logger()
    }

    /// How many pairs of colors the painter keeps tables for at most.
    pub closed spec fn color_cache_size(&self) -> usize {
        self.inner.color_cache_size()
    }

    /// Whether `self` and `other` have the same of the host's writer, bell,
    /// clipboard and logger installed, and keep as many color tables.
    pub open spec fn same_host(&self, other: &Self) -> bool {
        &&& self.has_writer() == other.has_writer()
        &&& self.has_bell() == other.has_bell()
        &&& self.has_clipboard() == other.has_clipboard()
        &&& self.has_logger() == other.has_logger()
        &&& self.color_cache_size() == other.color_cache_size()
    }

    /// Whether nothing but the screen and what was asked of the host
    /// differs between `self` and `other`.
    pub closed spec fn same_settings(&self, other: &Self) -> bool {
        self.inner.same_settings(&other.inner)
    }

    /// A terminal on `display`: a grid of one cell until a font is
    /// installed, the default color scheme, flushing by itself, and nobody to
    /// write to, to ring at, to copy from or to report to. The display is
    /// cleared.
    pub fn new(display: D) -> (r: Terminal<D>)
        ensures
            r.wf(),
            r.auto_flush(),
            !r.has_font(),
            r.scroll_speed() == 1,
            r@.cursor == crate::screen::Cursor::home(),
            r@.mode == TerminalMode::INITIAL,
            r@.template == Cell::blank(),
            r@.grid == GridView::fresh(1, 1, (0, 0), crate::buffer::DEFAULT_HISTORY_SIZE as int, false),
            r@.region == (0int, 1int),
            !r@.crnl_mapping,
            r.asked() == Seq::<HostCall>::empty(),
            r.scheme().is_preset(crate::palette::DEFAULT_PALETTE_INDEX as int),
            !r.has_writer(),
            !r.has_bell(),
            !r.has_clipboard(),
            !r.has_logger(),
            !r.keyboard_app_cursor(),
            !r.keyboard_crnl(),
            r.scancodes() == Seq::<u8>::empty(),
            r.fed() == Seq::<u8>::empty(),
            r.preceding() is None,
            r.color_cache_size() == crate::graphic::DEFAULT_COLOR_CACHE_SIZE,
            exists|width: int, height: int|
                r.painted() == #[trigger] block_pixels(
                    width,
                    height,
                    0,
                    0,
                    r.scheme().resolve(Cell::blank().background),
                ),
    {
        let mut graphic = Graphic::new(display);
        graphic.clear(Cell::default());
        let ghost (width, height) = choose|width: int, height: int|
            graphic.painted() == Seq::<Pixel>::empty() + #[trigger] block_pixels(
                width,
                height,
                0,
                0,
                graphic.scheme().resolve(Cell::blank().background),
            );
        let terminal = Terminal {
            performer: Interpreter::new(),
            inner: TerminalInner {
                logger: None,
                graphic,
                screen: Screen::new(),
                keyboard: KeyboardManager::default(),
                mouse: MouseManager::default(),
                auto_flush: true,
                pty_writer: None,
                bell_handler: None,
                clipboard: None,
                asked: Ghost(Seq::empty()),
            },
        };
        assert(terminal.painted() =~= block_pixels(
            width,
            height,
            0,
            0,
            terminal.scheme().resolve(Cell::blank().background),
        ));
        terminal
    }

    /// The screen.
    pub fn screen(&self) -> (r: &Screen)
        ensures
            r@ == self@,
    {
        self.inner.screen()
    }

    /// The terminal without its byte-level parser.
    pub fn inner(&self) -> (r: &TerminalInner<D>)
        ensures
            r@ == self@,
    {
        &self.inner
    }

    pub fn rows(&self) -> (r: usize)
        ensures
            r == self@.grid.height,
    {
        self.inner.screen.rows()
    }

    pub fn columns(&self) -> (r: usize)
        ensures
            r == self@.grid.width,
    {
        self.inner.screen.columns()
    }

    /// Paints what changed since the last flush.
    pub fn flush(&mut self)
        requires
            old(self).wf(),
        ensures
            final(self).wf(),
            final(self).same_interpreter(old(self)),
            final(self).scancodes() == old(self).scancodes(),
            final(self)@ == old(self)@.flushed_if(true),
            final(self)@.grid.flush_cache == final(self)@.grid.viewport(),
            final(self).same_settings(old(self)),
            final(self).asked() == old(self).asked(),
            exists|answers: Seq<Seq<FontAnswer>>|
                final(self).painted() == old(self).painted() + #[trigger] flush_painting(
                    old(self)@,
                    old(self).scheme(),
                    old(self).has_font(),
                    true,
                    answers,
                ),
    {
        self.inner.flush();
        proof {
            let answers = choose|answers: Seq<Seq<FontAnswer>>|
                self.inner.painted() == old(self).inner.painted() + #[trigger] flush_painting(
                    old(self).inner@,
                    old(self).inner.scheme(),
                    old(self).inner.has_font(),
                    true,
                    answers,
                );
            assert(self.painted() == old(self).painted() + flush_painting(
                old(self)@,
                old(self).scheme(),
                old(self).has_font(),
                true,
                answers,
            ));
        }
    }

    /// Takes the bytes that the program sent. What they complete is decoded
    /// and processed in order; an unfinished sequence is kept for the next
    /// call.
    pub fn process(&mut self, bstr: &[u8])
        requires
            old(self).wf(),
        ensures
            final(self).wf(),
            final(self).same_settings(old(self)),
            final(self).scancodes() == old(self).scancodes(),
            final(self).fed() == old(self).fed() + bstr@,
            final(self).preceding() == last_drawn(
                old(self).preceding(),
                dispatched(old(self).fed(), bstr@),
            ),
            final(self)@ == old(self)@.processed(old(self).items_for(bstr@), old(self).auto_flush()),
            final(self).keyboard_app_cursor() == final(self)@.has_mode(TerminalMode::APP_CURSOR),
            !any_loads(old(self).items_for(bstr@)) ==> final(self).asked() == old(self).asked() + old(
                self,
            )@.cursor_drawn(false).run_asks(old(self).items_for(bstr@)),
            exists|answers: Seq<Seq<FontAnswer>>|
                final(self).painted() == old(self).painted() + #[trigger] flush_painting(
                    old(self)@.cursor_drawn(false).run(old(self).items_for(bstr@)).cursor_shown(),
                    old(self).scheme(),
                    old(self).has_font(),
                    old(self).auto_flush(),
                    answers,
                ),
    {
        let dispatches = self.performer.advance(bstr);
        let ghost before = *self;
        self.process_dispatches(&dispatches);
        proof {
            let seen = dispatches@;
            assert(seen == old(self).items_for(bstr@));
            assert(before@ == old(self)@ && before.asked() == old(self).asked() && before.painted()
                == old(self).painted() && before.scheme() == old(self).scheme() && before.has_font()
                == old(self).has_font() && before.auto_flush() == old(self).auto_flush());
            assert(exists|answers: Seq<Seq<FontAnswer>>|
                self.painted() == old(self).painted() + #[trigger] flush_painting(
                    old(self)@.cursor_drawn(false).run(seen).cursor_shown(),
                    old(self).scheme(),
                    old(self).has_font(),
                    old(self).auto_flush(),
                    answers,
                ));
        }
    }

    /// Processes what the byte-level parser has dispatched.
    pub fn process_dispatches(&mut self, dispatches: &Vec<Dispatch>)
        requires
            old(self).wf(),
        ensures
            final(self).wf(),
            final(self).same_interpreter(old(self)),
            final(self).scancodes() == old(self).scancodes(),
            final(self)@ == old(self)@.processed(dispatches@, old(self).auto_flush()),
            final(self).same_settings(old(self)),
            final(self).keyboard_app_cursor() == final(self)@.has_mode(TerminalMode::APP_CURSOR),
            !any_loads(dispatches@) ==> final(self).asked() == old(self).asked() + old(
                self,
            )@.cursor_drawn(false).run_asks(dispatches@),
            exists|answers: Seq<Seq<FontAnswer>>|
                final(self).painted() == old(self).painted() + #[trigger] flush_painting(
                    old(self)@.cursor_drawn(false).run(dispatches@).cursor_shown(),
                    old(self).scheme(),
                    old(self).has_font(),
                    old(self).auto_flush(),
                    answers,
                ),
    {
        self.inner.process_dispatches(dispatches);
        proof {
            let answers = choose|answers: Seq<Seq<FontAnswer>>|
                self.inner.painted() == old(self).inner.painted() + #[trigger] flush_painting(
                    old(self).inner@.cursor_drawn(false).run(dispatches@).cursor_shown(),
                    old(self).inner.scheme(),
                    old(self).inner.has_font(),
                    old(self).inner.auto_flush(),
                    answers,
                );
            assert(self.painted() == old(self).painted() + flush_painting(
                old(self)@.cursor_drawn(false).run(dispatches@).cursor_shown(),
                old(self).scheme(),
                old(self).has_font(),
                old(self).auto_flush(),
                answers,
            ));
        }
    }

    /// Takes one scancode from the keyboard and deals with what the key
    /// asks for.
    pub fn handle_keyboard(&mut self, scancode: u8)
        requires
            old(self).wf(),
        ensures
            final(self).wf(),
            final(self).same_interpreter(old(self)),
            final(self).auto_flush() == old(self).auto_flush(),
            final(self).has_font() == old(self).has_font(),
            final(self).same_host(old(self)),
            final(self).scroll_speed() == old(self).scroll_speed(),
            final(self).keyboard_crnl() == old(self).keyboard_crnl(),
            final(self).keyboard_app_cursor() == old(self).keyboard_app_cursor(),
            final(self).scancodes() == old(self).scancodes().push(scancode),
            final(self)@ == old(self)@.after_key(old(self).pressed(scancode), old(self).auto_flush()),
            old(self).pressed(scancode) matches KeyboardEventView::AnsiString(text) ==> final(self).asked() == old(self).asked().push(HostCall::Write(text)),
            old(self).pressed(scancode) is AnsiString ==> final(self)@.grid.at_latest(),
            !(old(self).pressed(scancode) is AnsiString) && !(old(self).pressed(scancode) is Paste)
                ==> final(self).asked() == old(self).asked(),
            old(self).pressed(scancode) is Paste ==> exists|held: Option<Seq<char>>|
                final(self).asked() == old(self).asked() + #[trigger] paste_asks(
                    held,
                    old(self)@.has_mode(TerminalMode::BRACKETED_PASTE),
                ),
            old(self).pressed(scancode) is Paste && !old(self).has_clipboard() ==> final(self).asked() == old(self).asked(),
            !(old(self).pressed(scancode) is SetColorScheme) ==> final(self).scheme() == old(
                self,
            ).scheme(),
            exists|answers: FlushAnswers|
                final(self).painted() == old(self).painted() + #[trigger] key_painting(
                    old(self)@,
                    old(self).pressed(scancode),
                    old(self).scheme(),
                    final(self).scheme(),
                    old(self).has_font(),
                    old(self).auto_flush(),
                    answers,
                ),
    {
        let event = self.inner.keyboard.handle_keyboard(scancode);
        let ghost seen = event@;
        let ghost before = *self;
        assert(seen == old(self).pressed(scancode));
        self.handle_key_event(event);
        proof {
            assert(before@ == old(self)@ && before.asked() == old(self).asked() && before.painted()
                == old(self).painted() && before.scheme() == old(self).scheme() && before.has_font()
                == old(self).has_font() && before.auto_flush() == old(self).auto_flush());
            assert(before.keyboard_crnl() == old(self).keyboard_crnl()
                && before.keyboard_app_cursor() == old(self).keyboard_app_cursor());
            assert(seen is Paste ==> exists|held: Option<Seq<char>>|
                self.asked() == old(self).asked() + #[trigger] paste_asks(
                    held,
                    old(self)@.has_mode(TerminalMode::BRACKETED_PASTE),
                ));
            assert(exists|answers: FlushAnswers|
                self.painted() == old(self).painted() + #[trigger] key_painting(
                    old(self)@,
                    seen,
                    old(self).scheme(),
                    self.scheme(),
                    old(self).has_font(),
                    old(self).auto_flush(),
                    answers,
                ));
        }
    }

    /// Deals with what a key press asks for.
    pub fn handle_key_event(&mut self, event: KeyboardEvent)
        requires
            old(self).wf(),
        ensures
            final(self).wf(),
            final(self).same_interpreter(old(self)),
            final(self).scancodes() == old(self).scancodes(),
            final(self)@ == old(self)@.after_key(event@, old(self).auto_flush()),
            event@ is AnsiString ==> final(self)@.grid.at_latest(),
            final(self).auto_flush() == old(self).auto_flush(),
            final(self).has_font() == old(self).has_font(),
            final(self).same_host(old(self)),
            final(self).scroll_speed() == old(self).scroll_speed(),
            final(self).keyboard_crnl() == old(self).keyboard_crnl(),
            final(self).keyboard_app_cursor() == old(self).keyboard_app_cursor(),
            !(event@ is SetColorScheme) ==> final(self).scheme() == old(self).scheme(),
            event@ matches KeyboardEventView::SetColorScheme(index) ==> final(self).scheme().is_preset(
                if index < crate::palette::PALETTE_COUNT {
                    index as int
                } else {
                    crate::palette::DEFAULT_PALETTE_INDEX as int
                },
            ),
            event@ matches KeyboardEventView::AnsiString(text) ==> final(self).asked() == old(
                self,
            ).asked().push(HostCall::Write(text)),
            event@ is Paste ==> exists|held: Option<Seq<char>>|
                final(self).asked() == old(self).asked() + #[trigger] paste_asks(
                    held,
                    old(self)@.has_mode(TerminalMode::BRACKETED_PASTE),
                ),
            event@ is Paste && !old(self).has_clipboard() ==> final(self).asked() == old(
                self,
            ).asked(),
            !(event@ is AnsiString) && !(event@ is Paste) ==> final(self).asked() == old(
                self,
            ).asked(),
            exists|answers: FlushAnswers|
                final(self).painted() == old(self).painted() + #[trigger] key_painting(
                    old(self)@,
                    event@,
                    old(self).scheme(),
                    final(self).scheme(),
                    old(self).has_font(),
                    old(self).auto_flush(),
                    answers,
                ),
    {
        let ghost seen = event@;
        self.inner.handle_key_event(event);
        proof {
            let answers = choose|answers: FlushAnswers|
                self.inner.painted() == old(self).inner.painted() + #[trigger] key_painting(
                    old(self).inner@,
                    seen,
                    old(self).inner.scheme(),
                    self.inner.scheme(),
                    old(self).inner.has_font(),
                    old(self).inner.auto_flush(),
                    answers,
                );
            assert(self.painted() == old(self).painted() + key_painting(
                old(self)@,
                seen,
                old(self).scheme(),
                self.scheme(),
                old(self).has_font(),
                old(self).auto_flush(),
                answers,
            ));
        }
    }

    /// Takes one input from the mouse and deals with what it asks for: the
    /// wheel scrolls by its lines times the scroll speed, on the primary
    /// screen through the scrollback and on the alternate screen by sending
    /// arrow keys; nothing else that the mouse does concerns the terminal.
    pub fn handle_mouse(&mut self, input: MouseInput)
        requires
            old(self).wf(),
        ensures
            final(self).wf(),
            final(self).same_interpreter(old(self)),
            final(self).scancodes() == old(self).scancodes(),
            final(self).same_settings(old(self)),
            match input {
                MouseInput::Scroll(lines) => if old(self)@.has_mode(TerminalMode::ALT_SCREEN) {
                    &&& final(self)@ == old(self)@
                    &&& final(self).asked() == old(self).asked() + wheel_asks(
                        crate::mouse::scaled(lines as int, old(self).scroll_speed() as int),
                        held(old(self).scancodes()).0,
                        held(old(self).scancodes()).1,
                        old(self).keyboard_app_cursor(),
                        old(self).keyboard_crnl(),
                    )
                } else {
                    &&& final(self)@ == old(self)@.scrolled_back(
                        crate::mouse::scaled(lines as int, old(self).scroll_speed() as int),
                    ).flushed_if(old(self).auto_flush())
                    &&& final(self).asked() == old(self).asked()
                },
                _ => final(self)@ == old(self)@ && final(self).asked() == old(self).asked()
                    && final(self).painted() == old(self).painted(),
            },
            input matches MouseInput::Scroll(lines) ==> exists|answers: Seq<Seq<FontAnswer>>|
                final(self).painted() == old(self).painted() + #[trigger] wheel_painting(
                    old(self)@,
                    crate::mouse::scaled(lines as int, old(self).scroll_speed() as int),
                    old(self).scheme(),
                    old(self).has_font(),
                    old(self).auto_flush(),
                    answers,
                ),
    {
        let event = self.inner.mouse.handle_mouse(input);
        let ghost before = self.inner;
        let ghost seen = event;
        self.inner.handle_mouse_event(event);
        proof {
            match seen {
                MouseEvent::Scroll(lines) => {
                    if old(self)@.has_mode(TerminalMode::ALT_SCREEN) {
                        assert(self.asked() == old(self).asked() + wheel_asks(
                            lines as int,
                            held(old(self).scancodes()).0,
                            held(old(self).scancodes()).1,
                            old(self).keyboard_app_cursor(),
                            old(self).keyboard_crnl(),
                        ));
                    }
                    let answers = choose|answers: Seq<Seq<FontAnswer>>|
                        self.inner.painted() == before.painted() + #[trigger] wheel_painting(
                            before@,
                            lines as int,
                            before.scheme(),
                            before.has_font(),
                            before.auto_flush(),
                            answers,
                        );
                    assert(self.painted() == old(self).painted() + wheel_painting(
                        old(self)@,
                        lines as int,
                        old(self).scheme(),
                        old(self).has_font(),
                        old(self).auto_flush(),
                        answers,
                    ));
                },
                MouseEvent::NoEvent => {},
            }
        }
    }

    pub fn set_auto_flush(&mut self, auto_flush: bool)
        requires
            old(self).wf(),
        ensures
            final(self).wf(),
            final(self).same_interpreter(old(self)),
            final(self).scancodes() == old(self).scancodes(),
            final(self)@ == old(self)@,
            final(self).auto_flush() == auto_flush,
            final(self).scheme() == old(self).scheme(),
            final(self).has_font() == old(self).has_font(),
            final(self).same_host(old(self)),
            final(self).scroll_speed() == old(self).scroll_speed(),
            final(self).asked() == old(self).asked(),
            final(self).painted() == old(self).painted(),
    {
        self.inner.auto_flush = auto_flush;
    }

    pub fn set_bell_handler(&mut self, handler: Box<dyn BellHandler>)
        requires
            old(self).wf(),
        ensures
            final(self).wf(),
            final(self).same_interpreter(old(self)),
            final(self).scancodes() == old(self).scancodes(),
            final(self)@ == old(self)@,
            final(self).has_bell(),
            final(self).has_writer() == old(self).has_writer(),
            final(self).has_clipboard() == old(self).has_clipboard(),
            final(self).has_logger() == old(self).has_logger(),
            final(self).color_cache_size() == old(self).color_cache_size(),
            final(self).auto_flush() == old(self).auto_flush(),
            final(self).scheme() == old(self).scheme(),
            final(self).has_font() == old(self).has_font(),
            final(self).scroll_speed() == old(self).scroll_speed(),
            final(self).keyboard_crnl() == old(self).keyboard_crnl(),
            final(self).keyboard_app_cursor() == old(self).keyboard_app_cursor(),
            final(self).asked() == old(self).asked(),
            final(self).painted() == old(self).painted(),
    {
        self.inner.bell_handler = Some(handler);
    }

    pub fn set_clipboard(&mut self, clipboard: Box<dyn ClipboardHandler>)
        requires
            old(self).wf(),
        ensures
            final(self).wf(),
            final(self).same_interpreter(old(self)),
            final(self).scancodes() == old(self).scancodes(),
            final(self)@ == old(self)@,
            final(self).has_clipboard(),
            final(self).has_writer() == old(self).has_writer(),
            final(self).has_bell() == old(self).has_bell(),
            final(self).has_logger() == old(self).has_logger(),
            final(self).color_cache_size() == old(self).color_cache_size(),
            final(self).auto_flush() == old(self).auto_flush(),
            final(self).scheme() == old(self).scheme(),
            final(self).has_font() == old(self).has_font(),
            final(self).scroll_speed() == old(self).scroll_speed(),
            final(self).keyboard_crnl() == old(self).keyboard_crnl(),
            final(self).keyboard_app_cursor() == old(self).keyboard_app_cursor(),
            final(self).asked() == old(self).asked(),
            final(self).painted() == old(self).painted(),
    {
        self.inner.clipboard = Some(clipboard);
    }

    pub fn set_pty_writer(&mut self, writer: Box<dyn PtyWriter>)
        requires
            old(self).wf(),
        ensures
            final(self).wf(),
            final(self).same_interpreter(old(self)),
            final(self).scancodes() == old(self).scancodes(),
            final(self)@ == old(self)@,
            final(self).has_writer(),
            final(self).has_bell() == old(self).has_bell(),
            final(self).has_clipboard() == old(self).has_clipboard(),
            final(self).has_logger() == old(self).has_logger(),
            final(self).color_cache_size() == old(self).color_cache_size(),
            final(self).auto_flush() == old(self).auto_flush(),
            final(self).scheme() == old(self).scheme(),
            final(self).has_font() == old(self).has_font(),
            final(self).scroll_speed() == old(self).scroll_speed(),
            final(self).keyboard_crnl() == old(self).keyboard_crnl(),
            final(self).keyboard_app_cursor() == old(self).keyboard_app_cursor(),
            final(self).asked() == old(self).asked(),
            final(self).painted() == old(self).painted(),
    {
        self.inner.pty_writer = Some(writer);
    }

    /// Installs the host's logger. It is told of every handler call and of
    /// every control byte or sequence that the terminal has nothing to do
    /// for.
    pub fn set_logger(&mut self, logger: Box<dyn Logger>)
        requires
            old(self).wf(),
        ensures
            final(self).wf(),
            final(self).same_interpreter(old(self)),
            final(self).scancodes() == old(self).scancodes(),
            final(self)@ == old(self)@,
            final(self).has_logger(),
            final(self).has_bell() == old(self).has_bell(),
            final(self).has_clipboard() == old(self).has_clipboard(),
            final(self).has_writer() == old(self).has_writer(),
            final(self).color_cache_size() == old(self).color_cache_size(),
            final(self).auto_flush() == old(self).auto_flush(),
            final(self).scheme() == old(self).scheme(),
            final(self).has_font() == old(self).has_font(),
            final(self).scroll_speed() == old(self).scroll_speed(),
            final(self).keyboard_crnl() == old(self).keyboard_crnl(),
            final(self).keyboard_app_cursor() == old(self).keyboard_app_cursor(),
            final(self).asked() == old(self).asked(),
            final(self).painted() == old(self).painted(),
    {
        self.inner.logger = Some(logger);
    }

    /// Sets the limit on the rows of scrollback.
    pub fn set_history_size(&mut self, size: usize)
        requires
            old(self).wf(),
        ensures
            final(self).wf(),
            final(self).same_interpreter(old(self)),
            final(self).scancodes() == old(self).scancodes(),
            final(self)@ == old(self)@.on(GridView { history_size: size as int, ..old(self)@.grid }),
            final(self).same_settings(old(self)),
            final(self).asked() == old(self).asked(),
            final(self).painted() == old(self).painted(),
    {
        self.inner.screen.resize_history(size);
    }

    pub fn set_scroll_speed(&mut self, speed: usize)
        requires
            old(self).wf(),
        ensures
            final(self).wf(),
            final(self).same_interpreter(old(self)),
            final(self).scancodes() == old(self).scancodes(),
            final(self)@ == old(self)@,
            final(self).scroll_speed() == speed,
            final(self).auto_flush() == old(self).auto_flush(),
            final(self).scheme() == old(self).scheme(),
            final(self).has_font() == old(self).has_font(),
            final(self).same_host(old(self)),
            final(self).asked() == old(self).asked(),
            final(self).painted() == old(self).painted(),
    {
        self.inner.mouse.set_scroll_speed(speed);
    }

    /// Says whether line feeds keep their meaning: a line feed on the
    /// screen then also returns the carriage, and a line feed from the
    /// keyboard is passed on as it is.
    pub fn set_crnl_mapping(&mut self, mapping: bool)
        requires
            old(self).wf(),
        ensures
            final(self).wf(),
            final(self).same_interpreter(old(self)),
            final(self).scancodes() == old(self).scancodes(),
            final(self)@ == (ScreenView { crnl_mapping: mapping, ..old(self)@ }),
            final(self).auto_flush() == old(self).auto_flush(),
            final(self).scheme() == old(self).scheme(),
            final(self).has_font() == old(self).has_font(),
            final(self).same_host(old(self)),
            final(self).scroll_speed() == old(self).scroll_speed(),
            final(self).asked() == old(self).asked(),
            final(self).painted() == old(self).painted(),
    {
        self.inner.keyboard.set_crnl_mapping(mapping);
        self.inner.screen.set_crnl_mapping(mapping);
    }

    /// Sets how many pairs of colors the painter keeps tables for at most.
    /// Tables beyond that number are dropped.
    pub fn set_color_cache_size(&mut self, size: usize)
        requires
            old(self).wf(),
            size > 0,
        ensures
            final(self).wf(),
            final(self).same_interpreter(old(self)),
            final(self).scancodes() == old(self).scancodes(),
            final(self)@ == old(self)@,
            final(self).color_cache_size() == size,
            final(self).has_writer() == old(self).has_writer(),
            final(self).has_bell() == old(self).has_bell(),
            final(self).has_clipboard() == old(self).has_clipboard(),
            final(self).has_logger() == old(self).has_logger(),
            final(self).auto_flush() == old(self).auto_flush(),
            final(self).scheme() == old(self).scheme(),
            final(self).has_font() == old(self).has_font(),
            final(self).scroll_speed() == old(self).scroll_speed(),
            final(self).keyboard_crnl() == old(self).keyboard_crnl(),
            final(self).keyboard_app_cursor() == old(self).keyboard_app_cursor(),
            final(self).asked() == old(self).asked(),
            final(self).painted() == old(self).painted(),
    {
        self.inner.graphic.set_cache_size(size);
    }

    /// Installs the font and fits the grid to it and to the display: as many
    /// whole cells as fit. With the number of rows and columns unchanged the
    /// screens keep their content; otherwise they and the scrollback start
    /// anew. A font whose cells have no size, or of which not one cell fits
    /// the display, is installed too, but leaves the grid as it is.
    pub fn set_font_manager(&mut self, font_manager: Box<dyn FontManager>)
        requires
            old(self).wf(),
        ensures
            final(self).wf(),
            final(self).same_interpreter(old(self)),
            final(self).scancodes() == old(self).scancodes(),
            final(self).has_font(),
            final(self).same_host(old(self)),
            final(self).auto_flush() == old(self).auto_flush(),
            final(self).scheme() == old(self).scheme(),
            final(self).scroll_speed() == old(self).scroll_speed(),
            exists|font_size: (usize, usize), graphic_size: (usize, usize)|
                final(self)@ == #[trigger] old(self)@.fitted(font_size, graphic_size),
            final(self).asked() == old(self).asked(),
            final(self).painted() == old(self).painted(),
    {
        let font_size = font_manager.size();
        let graphic_size = self.inner.graphic.size();
        self.inner.screen.resize(font_size, graphic_size);
        self.inner.graphic.set_font_manager(font_manager);
        assert(self@ == old(self)@.fitted(font_size, graphic_size));
    }

    /// Switches to the built-in palette `palette_index`, or to the default
    /// one where there is no such palette; the pen is reset and everything is
    /// painted anew.
    pub fn set_color_scheme(&mut self, palette_index: usize)
        requires
            old(self).wf(),
        ensures
            final(self).wf(),
            final(self).same_interpreter(old(self)),
            final(self).scancodes() == old(self).scancodes(),
            final(self)@ == (ScreenView { template: Cell::blank(), ..old(self)@ }).flushed_if(true),
            final(self).auto_flush() == old(self).auto_flush(),
            final(self).has_font() == old(self).has_font(),
            final(self).same_host(old(self)),
            final(self).scroll_speed() == old(self).scroll_speed(),
            final(self).asked() == old(self).asked(),
            exists|answers: FlushAnswers|
                final(self).painted() == old(self).painted() + #[trigger] old(
                    self,
                )@.grid.full_repainting(final(self).scheme(), old(self).has_font(), answers),
            final(self).scheme().is_preset(
                if palette_index < crate::palette::PALETTE_COUNT {
                    palette_index as int
                } else {
                    crate::palette::DEFAULT_PALETTE_INDEX as int
                },
            ),
    {
        let scheme = ColorScheme::new(palette_index);
        let ghost chosen = scheme;
        self.inner.use_color_scheme(scheme);
        proof {
            let answers = choose|answers: FlushAnswers|
                self.inner.painted() == old(self).inner.painted() + #[trigger] old(
                    self,
                ).inner@.grid.full_repainting(chosen, old(self).inner.has_font(), answers);
            assert(self.painted() == old(self).painted() + old(self)@.grid.full_repainting(
                self.scheme(),
                old(self).has_font(),
                answers,
            ));
        }
    }

    /// Switches to the colors of `palette`; the pen is reset and everything
    /// is painted anew.
    pub fn set_custom_color_scheme(&mut self, palette: &Palette)
        requires
            old(self).wf(),
        ensures
            final(self).wf(),
            final(self).same_interpreter(old(self)),
            final(self).scancodes() == old(self).scancodes(),
            final(self)@ == (ScreenView { template: Cell::blank(), ..old(self)@ }).flushed_if(true),
            final(self).scheme().built_from(*palette),
            final(self).auto_flush() == old(self).auto_flush(),
            final(self).has_font() == old(self).has_font(),
            final(self).same_host(old(self)),
            final(self).scroll_speed() == old(self).scroll_speed(),
            final(self).asked() == old(self).asked(),
            exists|answers: FlushAnswers|
                final(self).painted() == old(self).painted() + #[trigger] old(
                    self,
                )@.grid.full_repainting(final(self).scheme(), old(self).has_font(), answers),
    {
        let scheme = ColorScheme::from(palette);
        let ghost chosen = scheme;
        self.inner.use_color_scheme(scheme);
        proof {
            let answers = choose|answers: FlushAnswers|
                self.inner.painted() == old(self).inner.painted() + #[trigger] old(
                    self,
                ).inner@.grid.full_repainting(chosen, old(self).inner.has_font(), answers);
            assert(self.painted() == old(self).painted() + old(self)@.grid.full_repainting(
                self.scheme(),
                old(self).has_font(),
                answers,
            ));
        }
    }
}

impl ScreenView {
    /// The screen fitted to a display of `graphic_size` pixels under a font
    /// whose cells are `font_size` pixels; unchanged where no grid can be
    /// made.
    pub open spec fn fitted(self, font_size: (usize, usize), graphic_size: (usize, usize)) -> ScreenView {
        if Screen::fits(font_size, graphic_size) {
            self.resized(
                graphic_size.0 as int / font_size.0 as int,
                graphic_size.1 as int / font_size.1 as int,
                (
                    font_size.0 * (graphic_size.0 as int / font_size.0 as int),
                    font_size.1 * (graphic_size.1 as int / font_size.1 as int),
                ),
            )
        } else {
            self
        }
    }
}

} // verus!
