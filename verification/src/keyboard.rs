//! From keyboard scancodes to what the terminal does with a key: text for
//! the program on the other side, or a command for the terminal itself.

use vstd::prelude::*;
use crate::text::string_of;

verus! {

/// What a key press asks for.
#[derive(Debug)]
pub enum KeyboardEvent {
    /// Text to send to the program.
    AnsiString(String),
    Copy,
    Paste,
    /// Switch to the built-in palette with this number.
    SetColorScheme(usize),
    /// Move the viewport, by a line or by a page.
    Scroll { up: bool, page: bool },
    /// The key asks for nothing.
    NoEvent,
}

/// A keyboard event as mathematics.
pub enum KeyboardEventView {
    AnsiString(Seq<char>),
    Copy,
    Paste,
    SetColorScheme(usize),
    Scroll { up: bool, page: bool },
    /// The key asks for nothing.
    NoEvent,
}

impl View for KeyboardEvent {
    type V = KeyboardEventView;

    open spec fn view(&self) -> KeyboardEventView {
        match self {
            KeyboardEvent::AnsiString(s) => KeyboardEventView::AnsiString(s@),
            KeyboardEvent::Copy => KeyboardEventView::Copy,
            KeyboardEvent::Paste => KeyboardEventView::Paste,
            KeyboardEvent::SetColorScheme(i) => KeyboardEventView::SetColorScheme(*i),
            KeyboardEvent::Scroll { up, page } => KeyboardEventView::Scroll { up: *up, page: *page },
            KeyboardEvent::NoEvent => KeyboardEventView::NoEvent,
        }
    }
}

/// The keys without a character of their own that the terminal knows, by
/// the number that `pc_keyboard::KeyCode` gives them.
pub struct KeyCode;

impl KeyCode {
    pub const F1: u8 = 1;
    pub const F2: u8 = 2;
    pub const F3: u8 = 3;
    pub const F4: u8 = 4;
    pub const F5: u8 = 5;
    pub const F6: u8 = 6;
    pub const F7: u8 = 7;
    pub const F8: u8 = 8;
    pub const F9: u8 = 9;
    pub const F10: u8 = 10;
    pub const F11: u8 = 11;
    pub const F12: u8 = 12;
    pub const HOME: u8 = 32;
    pub const PAGE_UP: u8 = 33;
    pub const END: u8 = 54;
    pub const PAGE_DOWN: u8 = 55;
    pub const C: u8 = 79;
    pub const V: u8 = 80;
    pub const ARROW_UP: u8 = 88;
    pub const ARROW_LEFT: u8 = 101;
    pub const ARROW_DOWN: u8 = 102;
    pub const ARROW_RIGHT: u8 = 103;
}

/// A decoded key press: a character, or a key without one.
#[derive(Clone, Copy, Debug, PartialEq, Eq, Structural)]
pub enum DecodedKey {
    /// A key without a character, by its `KeyCode` number.
    RawKey(u8),
    Unicode(char),
}

/// The command that a key stands for while Control and Shift are held:
/// F1 to F8 choose a palette, C and V copy and paste, the arrows and the
/// page keys move the viewport.
pub open spec fn function_of(code: u8) -> Option<KeyboardEventView> {
    if KeyCode::F1 <= code <= KeyCode::F8 {
        Some(KeyboardEventView::SetColorScheme((code - KeyCode::F1) as usize))
    } else if code == KeyCode::C {
        Some(KeyboardEventView::Copy)
    } else if code == KeyCode::V {
        Some(KeyboardEventView::Paste)
    } else if code == KeyCode::ARROW_UP {
        Some(KeyboardEventView::Scroll { up: true, page: false })
    } else if code == KeyCode::PAGE_UP {
        Some(KeyboardEventView::Scroll { up: true, page: true })
    } else if code == KeyCode::ARROW_DOWN {
        Some(KeyboardEventView::Scroll { up: false, page: false })
    } else if code == KeyCode::PAGE_DOWN {
        Some(KeyboardEventView::Scroll { up: false, page: true })
    } else {
        None
    }
}

/// `ESC`, then the given characters.
pub open spec fn esc(tail: Seq<char>) -> Seq<char> {
    seq!['\x1b'] + tail
}

/// The text that a key without a character sends: the function keys and
/// the keys of the cursor pad have their sequences, the arrows in the form
/// that the cursor-key mode asks for; other keys send nothing.
pub open spec fn sequence_of(code: u8, app_cursor_mode: bool) -> Option<Seq<char>> {
    if code == KeyCode::F1 {
        Some(esc(seq!['O', 'P']))
    } else if code == KeyCode::F2 {
        Some(esc(seq!['O', 'Q']))
    } else if code == KeyCode::F3 {
        Some(esc(seq!['O', 'R']))
    } else if code == KeyCode::F4 {
        Some(esc(seq!['O', 'S']))
    } else if code == KeyCode::F5 {
        Some(esc(seq!['[', '1', '5', '~']))
    } else if code == KeyCode::F6 {
        Some(esc(seq!['[', '1', '7', '~']))
    } else if code == KeyCode::F7 {
        Some(esc(seq!['[', '1', '8', '~']))
    } else if code == KeyCode::F8 {
        Some(esc(seq!['[', '1', '9', '~']))
    } else if code == KeyCode::F9 {
        Some(esc(seq!['[', '2', '0', '~']))
    } else if code == KeyCode::F10 {
        Some(esc(seq!['[', '2', '1', '~']))
    } else if code == KeyCode::F11 {
        Some(esc(seq!['[', '2', '3', '~']))
    } else if code == KeyCode::F12 {
        Some(esc(seq!['[', '2', '4', '~']))
    } else if code == KeyCode::ARROW_UP {
        Some(esc(seq![if app_cursor_mode { 'O' } else { '[' }, 'A']))
    } else if code == KeyCode::ARROW_DOWN {
        Some(esc(seq![if app_cursor_mode { 'O' } else { '[' }, 'B']))
    } else if code == KeyCode::ARROW_RIGHT {
        Some(esc(seq![if app_cursor_mode { 'O' } else { '[' }, 'C']))
    } else if code == KeyCode::ARROW_LEFT {
        Some(esc(seq![if app_cursor_mode { 'O' } else { '[' }, 'D']))
    } else if code == KeyCode::HOME {
        Some(esc(seq!['[', 'H']))
    } else if code == KeyCode::END {
        Some(esc(seq!['[', 'F']))
    } else if code == KeyCode::PAGE_UP {
        Some(esc(seq!['[', '5', '~']))
    } else if code == KeyCode::PAGE_DOWN {
        Some(esc(seq!['[', '6', '~']))
    } else {
        None
    }
}

/// The text that a character key sends: backspace sends DEL, DEL the
/// delete sequence, a line feed a carriage return unless line feeds are
/// passed on as they are, and every other character itself.
pub open spec fn text_of(c: char, crnl_mapping: bool) -> Seq<char> {
    if c == '\x08' {
        seq!['\x7f']
    } else if c == '\x7f' {
        esc(seq!['[', '3', '~'])
    } else if c == '\n' && !crnl_mapping {
        seq!['\r']
    } else {
        seq![c]
    }
}

/// The key without a character that a key stands for when the terminal's
/// own commands are looked up: Control with C or V arrives as the
/// characters U+0003 and U+0016.
pub open spec fn command_key(key: DecodedKey) -> Option<u8> {
    match key {
        DecodedKey::RawKey(code) => Some(code),
        DecodedKey::Unicode(c) => if c == '\x03' {
            Some(KeyCode::C)
        } else if c == '\x16' {
            Some(KeyCode::V)
        } else {
            None
        },
    }
}

/// What a key press asks for, given whether Control and Shift are held,
/// the cursor-key mode, and whether line feeds are passed on as they are.
pub open spec fn event_of(
    key: DecodedKey,
    ctrl: bool,
    shift: bool,
    app_cursor_mode: bool,
    crnl_mapping: bool,
) -> KeyboardEventView {
    let command = if ctrl && shift {
        match command_key(key) {
            Some(code) => function_of(code),
            None => None,
        }
    } else {
        None
    };
    match command {
        Some(event) => event,
        None => match key {
            DecodedKey::RawKey(code) => match sequence_of(code, app_cursor_mode) {
                Some(text) => KeyboardEventView::AnsiString(text),
                None => KeyboardEventView::NoEvent,
            },
            DecodedKey::Unicode(c) => KeyboardEventView::AnsiString(text_of(c, crnl_mapping)),
        },
    }
}

/// The command that a key stands for while Control and Shift are held.
pub fn handle_function(code: u8) -> (r: Option<KeyboardEvent>)
    ensures
        match r {
            Some(event) => function_of(code) == Some(event@),
            None => function_of(code) is None,
        },
{
    if KeyCode::F1 <= code && code <= KeyCode::F8 {
        Some(KeyboardEvent::SetColorScheme((code - KeyCode::F1) as usize))
    } else if code == KeyCode::C {
        Some(KeyboardEvent::Copy)
    } else if code == KeyCode::V {
        Some(KeyboardEvent::Paste)
    } else if code == KeyCode::ARROW_UP {
        Some(KeyboardEvent::Scroll { up: true, page: false })
    } else if code == KeyCode::PAGE_UP {
        Some(KeyboardEvent::Scroll { up: true, page: true })
    } else if code == KeyCode::ARROW_DOWN {
        Some(KeyboardEvent::Scroll { up: false, page: false })
    } else if code == KeyCode::PAGE_DOWN {
        Some(KeyboardEvent::Scroll { up: false, page: true })
    } else {
        None
    }
}

fn esc2(a: char, b: char) -> (r: String)
    ensures
        r@ == esc(seq![a, b]),
{
    let text = string_of(&['\x1b', a, b]);
    assert(text@ =~= esc(seq![a, b]));
    text
}

fn esc3(a: char, b: char, c: char) -> (r: String)
    ensures
        r@ == esc(seq![a, b, c]),
{
    let text = string_of(&['\x1b', a, b, c]);
    assert(text@ =~= esc(seq![a, b, c]));
    text
}

fn esc4(a: char, b: char, c: char, d: char) -> (r: String)
    ensures
        r@ == esc(seq![a, b, c, d]),
{
    let text = string_of(&['\x1b', a, b, c, d]);
    assert(text@ =~= esc(seq![a, b, c, d]));
    text
}

/// The text that a key without a character sends, if any.
pub fn generate_ansi_sequence(code: u8, app_cursor_mode: bool) -> (r: Option<String>)
    ensures
        match r {
            Some(text) => sequence_of(code, app_cursor_mode) == Some(text@),
            None => sequence_of(code, app_cursor_mode) is None,
        },
{
    let lead = if app_cursor_mode {
        'O'
    } else {
        '['
    };
    if code == KeyCode::F1 {
        Some(esc2('O', 'P'))
    } else if code == KeyCode::F2 {
        Some(esc2('O', 'Q'))
    } else if code == KeyCode::F3 {
        Some(esc2('O', 'R'))
    } else if code == KeyCode::F4 {
        Some(esc2('O', 'S'))
    } else if code == KeyCode::F5 {
        Some(esc4('[', '1', '5', '~'))
    } else if code == KeyCode::F6 {
        Some(esc4('[', '1', '7', '~'))
    } else if code == KeyCode::F7 {
        Some(esc4('[', '1', '8', '~'))
    } else if code == KeyCode::F8 {
        Some(esc4('[', '1', '9', '~'))
    } else if code == KeyCode::F9 {
        Some(esc4('[', '2', '0', '~'))
    } else if code == KeyCode::F10 {
        Some(esc4('[', '2', '1', '~'))
    } else if code == KeyCode::F11 {
        Some(esc4('[', '2', '3', '~'))
    } else if code == KeyCode::F12 {
        Some(esc4('[', '2', '4', '~'))
    } else if code == KeyCode::ARROW_UP {
        Some(esc2(lead, 'A'))
    } else if code == KeyCode::ARROW_DOWN {
        Some(esc2(lead, 'B'))
    } else if code == KeyCode::ARROW_RIGHT {
        Some(esc2(lead, 'C'))
    } else if code == KeyCode::ARROW_LEFT {
        Some(esc2(lead, 'D'))
    } else if code == KeyCode::HOME {
        Some(esc2('[', 'H'))
    } else if code == KeyCode::END {
        Some(esc2('[', 'F'))
    } else if code == KeyCode::PAGE_UP {
        Some(esc3('[', '5', '~'))
    } else if code == KeyCode::PAGE_DOWN {
        Some(esc3('[', '6', '~'))
    } else {
        None
    }
}

/// What a key press asks for, given whether Control and Shift are held,
/// the cursor-key mode, and whether line feeds are passed on as they are.
pub fn event_for(key: DecodedKey, ctrl: bool, shift: bool, app_cursor_mode: bool, crnl_mapping: bool) -> (r:
    KeyboardEvent)
    ensures
        r@ == event_of(key, ctrl, shift, app_cursor_mode, crnl_mapping),
{
    if ctrl && shift {
        let command: Option<u8> = match key {
            DecodedKey::RawKey(code) => Some(code),
            DecodedKey::Unicode(c) => if c == '\x03' {
                Some(KeyCode::C)
            } else if c == '\x16' {
                Some(KeyCode::V)
            } else {
                None
            },
        };
        match command {
            Some(code) => match handle_function(code) {
                Some(event) => {
                    return event;
                },
                None => {},
            },
            None => {},
        }
    }
    match key {
        DecodedKey::RawKey(code) => match generate_ansi_sequence(code, app_cursor_mode) {
            Some(text) => KeyboardEvent::AnsiString(text),
            None => KeyboardEvent::NoEvent,
        },
        DecodedKey::Unicode(c) => {
            if c == '\x08' {
                let text = string_of(&['\x7f']);
                assert(text@ =~= seq!['\x7f']);
                KeyboardEvent::AnsiString(text)
            } else if c == '\x7f' {
                KeyboardEvent::AnsiString(esc3('[', '3', '~'))
            } else if c == '\n' && !crnl_mapping {
                let text = string_of(&['\r']);
                assert(text@ =~= seq!['\r']);
                KeyboardEvent::AnsiString(text)
            } else {
                let text = string_of(&[c]);
                assert(text@ =~= seq![c]);
                KeyboardEvent::AnsiString(text)
            }
        },
    }
}

/// The scancode decoder of the `pc-keyboard` crate for scancode set 1 and
/// the US layout with 104 keys. It remembers the scancodes of a key press
/// that is not complete yet and the modifier keys that are held. To the
/// verifier it is the scancodes that it has been given.
#[verifier::external_body]
pub struct KeyDecoder {
    keyboard: pc_keyboard::Keyboard<pc_keyboard::layouts::Us104Key, pc_keyboard::ScancodeSet1>,
}

/// The scancodes that the decoder has been given since it was made, in
/// order.
pub uninterp spec fn scancodes_seen(decoder: KeyDecoder) -> Seq<u8>;

/// The key that the decoder gives when it is handed `scancode` after the
/// scancodes `seen`: nothing while a key press is incomplete, on a key
/// release, and on a modifier key.
pub uninterp spec fn decoded(seen: Seq<u8>, scancode: u8) -> Option<DecodedKey>;

/// Whether a Control key and whether a Shift key is held after the
/// scancodes `seen`.
pub uninterp spec fn held(seen: Seq<u8>) -> (bool, bool);

/// Calls `pc_keyboard::Keyboard::new` for scancode set 1 and the US layout
/// with 104 keys, Control with a letter giving the control character.
///
/// Assumed, not proved: the new decoder has been given no scancode.
#[verifier::external_body]
fn keyboard_new() -> (r: KeyDecoder)
    ensures
        scancodes_seen(r).len() == 0,
{
    KeyDecoder {
        keyboard: pc_keyboard::Keyboard::new(
            pc_keyboard::ScancodeSet1::new(),
            pc_keyboard::layouts::Us104Key,
            pc_keyboard::HandleControl::MapLettersToUnicode,
        ),
    }
}

/// Calls `pc_keyboard::Keyboard::add_byte` and, where that completes a key
/// event, `process_keyevent`; a key without a character is handed on as
/// its number.
///
/// Assumed, not proved: what the call gives depends on nothing but the
/// scancodes that the decoder was given before and this one, and the
/// decoder has then been given this one too.
#[verifier::external_body]
fn keyboard_decode(decoder: &mut KeyDecoder, scancode: u8) -> (r: Option<DecodedKey>)
    ensures
        r == decoded(scancodes_seen(*old(decoder)), scancode),
        scancodes_seen(*final(decoder)) == scancodes_seen(*old(decoder)).push(scancode),
{
    let event = decoder.keyboard.add_byte(scancode).ok().flatten()?;
    match decoder.keyboard.process_keyevent(event)? {
        pc_keyboard::DecodedKey::RawKey(code) => Some(DecodedKey::RawKey(code as u8)),
        pc_keyboard::DecodedKey::Unicode(c) => Some(DecodedKey::Unicode(c)),
    }
}

/// Calls `pc_keyboard::Keyboard::get_modifiers` and asks what it returns
/// whether a Control key and whether a Shift key is held.
///
/// Assumed, not proved: which modifier keys are held depends on nothing but
/// the scancodes that the decoder was given.
#[verifier::external_body]
fn keyboard_modifiers(decoder: &KeyDecoder) -> (r: (bool, bool))
    ensures
        r == held(scancodes_seen(*decoder)),
{
    let modifiers = decoder.keyboard.get_modifiers();
    (modifiers.is_ctrl(), modifiers.is_shifted())
}

pub struct KeyboardManager {
    pub(crate) app_cursor_mode: bool,
    pub(crate) crnl_mapping: bool,
    keyboard: KeyDecoder,
}

impl Default for KeyboardManager {
    fn default() -> (r: KeyboardManager)
        ensures
            !r.app_cursor_mode(),
            !r.crnl_mapping(),
            r.seen() == Seq::<u8>::empty(),
    {
        KeyboardManager { app_cursor_mode: false, crnl_mapping: false, keyboard: keyboard_new() }
    }
}

impl KeyboardManager {
    /// Whether the arrow keys send their application sequences.
    pub closed spec fn app_cursor_mode(&self) -> bool {
        self.app_cursor_mode
    }

    /// Whether a line feed from the keyboard is passed on as it is.
    pub closed spec fn crnl_mapping(&self) -> bool {
        self.crnl_mapping
    }

    /// The scancodes that the keyboard has sent so far, in order.
    pub closed spec fn seen(&self) -> Seq<u8> {
        scancodes_seen(self.keyboard)
    }

    /// What a key asks for under the modifier keys that are held now.
    pub open spec fn event_now(&self, key: DecodedKey) -> KeyboardEventView {
        event_of(
            key,
            held(self.seen()).0,
            held(self.seen()).1,
            self.app_cursor_mode(),
            self.crnl_mapping(),
        )
    }

    /// What the scancode asks for when it arrives now: what the key asks
    /// for that it completes, under the modifier keys that are held then;
    /// nothing where it completes no key.
    pub open spec fn pressed(&self, scancode: u8) -> KeyboardEventView {
        match decoded(self.seen(), scancode) {
            Some(key) => event_of(
                key,
                held(self.seen().push(scancode)).0,
                held(self.seen().push(scancode)).1,
                self.app_cursor_mode(),
                self.crnl_mapping(),
            ),
            None => KeyboardEventView::NoEvent,
        }
    }

    pub fn set_app_cursor_mode(&mut self, on: bool)
        ensures
            final(self).app_cursor_mode() == on,
            final(self).crnl_mapping() == old(self).crnl_mapping(),
            final(self).seen() == old(self).seen(),
    {
        self.app_cursor_mode = on;
    }

    pub fn set_crnl_mapping(&mut self, on: bool)
        ensures
            final(self).crnl_mapping() == on,
            final(self).app_cursor_mode() == old(self).app_cursor_mode(),
            final(self).seen() == old(self).seen(),
    {
        self.crnl_mapping = on;
    }

    /// Takes one scancode and says what it asks for: nothing while a key
    /// press is incomplete, on a key release, and on a modifier key.
    pub fn handle_keyboard(&mut self, scancode: u8) -> (r: KeyboardEvent)
        ensures
            r@ == old(self).pressed(scancode),
            final(self).seen() == old(self).seen().push(scancode),
            final(self).app_cursor_mode() == old(self).app_cursor_mode(),
            final(self).crnl_mapping() == old(self).crnl_mapping(),
    {
        match keyboard_decode(&mut self.keyboard, scancode) {
            Some(key) => self.key_to_event(key),
            None => KeyboardEvent::NoEvent,
        }
    }

    /// What the key asks for under the modifiers that are held now.
    pub fn key_to_event(&self, key: DecodedKey) -> (r: KeyboardEvent)
        ensures
            r@ == self.event_now(key),
    {
        let (ctrl, shift) = keyboard_modifiers(&self.keyboard);
        event_for(key, ctrl, shift, self.app_cursor_mode, self.crnl_mapping)
    }
}

} // verus!
