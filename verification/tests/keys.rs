use os_terminal::clipboard::{clipboard_reply, clipboard_text, pasted};
use os_terminal::keyboard::{
    event_for, generate_ansi_sequence, handle_function, DecodedKey, KeyCode, KeyboardEvent,
    KeyboardManager,
};
use os_terminal::mouse::{MouseButton, MouseEvent, MouseInput, MouseManager};
use os_terminal::text::{repeat, string_of};

fn text(event: KeyboardEvent) -> Option<String> {
    match event {
        KeyboardEvent::AnsiString(text) => Some(text),
        _ => None,
    }
}

fn feed(keyboard: &mut KeyboardManager, scancodes: &[u8]) -> Vec<KeyboardEvent> {
    scancodes.iter().map(|&code| keyboard.handle_keyboard(code)).collect()
}

#[test]
fn function_keys_send_their_sequences() {
    let table = [
        (KeyCode::F1, "\x1bOP"),
        (KeyCode::F2, "\x1bOQ"),
        (KeyCode::F3, "\x1bOR"),
        (KeyCode::F4, "\x1bOS"),
        (KeyCode::F5, "\x1b[15~"),
        (KeyCode::F6, "\x1b[17~"),
        (KeyCode::F7, "\x1b[18~"),
        (KeyCode::F8, "\x1b[19~"),
        (KeyCode::F9, "\x1b[20~"),
        (KeyCode::F10, "\x1b[21~"),
        (KeyCode::F11, "\x1b[23~"),
        (KeyCode::F12, "\x1b[24~"),
        (KeyCode::HOME, "\x1b[H"),
        (KeyCode::END, "\x1b[F"),
        (KeyCode::PAGE_UP, "\x1b[5~"),
        (KeyCode::PAGE_DOWN, "\x1b[6~"),
    ];
    for (code, sequence) in table {
        assert_eq!(generate_ansi_sequence(code, false).as_deref(), Some(sequence));
        assert_eq!(generate_ansi_sequence(code, true).as_deref(), Some(sequence));
    }
    assert_eq!(generate_ansi_sequence(0, false), None);
    assert_eq!(generate_ansi_sequence(KeyCode::C, false), None);
    assert_eq!(generate_ansi_sequence(200, true), None);
}

#[test]
fn arrow_keys_follow_the_cursor_key_mode() {
    let table = [
        (KeyCode::ARROW_UP, "\x1b[A", "\x1bOA"),
        (KeyCode::ARROW_DOWN, "\x1b[B", "\x1bOB"),
        (KeyCode::ARROW_RIGHT, "\x1b[C", "\x1bOC"),
        (KeyCode::ARROW_LEFT, "\x1b[D", "\x1bOD"),
    ];
    for (code, normal, application) in table {
        assert_eq!(generate_ansi_sequence(code, false).as_deref(), Some(normal));
        assert_eq!(generate_ansi_sequence(code, true).as_deref(), Some(application));
    }
}

#[test]
fn control_shift_keys_are_commands() {
    for (i, code) in (KeyCode::F1..=KeyCode::F8).enumerate() {
        assert!(matches!(handle_function(code), Some(KeyboardEvent::SetColorScheme(n)) if n == i));
    }
    assert!(matches!(handle_function(KeyCode::C), Some(KeyboardEvent::Copy)));
    assert!(matches!(handle_function(KeyCode::V), Some(KeyboardEvent::Paste)));
    assert!(matches!(
        handle_function(KeyCode::ARROW_UP),
        Some(KeyboardEvent::Scroll { up: true, page: false })
    ));
    assert!(matches!(
        handle_function(KeyCode::PAGE_UP),
        Some(KeyboardEvent::Scroll { up: true, page: true })
    ));
    assert!(matches!(
        handle_function(KeyCode::ARROW_DOWN),
        Some(KeyboardEvent::Scroll { up: false, page: false })
    ));
    assert!(matches!(
        handle_function(KeyCode::PAGE_DOWN),
        Some(KeyboardEvent::Scroll { up: false, page: true })
    ));
    assert!(handle_function(KeyCode::F9).is_none());
    assert!(handle_function(KeyCode::ARROW_LEFT).is_none());
    assert!(handle_function(0).is_none());
}

#[test]
fn events_for_characters() {
    let plain = |c: char, crnl: bool| text(event_for(DecodedKey::Unicode(c), false, false, false, crnl));
    assert_eq!(plain('a', false).as_deref(), Some("a"));
    assert_eq!(plain('\u{4e2d}', false).as_deref(), Some("\u{4e2d}"));
    assert_eq!(plain('\x08', false).as_deref(), Some("\x7f"));
    assert_eq!(plain('\x7f', false).as_deref(), Some("\x1b[3~"));
    assert_eq!(plain('\n', false).as_deref(), Some("\r"));
    assert_eq!(plain('\n', true).as_deref(), Some("\n"));
    assert_eq!(plain('\r', false).as_deref(), Some("\r"));
    assert_eq!(plain('\x03', false).as_deref(), Some("\x03"));
}

#[test]
fn events_with_control_and_shift() {
    let held = |key: DecodedKey| event_for(key, true, true, false, false);
    assert!(matches!(held(DecodedKey::Unicode('\x03')), KeyboardEvent::Copy));
    assert!(matches!(held(DecodedKey::Unicode('\x16')), KeyboardEvent::Paste));
    assert!(matches!(held(DecodedKey::RawKey(KeyCode::F3)), KeyboardEvent::SetColorScheme(2)));
    assert!(matches!(
        held(DecodedKey::RawKey(KeyCode::PAGE_DOWN)),
        KeyboardEvent::Scroll { up: false, page: true }
    ));
    assert_eq!(text(held(DecodedKey::Unicode('A'))).as_deref(), Some("A"));
    assert_eq!(text(held(DecodedKey::RawKey(KeyCode::F9))).as_deref(), Some("\x1b[20~"));
    assert_eq!(text(held(DecodedKey::RawKey(KeyCode::ARROW_LEFT))).as_deref(), Some("\x1b[D"));
    assert!(matches!(held(DecodedKey::RawKey(0)), KeyboardEvent::NoEvent));
    let one = |ctrl, shift| event_for(DecodedKey::RawKey(KeyCode::F1), ctrl, shift, false, false);
    assert_eq!(text(one(true, false)).as_deref(), Some("\x1bOP"));
    assert_eq!(text(one(false, true)).as_deref(), Some("\x1bOP"));
    assert_eq!(text(one(false, false)).as_deref(), Some("\x1bOP"));
    assert_eq!(
        text(event_for(DecodedKey::RawKey(KeyCode::ARROW_UP), false, false, true, false)).as_deref(),
        Some("\x1bOA")
    );
    assert!(matches!(
        event_for(DecodedKey::RawKey(KeyCode::ARROW_UP), true, true, true, false),
        KeyboardEvent::Scroll { up: true, page: false }
    ));
}

#[test]
fn scancodes_become_events() {
    let mut keyboard = KeyboardManager::default();
    let events = feed(&mut keyboard, &[0x1e, 0x9e]);
    assert!(matches!(&events[0], KeyboardEvent::AnsiString(s) if s == "a"));
    assert!(matches!(events[1], KeyboardEvent::NoEvent));
    let events = feed(&mut keyboard, &[0x2a, 0x1e, 0x9e, 0xaa]);
    assert!(matches!(&events[1], KeyboardEvent::AnsiString(s) if s == "A"));
    let events = feed(&mut keyboard, &[0xe0, 0x48]);
    assert!(matches!(events[0], KeyboardEvent::NoEvent));
    assert!(matches!(&events[1], KeyboardEvent::AnsiString(s) if s == "\x1b[A"));
    feed(&mut keyboard, &[0xe0, 0xc8]);
    keyboard.set_app_cursor_mode(true);
    let events = feed(&mut keyboard, &[0xe0, 0x4d, 0xe0, 0xcd]);
    assert!(matches!(&events[1], KeyboardEvent::AnsiString(s) if s == "\x1bOC"));
    let keys: [(&[u8], &str); 12] = [
        (&[0x3b, 0xbb], "\x1bOP"),
        (&[0x3c, 0xbc], "\x1bOQ"),
        (&[0x44, 0xc4], "\x1b[21~"),
        (&[0x57, 0xd7], "\x1b[23~"),
        (&[0x58, 0xd8], "\x1b[24~"),
        (&[0xe0, 0x47, 0xe0, 0xc7], "\x1b[H"),
        (&[0xe0, 0x4f, 0xe0, 0xcf], "\x1b[F"),
        (&[0xe0, 0x49, 0xe0, 0xc9], "\x1b[5~"),
        (&[0xe0, 0x51, 0xe0, 0xd1], "\x1b[6~"),
        (&[0xe0, 0x50, 0xe0, 0xd0], "\x1bOB"),
        (&[0xe0, 0x4b, 0xe0, 0xcb], "\x1bOD"),
        (&[0x1c, 0x9c], "\r"),
    ];
    for (codes, expected) in keys {
        let sent: Vec<String> = feed(&mut keyboard, codes).into_iter().filter_map(text).collect();
        assert_eq!(sent, vec![expected.to_string()]);
    }
    keyboard.set_crnl_mapping(true);
    let sent: Vec<String> = feed(&mut keyboard, &[0x1c, 0x9c]).into_iter().filter_map(text).collect();
    assert_eq!(sent, vec!["\n".to_string()]);
}

#[test]
fn scancodes_with_control_and_shift() {
    let mut keyboard = KeyboardManager::default();
    feed(&mut keyboard, &[0x1d]);
    let events = feed(&mut keyboard, &[0x2e, 0xae]);
    assert!(matches!(&events[0], KeyboardEvent::AnsiString(s) if s == "\x03"));
    feed(&mut keyboard, &[0x2a]);
    let events = feed(&mut keyboard, &[0x2e, 0xae, 0x2f, 0xaf]);
    assert!(matches!(events[0], KeyboardEvent::Copy));
    assert!(matches!(events[2], KeyboardEvent::Paste));
    let events = feed(&mut keyboard, &[0x3b, 0xbb, 0x42, 0xc2]);
    assert!(matches!(events[0], KeyboardEvent::SetColorScheme(0)));
    assert!(matches!(events[2], KeyboardEvent::SetColorScheme(7)));
    let events = feed(&mut keyboard, &[0xe0, 0x48, 0xe0, 0xc8, 0xe0, 0x51, 0xe0, 0xd1]);
    assert!(matches!(events[1], KeyboardEvent::Scroll { up: true, page: false }));
    assert!(matches!(events[5], KeyboardEvent::Scroll { up: false, page: true }));
    assert!(matches!(
        keyboard.key_to_event(DecodedKey::RawKey(KeyCode::PAGE_UP)),
        KeyboardEvent::Scroll { up: true, page: true }
    ));
    feed(&mut keyboard, &[0xaa, 0x9d]);
    assert!(matches!(
        keyboard.key_to_event(DecodedKey::RawKey(KeyCode::PAGE_UP)),
        KeyboardEvent::AnsiString(s) if s == "\x1b[5~"
    ));
}

#[test]
fn mouse_wheel_is_scaled_by_the_scroll_speed() {
    let mut mouse = MouseManager::default();
    assert!(matches!(mouse.handle_mouse(MouseInput::Scroll(3)), MouseEvent::Scroll(3)));
    assert!(matches!(mouse.handle_mouse(MouseInput::Scroll(-2)), MouseEvent::Scroll(-2)));
    mouse.set_scroll_speed(4);
    assert!(matches!(mouse.handle_mouse(MouseInput::Scroll(3)), MouseEvent::Scroll(12)));
    assert!(matches!(mouse.handle_mouse(MouseInput::Scroll(-2)), MouseEvent::Scroll(-8)));
    assert!(matches!(mouse.handle_mouse(MouseInput::Scroll(0)), MouseEvent::Scroll(0)));
    mouse.set_scroll_speed(0);
    assert!(matches!(mouse.handle_mouse(MouseInput::Scroll(9)), MouseEvent::Scroll(0)));
    mouse.set_scroll_speed(usize::MAX);
    assert!(matches!(mouse.handle_mouse(MouseInput::Scroll(2)), MouseEvent::Scroll(isize::MAX)));
    assert!(matches!(mouse.handle_mouse(MouseInput::Scroll(-2)), MouseEvent::Scroll(isize::MIN)));
    assert!(matches!(mouse.handle_mouse(MouseInput::Scroll(isize::MIN)), MouseEvent::Scroll(isize::MIN)));
    mouse.set_scroll_speed(2);
    assert!(matches!(mouse.handle_mouse(MouseInput::Scroll(isize::MAX)), MouseEvent::Scroll(isize::MAX)));
}

#[test]
fn other_mouse_input_is_ignored() {
    let mut mouse = MouseManager::default();
    assert!(matches!(mouse.handle_mouse(MouseInput::Move(3, 4)), MouseEvent::NoEvent));
    assert!(matches!(mouse.handle_mouse(MouseInput::Pressed(MouseButton::Left)), MouseEvent::NoEvent));
    assert!(matches!(mouse.handle_mouse(MouseInput::Released(MouseButton::Right)), MouseEvent::NoEvent));
    assert!(matches!(mouse.handle_mouse(MouseInput::Pressed(MouseButton::Middle)), MouseEvent::NoEvent));
}

#[test]
fn clipboard_text_is_base64_of_utf8() {
    assert_eq!(clipboard_text(b"aGVsbG8=").as_deref(), Some("hello"));
    assert_eq!(clipboard_text(b"").as_deref(), Some(""));
    assert_eq!(clipboard_text(b"5Lit").as_deref(), Some("\u{4e2d}"));
    assert_eq!(clipboard_text(b"aGVsbG8"), None);
    assert_eq!(clipboard_text(b"aGVs bG8="), None);
    assert_eq!(clipboard_text(b"/w=="), None);
    assert_eq!(clipboard_text(&[0xff, 0xfe]), None);
    assert_eq!(clipboard_text(b"?"), None);
}

#[test]
fn clipboard_reply_is_an_osc_52_report() {
    assert_eq!(clipboard_reply(b'c', "hello", true).as_deref(), Some("\x1b]52;c;aGVsbG8=\x07"));
    assert_eq!(clipboard_reply(b'p', "hello", false).as_deref(), Some("\x1b]52;p;aGVsbG8=\x1b\\"));
    assert_eq!(clipboard_reply(b'c', "", true).as_deref(), Some("\x1b]52;c;\x07"));
    assert_eq!(clipboard_reply(b's', "\u{4e2d}", true).as_deref(), Some("\x1b]52;s;5Lit\x07"));
    assert_eq!(clipboard_reply(b'c', "ab", true).as_deref(), Some("\x1b]52;c;YWI=\x07"));
    assert_eq!(clipboard_reply(b'c', "a", true).as_deref(), Some("\x1b]52;c;YQ==\x07"));
}

#[test]
fn pasted_text_is_bracketed_on_request() {
    assert_eq!(pasted("ls -l", false), "ls -l");
    assert_eq!(pasted("ls -l", true), "\x1b[200~ls -l\x1b[201~");
    assert_eq!(pasted("", true), "\x1b[200~\x1b[201~");
    assert_eq!(pasted("", false), "");
}

#[test]
fn text_helpers() {
    assert_eq!(string_of(&['a', '\x1b', '\u{4e2d}']), "a\x1b\u{4e2d}");
    assert_eq!(string_of(&[]), "");
    assert_eq!(repeat("ab", 3), "ababab");
    assert_eq!(repeat("ab", 0), "");
    assert_eq!(repeat("", 5), "");
}
