use std::sync::{Arc, Mutex};

use vte::ansi::Timeout;

use os_terminal::ansi::{Action, CursorShape, Mode, Notice};
use os_terminal::cell::{Cell, Color, Flags};
use os_terminal::clipboard::ClipboardHandler;
use os_terminal::font::{ContentInfo, FontManager, Rasterized};
use os_terminal::graphic::DrawTarget;
use os_terminal::keyboard::KeyboardEvent;
use os_terminal::mouse::{MouseButton, MouseInput};
use os_terminal::palette::Palette;
use os_terminal::parser::Dispatch;
use os_terminal::screen::TerminalMode;
use os_terminal::terminal::{
    is_unhandled, BellHandler, DummySyncHandler, Logger, PtyWriter, Terminal,
};
use os_terminal::Rgb;

struct Canvas {
    width: usize,
    height: usize,
    pixels: Vec<Option<Rgb>>,
    writes: Arc<Mutex<usize>>,
}

impl Canvas {
    fn new(width: usize, height: usize) -> Canvas {
        Canvas { width, height, pixels: vec![None; width * height], writes: Arc::new(Mutex::new(0)) }
    }
}

impl DrawTarget for Canvas {
    fn size(&self) -> (usize, usize) {
        (self.width, self.height)
    }

    fn draw_pixel(&mut self, x: usize, y: usize, color: Rgb) {
        assert!(x < self.width && y < self.height, "pixel ({x}, {y}) lies off the display");
        *self.writes.lock().unwrap() += 1;
        self.pixels[y * self.width + x] = Some(color);
    }
}

/// A font whose cells are 2 by 2 pixels and whose glyphs are solid.
struct BlockFont;

impl FontManager for BlockFont {
    fn size(&self) -> (usize, usize) {
        (2, 2)
    }

    fn rasterize(&mut self, info: ContentInfo) -> Rasterized<'_> {
        let width = if info.wide { 4 } else { 2 };
        let level = if info.content == ' ' { 0 } else { 255 };
        Rasterized::Owned(vec![vec![level; width]; 2])
    }
}

struct SizedFont(usize, usize);

impl FontManager for SizedFont {
    fn size(&self) -> (usize, usize) {
        (self.0, self.1)
    }

    fn rasterize(&mut self, _info: ContentInfo) -> Rasterized<'_> {
        Rasterized::Owned(Vec::new())
    }
}

#[derive(Clone, Default)]
struct Wire(Arc<Mutex<Vec<String>>>);

impl Wire {
    fn sent(&self) -> Vec<String> {
        self.0.lock().unwrap().clone()
    }
}

impl PtyWriter for Wire {
    fn write(&mut self, data: &str) {
        self.0.lock().unwrap().push(data.to_string());
    }
}

#[derive(Clone, Default)]
struct Board(Arc<Mutex<Option<String>>>);

impl ClipboardHandler for Board {
    fn get_text(&mut self) -> Option<String> {
        self.0.lock().unwrap().clone()
    }

    fn set_text(&mut self, text: String) {
        *self.0.lock().unwrap() = Some(text);
    }
}

#[derive(Clone, Default)]
struct Bell(Arc<Mutex<usize>>);

impl BellHandler for Bell {
    fn ring(&mut self) {
        *self.0.lock().unwrap() += 1;
    }
}

fn terminal(columns: usize, rows: usize) -> Terminal<Canvas> {
    let mut terminal = Terminal::new(Canvas::new(2 * columns + 1, 2 * rows + 1));
    terminal.set_font_manager(Box::new(BlockFont));
    assert_eq!(terminal.columns(), columns);
    assert_eq!(terminal.rows(), rows);
    terminal
}

fn wired(columns: usize, rows: usize) -> (Terminal<Canvas>, Wire) {
    let mut terminal = terminal(columns, rows);
    let wire = Wire::default();
    terminal.set_pty_writer(Box::new(wire.clone()));
    (terminal, wire)
}

fn row_text(terminal: &Terminal<Canvas>, row: usize) -> String {
    (0..terminal.columns()).map(|c| terminal.screen().read(row, c).content).collect()
}

fn column_text(terminal: &Terminal<Canvas>, column: usize) -> String {
    (0..terminal.rows()).map(|r| terminal.screen().read(r, column).content).collect()
}

fn position(terminal: &Terminal<Canvas>) -> (usize, usize) {
    let cursor = terminal.screen().cursor();
    (cursor.row, cursor.column)
}

fn writes(terminal: &Terminal<Canvas>) -> usize {
    *terminal.inner().graphic().display().writes.lock().unwrap()
}

fn press(terminal: &mut Terminal<Canvas>, scancodes: &[u8]) {
    for &code in scancodes {
        terminal.handle_keyboard(code);
    }
}

#[test]
fn scenario_plain_text_with_wrap() {
    let mut terminal = terminal(3, 3);
    terminal.process(b"ABCDE");
    assert_eq!(row_text(&terminal, 0), "ABC");
    assert_eq!(row_text(&terminal, 1), "DE ");
    assert_eq!(row_text(&terminal, 2), "   ");
    assert_eq!(position(&terminal), (1, 2));
    assert_eq!(terminal.screen().read(0, 0), Cell { content: 'A', ..Cell::default() });
    assert_eq!(terminal.screen().read(1, 2).flags.bits, Flags::CURSOR_BLOCK);
}

#[test]
fn scenario_line_feed_without_carriage_return() {
    let mut terminal = terminal(4, 4);
    terminal.process(b"\x1b[1;3H");
    assert_eq!(position(&terminal), (0, 2));
    terminal.process(b"\n");
    assert_eq!(position(&terminal), (1, 2));
}

#[test]
fn scenario_line_feed_with_carriage_return() {
    let mut terminal = terminal(4, 4);
    terminal.set_crnl_mapping(true);
    terminal.process(b"\x1b[1;3H");
    assert_eq!(position(&terminal), (0, 2));
    terminal.process(b"\n");
    assert_eq!(position(&terminal), (1, 0));
}

#[test]
fn scenario_sgr_and_content() {
    let mut terminal = terminal(4, 2);
    terminal.process(b"\x1b[1;31mX\x1b[0mY");
    let x = terminal.screen().read(0, 0);
    assert_eq!(x.content, 'X');
    assert_eq!(x.flags.bits, Flags::BOLD);
    assert!(x.flags.contains(Flags::BOLD));
    assert_eq!(x.foreground, Color::Indexed(1));
    assert_eq!(x.background, Cell::default().background);
    let y = terminal.screen().read(0, 1);
    assert_eq!(y, Cell { content: 'Y', ..Cell::default() });
    assert_eq!(terminal.screen().attribute_template(), Cell::default());
}

#[test]
fn scenario_scroll_region() {
    let mut terminal = terminal(2, 5);
    terminal.process(b"a\r\nb\r\nc\r\nd\r\ne");
    assert_eq!(column_text(&terminal, 0), "abcde");
    terminal.process(b"\x1b[2;4r");
    assert_eq!(terminal.screen().scroll_region(), 1..4);
    assert_eq!(position(&terminal), (0, 0));
    terminal.process(b"\x1b[4;1H");
    assert_eq!(position(&terminal), (3, 0));
    terminal.process(b"\n");
    assert_eq!(column_text(&terminal, 0), "acd e");
    assert_eq!(terminal.screen().read(0, 0).content, 'a');
    assert_eq!(terminal.screen().read(4, 0).content, 'e');
    assert_eq!(position(&terminal), (3, 0));
    assert_eq!(terminal.screen().buffer().total_rows(), 5);
}

#[test]
fn scenario_alternate_screen() {
    let mut terminal = terminal(8, 3);
    terminal.process(b"one\r\ntwo\r\nthree\r\nhello");
    let rows = terminal.screen().buffer().total_rows();
    assert_eq!(rows, 4);
    let cursor = terminal.screen().cursor();
    let before: Vec<String> = (0..3).map(|r| row_text(&terminal, r)).collect();
    assert_eq!(before, vec!["two     ", "three   ", "hello   "]);
    terminal.process(b"\x1b[?1049h");
    assert!(terminal.screen().mode().contains(TerminalMode::ALT_SCREEN));
    assert_eq!(row_text(&terminal, 2), "        ");
    terminal.process(b"alt");
    assert_eq!(row_text(&terminal, 0), "alt     ");
    assert_eq!(terminal.screen().buffer().total_rows(), 3);
    terminal.process(b"\x1b[?1049l");
    let after: Vec<String> = (0..3).map(|r| row_text(&terminal, r)).collect();
    assert_eq!(after, before);
    assert_eq!(terminal.screen().cursor(), cursor);
    assert_eq!(terminal.screen().buffer().total_rows(), rows);
    assert!(!terminal.screen().mode().contains(TerminalMode::ALT_SCREEN));
    for r in 0..3 {
        for c in 0..8 {
            let cell = terminal.screen().read(r, c);
            let expected = if (r, c) == (2, 5) { Flags::CURSOR_BLOCK } else { 0 };
            assert_eq!(cell.flags.bits, expected);
        }
    }
}

#[test]
fn scenario_device_status() {
    let (mut terminal, wire) = wired(20, 5);
    terminal.process(b"\x1b[3;8H");
    assert_eq!(position(&terminal), (2, 7));
    assert!(wire.sent().is_empty());
    terminal.process(b"\x1b[6n");
    assert_eq!(wire.sent(), vec!["\x1b[3;8R".to_string()]);
    assert_eq!(position(&terminal), (2, 7));
}

#[test]
fn device_reports_go_to_the_writer_in_order() {
    let (mut terminal, wire) = wired(20, 5);
    terminal.process(b"\x1b[5n\x1b[c\x1b[>c\x1b[?u\x1bZ\x1b[2;2H\x1b[6n");
    assert_eq!(
        wire.sent(),
        vec!["\x1b[0n", "\x1b[?6c", "\x1b[>0;100;1c", "\x1b[?0u", "\x1b[?6c", "\x1b[2;2R"]
    );
}

#[test]
fn reports_without_a_writer_are_dropped() {
    let mut terminal = terminal(4, 4);
    terminal.process(b"\x1b[6n\x07\x1b]52;c;?\x07x");
    assert_eq!(row_text(&terminal, 0), "x   ");
}

#[test]
fn new_terminal_is_one_cell() {
    let terminal = Terminal::new(Canvas::new(10, 10));
    assert_eq!(terminal.rows(), 1);
    assert_eq!(terminal.columns(), 1);
    assert_eq!(writes(&terminal), 100);
    assert_eq!(terminal.screen().mode().bits, TerminalMode::SHOW_CURSOR | TerminalMode::LINE_WRAP);
}

#[test]
fn font_manager_sets_the_grid() {
    let mut terminal = Terminal::new(Canvas::new(405, 300));
    terminal.set_font_manager(Box::new(SizedFont(8, 16)));
    assert_eq!(terminal.columns(), 50);
    assert_eq!(terminal.rows(), 18);
    assert_eq!(terminal.screen().scroll_region(), 0..18);
    terminal.process(b"hi");
    terminal.set_font_manager(Box::new(SizedFont(0, 16)));
    assert_eq!((terminal.columns(), terminal.rows()), (50, 18));
    terminal.set_font_manager(Box::new(SizedFont(8, 400)));
    assert_eq!((terminal.columns(), terminal.rows()), (50, 18));
    assert_eq!(row_text(&terminal, 0).trim_end(), "hi");
    terminal.set_font_manager(Box::new(SizedFont(81, 100)));
    assert_eq!((terminal.columns(), terminal.rows()), (5, 3));
    assert_eq!(row_text(&terminal, 0), "     ");
}

#[test]
fn cursor_is_drawn_where_it_ends_up() {
    let mut terminal = terminal(4, 2);
    assert_eq!(terminal.screen().read(0, 0).flags.bits, 0);
    terminal.process(b"");
    assert_eq!(terminal.screen().read(0, 0).flags.bits, Flags::CURSOR_BLOCK);
    terminal.process(b"ab");
    assert_eq!(terminal.screen().read(0, 0).flags.bits, 0);
    assert_eq!(terminal.screen().read(0, 2).flags.bits, Flags::CURSOR_BLOCK);
    terminal.process(b"\x1b[5 q");
    assert_eq!(terminal.screen().cursor().shape, CursorShape::Beam);
    assert_eq!(terminal.screen().read(0, 2).flags.bits, Flags::CURSOR_BEAM);
    terminal.process(b"\x1b[?25l");
    assert_eq!(terminal.screen().read(0, 2).flags.bits, 0);
    terminal.process(b"\x1b[?25h\x1b]50;CursorShape=2\x07");
    assert_eq!(terminal.screen().read(0, 2).flags.bits, Flags::CURSOR_UNDERLINE);
}

#[test]
fn flush_paints_only_what_changed() {
    let mut terminal = terminal(3, 2);
    terminal.set_auto_flush(false);
    let start = writes(&terminal);
    terminal.process(b"a");
    assert_eq!(writes(&terminal), start);
    terminal.flush();
    assert_eq!(writes(&terminal), start + 2 * 4);
    for r in 0..2 {
        for c in 0..3 {
            let buffer = terminal.screen().buffer();
            assert_eq!(buffer.last_painted(r, c), buffer.read(r, c));
        }
    }
    terminal.flush();
    assert_eq!(writes(&terminal), start + 2 * 4);
    terminal.process(b"\x1b[2;3H");
    terminal.flush();
    assert_eq!(writes(&terminal), start + 4 * 4);
    terminal.set_auto_flush(true);
    terminal.process(b"\x1b[1;1H");
    assert_eq!(writes(&terminal), start + 6 * 4);
}

#[test]
fn flush_leaves_the_snapshot_equal_to_the_viewport() {
    let mut terminal = terminal(4, 3);
    terminal.process(b"\x1b[1;31mab\r\n\x1b[7mcd\x1b[0m\r\n\r\n\r\nxyz");
    terminal.flush();
    let buffer = terminal.screen().buffer();
    for r in 0..3 {
        for c in 0..4 {
            assert_eq!(buffer.last_painted(r, c), buffer.read(r, c));
        }
    }
}

#[test]
fn color_scheme_change_repaints_everything() {
    let mut terminal = terminal(3, 2);
    terminal.process(b"\x1b[1mab");
    let before = writes(&terminal);
    terminal.set_color_scheme(2);
    assert_eq!(writes(&terminal), before + 6 * 4 + 6 + 5);
    assert_eq!(terminal.screen().attribute_template(), Cell::default());
    assert_eq!(
        terminal.inner().graphic().color_to_rgb(Color::Indexed(256)),
        Palette::preset(2).unwrap().foreground
    );
    let palette = Palette::build((0x010203, 0x040506), [0x111111; 16]);
    terminal.set_custom_color_scheme(&palette);
    let graphic = terminal.inner().graphic();
    assert_eq!(graphic.color_to_rgb(Color::Indexed(256)), (1, 2, 3));
    assert_eq!(graphic.color_to_rgb(Color::Indexed(257)), (4, 5, 6));
    assert_eq!(graphic.color_to_rgb(Color::Indexed(3)), (0x11, 0x11, 0x11));
    assert_eq!(graphic.display().pixels[6], Some((4, 5, 6)));
    assert_eq!(graphic.display().pixels[0], Some((1, 2, 3)));
}

#[test]
fn bell_rings_at_the_host() {
    let mut terminal = terminal(4, 2);
    let bell = Bell::default();
    terminal.set_bell_handler(Box::new(bell.clone()));
    terminal.process(b"a\x07b\x07\x07");
    assert_eq!(*bell.0.lock().unwrap(), 3);
    assert_eq!(row_text(&terminal, 0), "ab  ");
}

#[test]
fn clipboard_store_decodes_the_payload() {
    let mut terminal = terminal(4, 2);
    let board = Board::default();
    terminal.set_clipboard(Box::new(board.clone()));
    terminal.process(b"\x1b]52;c;aGVsbG8=\x07");
    assert_eq!(board.0.lock().unwrap().as_deref(), Some("hello"));
    terminal.process(b"\x1b]52;c;!!!notbase64\x07");
    assert_eq!(board.0.lock().unwrap().as_deref(), Some("hello"));
    terminal.process(b"\x1b]52;c;/w==\x07");
    assert_eq!(board.0.lock().unwrap().as_deref(), Some("hello"));
    terminal.process(b"\x1b]52;p;5Lit\x1b\\");
    assert_eq!(board.0.lock().unwrap().as_deref(), Some("\u{4e2d}"));
    terminal.process(b"\x1b]52;c;\x07");
    assert_eq!(board.0.lock().unwrap().as_deref(), Some(""));
}

#[test]
fn clipboard_load_reports_the_clipboard() {
    let (mut terminal, wire) = wired(4, 2);
    terminal.process(b"\x1b]52;c;?\x07");
    assert!(wire.sent().is_empty());
    let board = Board::default();
    terminal.set_clipboard(Box::new(board.clone()));
    terminal.process(b"\x1b]52;c;?\x07");
    assert!(wire.sent().is_empty());
    *board.0.lock().unwrap() = Some("hello".to_string());
    terminal.process(b"\x1b]52;c;?\x07");
    terminal.process(b"\x1b]52;p;?\x1b\\");
    terminal.process(b"\x1b]52;;?\x07");
    assert_eq!(
        wire.sent(),
        vec!["\x1b]52;c;aGVsbG8=\x07", "\x1b]52;p;aGVsbG8=\x1b\\", "\x1b]52;c;aGVsbG8=\x07"]
    );
}

#[test]
fn keyboard_text_goes_to_the_writer_and_snaps_to_the_latest_rows() {
    let (mut terminal, wire) = wired(2, 2);
    terminal.process(b"abcdefgh");
    terminal.handle_mouse(MouseInput::Scroll(2));
    let buffer = terminal.screen().buffer();
    assert_eq!(buffer.start_row(), 0);
    assert_eq!(buffer.total_rows(), 4);
    press(&mut terminal, &[0x1e]);
    assert_eq!(wire.sent(), vec!["a"]);
    let buffer = terminal.screen().buffer();
    assert_eq!(buffer.start_row(), buffer.total_rows() - buffer.height());
    assert_eq!(buffer.start_row(), 2);
    press(&mut terminal, &[0x9e, 0x1c, 0x9c, 0x0e, 0x8e, 0xe0, 0x53, 0xe0, 0xd3, 0x3b, 0xbb]);
    assert_eq!(wire.sent(), vec!["a", "\r", "\x7f", "\x1b[3~", "\x1bOP"]);
}

#[test]
fn key_events_are_dealt_with() {
    let (mut terminal, wire) = wired(2, 2);
    terminal.process(b"abcdefgh");
    terminal.handle_key_event(KeyboardEvent::Scroll { up: false, page: false });
    assert_eq!(terminal.screen().buffer().start_row(), 1);
    terminal.handle_key_event(KeyboardEvent::Scroll { up: true, page: false });
    assert_eq!(terminal.screen().buffer().start_row(), 2);
    terminal.handle_key_event(KeyboardEvent::Scroll { up: false, page: true });
    assert_eq!(terminal.screen().buffer().start_row(), 0);
    terminal.handle_key_event(KeyboardEvent::Scroll { up: true, page: true });
    assert_eq!(terminal.screen().buffer().start_row(), 2);
    terminal.handle_key_event(KeyboardEvent::Scroll { up: false, page: true });
    terminal.handle_key_event(KeyboardEvent::Copy);
    terminal.handle_key_event(KeyboardEvent::NoEvent);
    terminal.handle_key_event(KeyboardEvent::Paste);
    assert_eq!(terminal.screen().buffer().start_row(), 0);
    assert!(wire.sent().is_empty());
    terminal.handle_key_event(KeyboardEvent::AnsiString("ls\r".to_string()));
    assert_eq!(terminal.screen().buffer().start_row(), 2);
    assert_eq!(wire.sent(), vec!["ls\r"]);
    terminal.handle_key_event(KeyboardEvent::SetColorScheme(4));
    assert_eq!(
        terminal.inner().graphic().color_to_rgb(Color::Indexed(257)),
        Palette::preset(4).unwrap().background
    );
}

#[test]
fn paste_sends_the_clipboard() {
    let (mut terminal, wire) = wired(4, 2);
    let board = Board::default();
    terminal.set_clipboard(Box::new(board.clone()));
    terminal.handle_key_event(KeyboardEvent::Paste);
    assert!(wire.sent().is_empty());
    *board.0.lock().unwrap() = Some("echo hi".to_string());
    terminal.handle_key_event(KeyboardEvent::Paste);
    terminal.process(b"\x1b[?2004h");
    terminal.handle_key_event(KeyboardEvent::Paste);
    terminal.process(b"\x1b[?2004l");
    press(&mut terminal, &[0x1d, 0x2a, 0x2f, 0xaf, 0xaa, 0x9d]);
    assert_eq!(wire.sent(), vec!["echo hi", "\x1b[200~echo hi\x1b[201~", "echo hi"]);
}

#[test]
fn palette_keys_switch_the_color_scheme() {
    let mut terminal = terminal(2, 2);
    press(&mut terminal, &[0x1d, 0x2a, 0x3d, 0xbd, 0xaa, 0x9d]);
    assert_eq!(
        terminal.inner().graphic().color_to_rgb(Color::Indexed(256)),
        Palette::preset(2).unwrap().foreground
    );
}

#[test]
fn cursor_keys_follow_the_application_mode() {
    let (mut terminal, wire) = wired(4, 2);
    press(&mut terminal, &[0xe0, 0x48, 0xe0, 0xc8]);
    terminal.process(b"\x1b[?1h");
    press(&mut terminal, &[0xe0, 0x48, 0xe0, 0xc8, 0xe0, 0x4b, 0xe0, 0xcb]);
    terminal.process(b"\x1b[?1l");
    press(&mut terminal, &[0xe0, 0x50, 0xe0, 0xd0]);
    assert_eq!(wire.sent(), vec!["\x1b[A", "\x1bOA", "\x1bOD", "\x1b[B"]);
}

#[test]
fn mouse_wheel_scrolls_the_history_on_the_primary_screen() {
    let (mut terminal, wire) = wired(2, 2);
    terminal.process(b"abcdefghij");
    assert_eq!(terminal.screen().buffer().start_row(), 3);
    terminal.handle_mouse(MouseInput::Scroll(1));
    assert_eq!(terminal.screen().buffer().start_row(), 2);
    terminal.set_scroll_speed(2);
    terminal.handle_mouse(MouseInput::Scroll(1));
    assert_eq!(terminal.screen().buffer().start_row(), 0);
    terminal.handle_mouse(MouseInput::Scroll(-1));
    assert_eq!(terminal.screen().buffer().start_row(), 2);
    terminal.handle_mouse(MouseInput::Scroll(-9));
    assert_eq!(terminal.screen().buffer().start_row(), 3);
    terminal.handle_mouse(MouseInput::Move(1, 1));
    terminal.handle_mouse(MouseInput::Pressed(MouseButton::Left));
    terminal.handle_mouse(MouseInput::Released(MouseButton::Middle));
    terminal.handle_mouse(MouseInput::Pressed(MouseButton::Right));
    assert_eq!(terminal.screen().buffer().start_row(), 3);
    assert!(wire.sent().is_empty());
}

#[test]
fn mouse_wheel_sends_arrow_keys_on_the_alternate_screen() {
    let (mut terminal, wire) = wired(2, 2);
    terminal.process(b"abcdefgh\x1b[?1049h");
    terminal.handle_mouse(MouseInput::Scroll(3));
    terminal.handle_mouse(MouseInput::Scroll(-2));
    terminal.handle_mouse(MouseInput::Scroll(0));
    terminal.process(b"\x1b[?1h");
    terminal.set_scroll_speed(2);
    terminal.handle_mouse(MouseInput::Scroll(1));
    assert_eq!(
        wire.sent(),
        vec!["\x1b[A\x1b[A\x1b[A", "\x1b[B\x1b[B", "", "\x1bOA\x1bOA"]
    );
    assert_eq!(terminal.screen().buffer().start_row(), 0);
}

#[test]
fn history_size_caps_the_scrollback() {
    let mut terminal = terminal(1, 2);
    terminal.set_history_size(3);
    terminal.process(b"abcdefghij");
    let buffer = terminal.screen().buffer();
    assert_eq!(buffer.total_rows(), 5);
    assert_eq!(buffer.start_row(), 3);
    assert_eq!(column_text(&terminal, 0), "ij");
}

#[test]
fn processing_dispatches_directly() {
    let mut terminal = terminal(4, 2);
    terminal.process_dispatches(&vec![
        Dispatch::Print('h'),
        Dispatch::Execute(0x0d),
        Dispatch::Execute(0x0a),
        Dispatch::Csi(vec![vec![1]], Vec::new(), false, 'm'),
        Dispatch::Print('i'),
        Dispatch::Esc(Vec::new(), false, b'M'),
    ]);
    assert_eq!(row_text(&terminal, 0), "h   ");
    assert_eq!(terminal.screen().read(1, 0).content, 'i');
    assert_eq!(terminal.screen().read(1, 0).flags.bits, Flags::BOLD);
    assert_eq!(position(&terminal), (0, 1));
}

#[test]
fn split_sequences_are_finished_by_the_next_call() {
    let mut terminal = terminal(4, 2);
    terminal.process(b"\x1b[3");
    terminal.process(b"1");
    terminal.process(b"mq");
    assert_eq!(terminal.screen().read(0, 0).foreground, Color::Indexed(1));
    assert_eq!(terminal.screen().read(0, 0).content, 'q');
}

#[test]
fn full_screen_programs_see_a_fuzz_of_bytes_without_harm() {
    let mut terminal = Terminal::new(Canvas::new(405, 300));
    terminal.set_font_manager(Box::new(SizedFont(8, 16)));
    terminal.set_auto_flush(false);
    let mut seed: u32 = 12345;
    let mut bytes = Vec::new();
    for _ in 0..20000 {
        seed = seed.wrapping_mul(1664525).wrapping_add(1013904223);
        let pick = (seed >> 24) as u8;
        bytes.push(match pick % 8 {
            0 => 0x1b,
            1 => b'[',
            2 => b';',
            3 => b'0' + (pick >> 3) % 10,
            4 => b"ABCDHJKLMPSTXZ@`abcdefghlmnrstu"[(pick as usize >> 3) % 31],
            5 => b'?',
            6 => b"\n\r\t\x08\x07\x0e\x0f"[(pick as usize >> 3) % 7],
            _ => 0x20 + (pick >> 1) % 0x5f,
        });
    }
    for chunk in bytes.chunks(97) {
        terminal.process(chunk);
        let buffer = terminal.screen().buffer();
        assert!(buffer.total_rows() >= buffer.height());
        assert!(buffer.start_row() <= buffer.total_rows() - buffer.height());
        let cursor = terminal.screen().cursor();
        assert!(cursor.row < terminal.rows() && cursor.column <= terminal.columns());
        let region = terminal.screen().scroll_region();
        assert!(region.start < region.end && region.end <= terminal.rows());
    }
    terminal.flush();
}

#[test]
fn no_timeout_is_ever_pending() {
    let mut handler = DummySyncHandler::default();
    assert!(!handler.pending_timeout());
    handler.set_timeout(std::time::Duration::from_millis(150));
    assert!(!handler.pending_timeout());
    handler.clear_timeout();
    assert!(!handler.pending_timeout());
}

#[derive(Clone, Default)]
struct Journal(Arc<Mutex<Vec<Notice>>>);

impl Journal {
    fn notices(&self) -> Vec<Notice> {
        self.0.lock().unwrap().clone()
    }
}

impl Logger for Journal {
    fn log(&mut self, notice: Notice) {
        self.0.lock().unwrap().push(notice);
    }
}

#[test]
fn unhandled_calls_go_to_the_logger() {
    let (mut terminal, wire) = wired(10, 3);
    let journal = Journal::default();
    terminal.set_logger(Box::new(journal.clone()));
    terminal.process(b"ab\x1b[1m\x1b[2;2H\r\n");
    assert!(journal.notices().is_empty());
    terminal.process(b"\x1b]2;title\x07");
    terminal.process(b"\x1b]4;1;#ff0000\x07");
    terminal.process(b"\x1b[3g");
    terminal.process(b"\x1bH");
    terminal.process(b"\x1b#8");
    terminal.process(b"\x1b[?25l\x1b[?1000h\x1b[4h\x1b[?1006l");
    assert_eq!(
        journal.notices(),
        vec![
            Notice::Unhandled(Action::SetTitle),
            Notice::Unhandled(Action::SetColor(1, 255, 0, 0)),
            Notice::Unhandled(Action::ClearTabs(os_terminal::ansi::TabulationClearMode::All)),
            Notice::Unhandled(Action::SetHorizontalTabstop),
            Notice::Unhandled(Action::Decaln),
            Notice::Unhandled(Action::SetPrivateMode(Mode::ReportMouseClicks)),
            Notice::Unhandled(Action::UnsetPrivateMode(Mode::SgrMouse)),
        ]
    );
    assert!(wire.sent().is_empty());
}

#[test]
fn unknown_sequences_go_to_the_logger() {
    let mut terminal = terminal(10, 3);
    let journal = Journal::default();
    terminal.set_logger(Box::new(journal.clone()));
    terminal.process(b"x\x1b[5z\x01\x1bQ\x1b]999;what\x07y");
    assert_eq!(
        journal.notices(),
        vec![
            Notice::UnknownCsi('z'),
            Notice::UnknownControl(0x01),
            Notice::UnknownEsc(b'Q'),
            Notice::UnknownOsc,
        ]
    );
    assert_eq!(row_text(&terminal, 0), "xy        ");
    assert_eq!(position(&terminal), (0, 2));
}

#[test]
fn without_a_logger_notices_are_dropped() {
    let mut terminal = terminal(10, 3);
    terminal.process(b"x\x1b[5z\x1b]2;title\x07y");
    assert_eq!(row_text(&terminal, 0), "xy        ");
}

#[test]
fn the_terminal_knows_what_it_has_nothing_to_do_for() {
    assert!(is_unhandled(Action::SetTitle));
    assert!(is_unhandled(Action::PushTitle));
    assert!(is_unhandled(Action::PopTitle));
    assert!(is_unhandled(Action::Substitute));
    assert!(is_unhandled(Action::TextAreaSizeChars));
    assert!(is_unhandled(Action::TextAreaSizePixels));
    assert!(is_unhandled(Action::PushKeyboardMode(1)));
    assert!(is_unhandled(Action::PopKeyboardModes(1)));
    assert!(is_unhandled(Action::ResetColor(3)));
    assert!(is_unhandled(Action::DynamicColorSequence(256, true)));
    assert!(!is_unhandled(Action::Input('a')));
    assert!(!is_unhandled(Action::Bell));
    assert!(!is_unhandled(Action::DeviceStatus(6)));
    assert!(!is_unhandled(Action::ClipboardStore(b'c')));
    assert!(!is_unhandled(Action::ResetState));
    assert!(is_unhandled(Action::SetPrivateMode(Mode::Origin)));
    assert!(is_unhandled(Action::UnsetPrivateMode(Mode::Insert)));
    assert!(is_unhandled(Action::SetMode(Mode::ShowCursor)));
    assert!(!is_unhandled(Action::SetMode(Mode::Insert)));
    assert!(!is_unhandled(Action::UnsetMode(Mode::LineFeedNewLine)));
    assert!(!is_unhandled(Action::SetPrivateMode(Mode::SwapScreenAndSetRestoreCursor)));
    assert!(!is_unhandled(Action::UnsetPrivateMode(Mode::BracketedPaste)));
}

#[test]
fn the_preceding_character_is_repeated() {
    let mut terminal = terminal(10, 3);
    terminal.process(b"x\x1b[2b");
    assert_eq!(row_text(&terminal, 0), "xxx       ");
    assert_eq!(position(&terminal), (0, 3));
    terminal.process(b"\x1b[b");
    assert_eq!(row_text(&terminal, 0), "xxxx      ");
    terminal.process(b"\r\ny\x1b[1m\x1b[0b");
    assert_eq!(row_text(&terminal, 1), "yy        ");
    assert!(terminal.screen().read(1, 1).flags.contains(Flags::BOLD));
    assert!(!terminal.screen().read(1, 0).flags.contains(Flags::BOLD));
}

#[test]
fn nothing_is_repeated_before_the_first_character() {
    let mut terminal = terminal(10, 3);
    let journal = Journal::default();
    terminal.set_logger(Box::new(journal.clone()));
    terminal.process(b"\x1b[3b");
    assert_eq!(row_text(&terminal, 0), "          ");
    assert_eq!(position(&terminal), (0, 0));
    assert_eq!(journal.notices(), vec![Notice::UnknownCsi('b')]);
}

#[test]
fn a_repetition_wraps_like_typed_text() {
    let mut terminal = terminal(3, 3);
    terminal.process(b"ab\x1b[3b");
    assert_eq!(row_text(&terminal, 0), "abb");
    assert_eq!(row_text(&terminal, 1), "bb ");
    assert_eq!(position(&terminal), (1, 2));
}
