use std::sync::{Arc, Mutex};

use os_terminal::ansi::{Attr, CursorShape, Mode, ScreenClearMode};
use os_terminal::cell::Flags;
use os_terminal::font::{ContentInfo, FontManager, Rasterized};
use os_terminal::graphic::{DrawTarget, Graphic};
use os_terminal::parser::Interpreter;
use os_terminal::performer::{Handler, Performer};
use os_terminal::terminal::{PtyWriter, Terminal};
use os_terminal::Rgb;

struct Blind;

impl DrawTarget for Blind {
    fn size(&self) -> (usize, usize) {
        (40, 30)
    }

    fn draw_pixel(&mut self, _x: usize, _y: usize, _color: Rgb) {}
}

struct Grid10;

impl FontManager for Grid10 {
    fn size(&self) -> (usize, usize) {
        (10, 10)
    }

    fn rasterize(&mut self, _info: ContentInfo) -> Rasterized<'_> {
        Rasterized::Owned(Vec::new())
    }
}

#[derive(Clone, Default)]
struct Wire(Arc<Mutex<Vec<String>>>);

impl PtyWriter for Wire {
    fn write(&mut self, data: &str) {
        self.0.lock().unwrap().push(data.to_string());
    }
}

#[test]
fn graphic_keeps_its_display() {
    let graphic = Graphic::new(Blind);
    assert_eq!(graphic.size(), (40, 30));
    assert_eq!(graphic.display().size(), (40, 30));
}

#[test]
fn processing_bytes_equals_performing_their_dispatches() {
    let bytes: &[u8] = b"ab\x1b[1mc\r\n\x1b[7md\x1b[2;2H\x1b[Ke\x1b[?1049hfg\x1b[?1049l\x1b[6n";
    let mut direct = Terminal::new(Blind);
    direct.set_font_manager(Box::new(Grid10));
    let wire_direct = Wire::default();
    direct.set_pty_writer(Box::new(wire_direct.clone()));
    direct.process(bytes);

    let mut stepwise = Terminal::new(Blind);
    stepwise.set_font_manager(Box::new(Grid10));
    let wire_stepwise = Wire::default();
    stepwise.set_pty_writer(Box::new(wire_stepwise.clone()));
    let mut interpreter = Interpreter::new();
    let dispatches = interpreter.advance(bytes);
    stepwise.process_dispatches(&dispatches);

    assert_eq!((direct.columns(), direct.rows()), (4, 3));
    for r in 0..3 {
        for c in 0..4 {
            assert_eq!(direct.screen().read(r, c), stepwise.screen().read(r, c));
        }
    }
    assert_eq!(direct.screen().cursor(), stepwise.screen().cursor());
    assert_eq!(direct.screen().mode(), stepwise.screen().mode());
    assert_eq!(*wire_direct.0.lock().unwrap(), *wire_stepwise.0.lock().unwrap());
    assert_eq!(*wire_direct.0.lock().unwrap(), vec!["\x1b[2;3R".to_string()]);
}

#[test]
fn calls_on_a_screen_are_the_calls_of_the_handler_interface() {
    let mut terminal = Terminal::new(Blind);
    terminal.set_font_manager(Box::new(Grid10));
    terminal.set_auto_flush(false);
    terminal.process(b"");
    let screen = terminal.screen();
    assert_eq!(screen.read(0, 0).flags.bits, Flags::CURSOR_BLOCK);
    assert_eq!(screen.cursor().shape, CursorShape::Block);
    assert_eq!(screen.rows(), 3);
    let _ = (Attr::Bold, Mode::Insert, ScreenClearMode::All);
}

struct Counter(usize);

impl Handler for Counter {
    fn input(&mut self, _content: char) {
        self.0 += 1;
    }
}

#[test]
fn performer_borrows_its_handler() {
    let mut counter = Counter(0);
    let mut interpreter = Interpreter::new();
    let dispatches = interpreter.advance(b"abc\x1b[31mdef");
    let mut performer = Performer::new(&mut counter);
    for dispatch in &dispatches {
        performer.advance(dispatch);
    }
    assert_eq!(counter.0, 6);
}

#[test]
fn color_commands_leave_the_screen_as_it_is() {
    let mut terminal = Terminal::new(Blind);
    terminal.set_font_manager(Box::new(Grid10));
    let wire = Wire::default();
    terminal.set_pty_writer(Box::new(wire.clone()));
    terminal.process(b"ab");
    let before: Vec<_> =
        (0..3).flat_map(|r| (0..4).map(move |c| (r, c))).map(|(r, c)| terminal.screen().read(r, c)).collect();
    let cursor = terminal.screen().cursor();
    terminal.process(b"\x1b]4;1;#ff0000\x07\x1b]10;?\x07\x1b]104\x07\x1b]111\x07");
    let after: Vec<_> =
        (0..3).flat_map(|r| (0..4).map(move |c| (r, c))).map(|(r, c)| terminal.screen().read(r, c)).collect();
    assert_eq!(before, after);
    assert_eq!(terminal.screen().cursor(), cursor);
    assert!(wire.0.lock().unwrap().is_empty());
}
