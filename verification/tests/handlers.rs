use os_terminal::ansi::{Action, Attr, LineClearMode, Mode};
use os_terminal::parser::{Dispatch, Interpreter};
use os_terminal::performer::{perform, Handler, Performer};

#[derive(Default)]
struct Journal {
    typed: String,
    moves: Vec<(usize, usize)>,
    attrs: Vec<Attr>,
    modes: Vec<Mode>,
    stored: Vec<(u8, Vec<u8>)>,
    loads: Vec<(u8, bool)>,
    bells: usize,
    linefeeds: usize,
    cleared: Vec<LineClearMode>,
    colors: Vec<(usize, (u8, u8, u8))>,
    resets: Vec<usize>,
    queries: Vec<(usize, bool)>,
}

impl Handler for Journal {
    fn input(&mut self, content: char) {
        self.typed.push(content);
    }

    fn goto(&mut self, row: usize, col: usize) {
        self.moves.push((row, col));
    }

    fn linefeed(&mut self) {
        self.linefeeds += 1;
    }

    fn bell(&mut self) {
        self.bells += 1;
    }

    fn clear_line(&mut self, mode: LineClearMode) {
        self.cleared.push(mode);
    }

    fn terminal_attribute(&mut self, attr: Attr) {
        self.attrs.push(attr);
    }

    fn set_private_mode(&mut self, mode: Mode) {
        self.modes.push(mode);
    }

    fn set_color(&mut self, index: usize, color: (u8, u8, u8)) {
        self.colors.push((index, color));
    }

    fn reset_color(&mut self, index: usize) {
        self.resets.push(index);
    }

    fn dynamic_color_sequence(&mut self, index: usize, bell_terminated: bool) {
        self.queries.push((index, bell_terminated));
    }

    fn clipboard_store(&mut self, clipboard: u8, base64: &[u8]) {
        self.stored.push((clipboard, base64.to_vec()));
    }

    fn clipboard_load(&mut self, clipboard: u8, bell_terminated: bool) {
        self.loads.push((clipboard, bell_terminated));
    }
}

struct Idle;

impl Handler for Idle {}

#[test]
fn performer_makes_the_calls_of_a_byte_stream() {
    let mut journal = Journal::default();
    let mut interpreter = Interpreter::new();
    let dispatches = interpreter.advance(
        b"hi\x1b[2;3H\n\x07\x1b[1;4m\x1b[K\x1b[?25h\x1b]52;c;aGk=\x07\x1b]52;p;?\x1b\\!",
    );
    {
        let mut performer = Performer::new(&mut journal);
        for dispatch in &dispatches {
            performer.advance(dispatch);
        }
    }
    assert_eq!(journal.typed, "hi!");
    assert_eq!(journal.moves, vec![(1, 2)]);
    assert_eq!(journal.linefeeds, 1);
    assert_eq!(journal.bells, 1);
    assert_eq!(journal.attrs, vec![Attr::Bold, Attr::Underline]);
    assert_eq!(journal.cleared, vec![LineClearMode::Right]);
    assert_eq!(journal.modes, vec![Mode::ShowCursor]);
    assert_eq!(journal.stored, vec![(b'c', b"aGk=".to_vec())]);
    assert_eq!(journal.loads, vec![(b'p', false)]);
}

#[test]
fn perform_makes_one_call() {
    let mut journal = Journal::default();
    perform(&mut journal, Action::Input('x'), &[]);
    perform(&mut journal, Action::Goto(4, 5), &[]);
    perform(&mut journal, Action::ClipboardStore(b's'), b"payload");
    perform(&mut journal, Action::MoveUp(3), &[]);
    perform(&mut journal, Action::ResetState, &[]);
    assert_eq!(journal.typed, "x");
    assert_eq!(journal.moves, vec![(4, 5)]);
    assert_eq!(journal.stored, vec![(b's', b"payload".to_vec())]);
}

#[test]
fn a_handler_without_methods_ignores_everything() {
    let mut idle = Idle;
    let mut performer = Performer::new(&mut idle);
    performer.advance(&Dispatch::Print('x'));
    performer.advance(&Dispatch::Csi(vec![vec![2]], Vec::new(), false, 'J'));
    performer.advance(&Dispatch::Osc(vec![b"0".to_vec(), b"t".to_vec()], true));
}

#[test]
fn performer_hands_on_the_color_commands() {
    let mut journal = Journal::default();
    let mut interpreter = Interpreter::new();
    let dispatches =
        interpreter.advance(b"\x1b]4;9;rgb:ff/80/00\x07\x1b]10;?;#000\x1b\\\x1b]104;3;4\x07\x1b]112\x07");
    {
        let mut performer = Performer::new(&mut journal);
        for dispatch in &dispatches {
            performer.advance(dispatch);
        }
    }
    assert_eq!(journal.colors, vec![(9, (255, 128, 0)), (257, (0, 0, 0))]);
    assert_eq!(journal.queries, vec![(256, false)]);
    assert_eq!(journal.resets, vec![3, 4, 258]);
    perform(&mut journal, Action::SetColor(5, 1, 2, 3), &[]);
    perform(&mut journal, Action::ResetColor(6), &[]);
    perform(&mut journal, Action::DynamicColorSequence(7, true), &[]);
    assert_eq!(journal.colors.last(), Some(&(5, (1, 2, 3))));
    assert_eq!(journal.resets.last(), Some(&6));
    assert_eq!(journal.queries.last(), Some(&(7, true)));
}
