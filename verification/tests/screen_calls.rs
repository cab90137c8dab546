use os_terminal::ansi::{
    Action, Attr, CharsetIndex, CursorShape, CursorStyle, LineClearMode, Mode, ScreenClearMode,
    StandardCharset,
};
use os_terminal::cell::{Cell, Color, Flags};
use os_terminal::screen::{Cursor, Screen, TerminalMode};

fn screen(columns: usize, rows: usize) -> Screen {
    let mut screen = Screen::new();
    assert!(screen.resize((1, 1), (columns, rows)));
    screen
}

fn type_text(screen: &mut Screen, text: &str) {
    for c in text.chars() {
        screen.input(c);
    }
}

fn row_text(screen: &Screen, row: usize) -> String {
    (0..screen.columns()).map(|c| screen.read(row, c).content).collect()
}

fn column_text(screen: &Screen, column: usize) -> String {
    (0..screen.rows()).map(|r| screen.read(r, column).content).collect()
}

fn position(screen: &Screen) -> (usize, usize) {
    (screen.cursor().row, screen.cursor().column)
}

fn lettered(columns: usize, rows: usize) -> Screen {
    let mut s = screen(columns, rows);
    for r in 0..rows {
        s.goto(r, 0);
        s.input((b'a' + r as u8) as char);
    }
    s.goto(0, 0);
    s
}

#[test]
fn new_screen_is_in_its_first_state() {
    let screen = Screen::new();
    assert_eq!(screen.rows(), 1);
    assert_eq!(screen.columns(), 1);
    assert_eq!(screen.cursor(), Cursor { row: 0, column: 0, shape: CursorShape::Block });
    assert_eq!(screen.cursor(), Cursor::default());
    assert_eq!(screen.saved_cursor(), Cursor::default());
    assert_eq!(screen.mode().bits, TerminalMode::SHOW_CURSOR | TerminalMode::LINE_WRAP);
    assert_eq!(screen.mode(), TerminalMode::default());
    assert_eq!(screen.attribute_template(), Cell::default());
    assert_eq!(screen.scroll_region(), 0..1);
    assert_eq!(screen.read(0, 0), Cell::default());
}

#[test]
fn resize_fits_whole_cells_and_resets_the_region() {
    let mut screen = Screen::new();
    assert!(screen.resize((8, 16), (405, 300)));
    assert_eq!(screen.columns(), 50);
    assert_eq!(screen.rows(), 18);
    assert_eq!(screen.scroll_region(), 0..18);
    assert!(!screen.resize((0, 16), (405, 300)));
    assert!(!screen.resize((8, 0), (405, 300)));
    assert!(!screen.resize((500, 16), (405, 300)));
    assert!(!screen.resize((8, 301), (405, 300)));
    assert_eq!(screen.columns(), 50);
    assert_eq!(screen.rows(), 18);
}

#[test]
fn resize_keeps_the_cursors_on_the_grid() {
    let mut s = screen(10, 10);
    s.goto(9, 9);
    s.save_cursor_position();
    s.input('x');
    assert_eq!(position(&s), (9, 10));
    assert!(s.resize((1, 1), (4, 3)));
    assert_eq!(position(&s), (2, 4));
    assert_eq!(s.saved_cursor().row, 2);
    assert_eq!(s.saved_cursor().column, 4);
}

#[test]
fn plain_text_wraps_at_the_end_of_the_row() {
    let mut s = screen(3, 3);
    type_text(&mut s, "ABCDE");
    assert_eq!(row_text(&s, 0), "ABC");
    assert_eq!(row_text(&s, 1), "DE ");
    assert_eq!(row_text(&s, 2), "   ");
    assert_eq!(position(&s), (1, 2));
}

#[test]
fn text_is_dropped_at_the_end_of_the_row_without_line_wrap() {
    let mut s = screen(3, 3);
    s.unset_private_mode(Mode::LineWrap);
    type_text(&mut s, "ABCDE");
    assert_eq!(row_text(&s, 0), "ABC");
    assert_eq!(row_text(&s, 1), "   ");
    assert_eq!(position(&s), (0, 3));
    s.set_private_mode(Mode::LineWrap);
    s.input('F');
    assert_eq!(row_text(&s, 1), "F  ");
}

#[test]
fn text_scrolls_at_the_bottom() {
    let mut s = screen(2, 2);
    type_text(&mut s, "abcdef");
    assert_eq!(row_text(&s, 0), "cd");
    assert_eq!(row_text(&s, 1), "ef");
    assert_eq!(position(&s), (1, 2));
    assert_eq!(s.buffer().total_rows(), 3);
    assert_eq!(s.buffer().start_row(), 1);
}

#[test]
fn input_carries_the_pen() {
    let mut s = screen(4, 2);
    s.terminal_attribute(Attr::Bold);
    s.terminal_attribute(Attr::Foreground(Color::Indexed(1)));
    s.terminal_attribute(Attr::Background(Color::Rgb(1, 2, 3)));
    s.input('X');
    let cell = s.read(0, 0);
    assert_eq!(cell.content, 'X');
    assert_eq!(cell.flags.bits, Flags::BOLD);
    assert_eq!(cell.foreground, Color::Indexed(1));
    assert_eq!(cell.background, Color::Rgb(1, 2, 3));
    assert!(!cell.wide);
    assert!(!cell.placeholder);
    assert_eq!(s.attribute_template().content, ' ');
}

#[test]
fn wide_glyph_takes_two_cells() {
    let mut s = screen(5, 2);
    s.terminal_attribute(Attr::Underline);
    s.terminal_attribute(Attr::Foreground(Color::Indexed(2)));
    s.goto(0, 1);
    s.input('\u{4e2d}');
    let left = s.read(0, 1);
    let right = s.read(0, 2);
    assert_eq!(left.content, '\u{4e2d}');
    assert!(left.wide);
    assert!(!left.placeholder);
    assert!(right.placeholder);
    assert_eq!(right, Cell { placeholder: true, ..left });
    assert_eq!(right.flags, left.flags);
    assert_eq!(right.foreground, left.foreground);
    assert_eq!(right.background, left.background);
    assert_eq!(position(&s), (0, 3));
    assert_eq!(s.read(0, 2), right);
    assert_eq!(s.read(0, 3), Cell::default());
}

#[test]
fn wide_glyph_wraps_when_only_one_column_is_left() {
    let mut s = screen(3, 2);
    type_text(&mut s, "ab");
    s.input('\u{4e2d}');
    assert_eq!(row_text(&s, 0), "ab ");
    assert_eq!(s.read(1, 0).content, '\u{4e2d}');
    assert!(s.read(1, 1).placeholder);
    assert_eq!(position(&s), (1, 2));
}

#[test]
fn set_content_marks_wide_characters() {
    assert!(!Cell::default().set_content('a').wide);
    assert!(Cell::default().set_content('\u{4e2d}').wide);
    assert!(Cell::default().set_content('\u{1f600}').wide);
    assert!(!Cell::default().set_content('\u{00e9}').wide);
    assert!(!Cell::default().set_content('\u{0007}').wide);
    assert_eq!(Cell::default().set_content('z').content, 'z');
    assert!(Cell::default().with_width('q', Some(2)).wide);
    assert!(!Cell::default().with_width('q', Some(1)).wide);
    assert!(!Cell::default().with_width('q', Some(0)).wide);
    assert!(!Cell::default().with_width('q', None).wide);
    assert!(Cell::default().with_width('q', Some(3)).wide);
}

#[test]
fn cell_clear_keeps_only_the_colors() {
    let cell = Cell {
        content: 'x',
        wide: true,
        placeholder: true,
        flags: Flags { bits: 0xff },
        foreground: Color::Indexed(5),
        background: Color::Rgb(7, 8, 9),
    };
    let cleared = cell.clear();
    assert_eq!(
        cleared,
        Cell { foreground: Color::Indexed(5), background: Color::Rgb(7, 8, 9), ..Cell::default() }
    );
    assert_eq!(Cell::default().foreground, Color::Indexed(256));
    assert_eq!(Cell::default().background, Color::Indexed(257));
    assert_eq!(Cell::default().foreground, Color::Indexed(Color::FOREGROUND));
    assert_eq!(Cell::default().background, Color::Indexed(Color::BACKGROUND));
    assert!(Cell::default().set_placeholder().placeholder);
}

#[test]
fn flags_are_sets_of_bits() {
    let mut flags = Flags::empty();
    assert_eq!(flags.bits(), 0);
    flags.insert(Flags::BOLD | Flags::ITALIC);
    assert!(flags.contains(Flags::BOLD));
    assert!(flags.contains(Flags::BOLD | Flags::ITALIC));
    assert!(!flags.contains(Flags::BOLD | Flags::HIDDEN));
    assert!(flags.intersects(Flags::BOLD | Flags::HIDDEN));
    assert!(!flags.intersects(Flags::HIDDEN | Flags::INVERSE));
    flags.remove(Flags::BOLD);
    assert_eq!(flags.bits(), Flags::ITALIC);
    assert_eq!(
        [
            Flags::INVERSE,
            Flags::BOLD,
            Flags::ITALIC,
            Flags::UNDERLINE,
            Flags::HIDDEN,
            Flags::CURSOR_BLOCK,
            Flags::CURSOR_UNDERLINE,
            Flags::CURSOR_BEAM
        ],
        [1, 2, 4, 8, 16, 32, 64, 128]
    );
}

#[test]
fn terminal_mode_bits() {
    assert_eq!(TerminalMode::SHOW_CURSOR, 1 << 0);
    assert_eq!(TerminalMode::APP_CURSOR, 1 << 1);
    assert_eq!(TerminalMode::APP_KEYPAD, 1 << 2);
    assert_eq!(TerminalMode::MOUSE_REPORT_CLICK, 1 << 3);
    assert_eq!(TerminalMode::BRACKETED_PASTE, 1 << 4);
    assert_eq!(TerminalMode::SGR_MOUSE, 1 << 5);
    assert_eq!(TerminalMode::MOUSE_MOTION, 1 << 6);
    assert_eq!(TerminalMode::LINE_WRAP, 1 << 7);
    assert_eq!(TerminalMode::LINE_FEED_NEW_LINE, 1 << 8);
    assert_eq!(TerminalMode::ORIGIN, 1 << 9);
    assert_eq!(TerminalMode::INSERT, 1 << 10);
    assert_eq!(TerminalMode::FOCUS_IN_OUT, 1 << 11);
    assert_eq!(TerminalMode::ALT_SCREEN, 1 << 12);
    assert_eq!(TerminalMode::MOUSE_DRAG, 1 << 13);
    assert_eq!(TerminalMode::MOUSE_MODE, 1 << 14);
    assert_eq!(TerminalMode::UTF8_MOUSE, 1 << 15);
    assert_eq!(TerminalMode::ALTERNATE_SCROLL, 1 << 16);
    assert_eq!(TerminalMode::VI, 1 << 17);
    assert_eq!(TerminalMode::URGENCY_HINTS, 1 << 18);
    assert_eq!(TerminalMode::ANY, u32::MAX);
    assert_eq!(TerminalMode::INITIAL, TerminalMode::SHOW_CURSOR | TerminalMode::LINE_WRAP);
    let mut mode = TerminalMode::default();
    mode.insert(TerminalMode::INSERT);
    assert!(mode.contains(TerminalMode::INSERT | TerminalMode::SHOW_CURSOR));
    mode.remove(TerminalMode::SHOW_CURSOR);
    assert!(!mode.contains(TerminalMode::SHOW_CURSOR));
    mode.toggle(TerminalMode::ALT_SCREEN);
    assert!(mode.contains(TerminalMode::ALT_SCREEN));
    mode.toggle(TerminalMode::ALT_SCREEN);
    assert_eq!(mode.bits, TerminalMode::INSERT | TerminalMode::LINE_WRAP);
}

#[test]
fn goto_stays_on_the_grid() {
    let mut s = screen(5, 4);
    s.goto(2, 3);
    assert_eq!(position(&s), (2, 3));
    s.goto(100, 100);
    assert_eq!(position(&s), (3, 4));
    s.goto(usize::MAX, usize::MAX);
    assert_eq!(position(&s), (3, 4));
    s.goto_line(1);
    assert_eq!(position(&s), (1, 4));
    s.goto_col(2);
    assert_eq!(position(&s), (1, 2));
    s.goto_line(9);
    assert_eq!(position(&s), (3, 2));
    s.goto_col(9);
    assert_eq!(position(&s), (3, 4));
}

#[test]
fn relative_moves_stop_at_the_edges() {
    let mut s = screen(5, 4);
    s.goto(2, 2);
    s.move_up(1);
    assert_eq!(position(&s), (1, 2));
    s.move_up(5);
    assert_eq!(position(&s), (0, 2));
    s.move_down(2);
    assert_eq!(position(&s), (2, 2));
    s.move_down(usize::MAX);
    assert_eq!(position(&s), (3, 2));
    s.move_forward(1);
    assert_eq!(position(&s), (3, 3));
    s.move_forward(usize::MAX);
    assert_eq!(position(&s), (3, 4));
    s.move_backward(3);
    assert_eq!(position(&s), (3, 1));
    s.move_backward(9);
    assert_eq!(position(&s), (3, 0));
    s.goto(2, 3);
    s.move_up_and_cr(1);
    assert_eq!(position(&s), (1, 0));
    s.goto(1, 3);
    s.move_down_and_cr(7);
    assert_eq!(position(&s), (3, 0));
    s.goto(1, 3);
    s.backspace();
    assert_eq!(position(&s), (1, 2));
    s.carriage_return();
    assert_eq!(position(&s), (1, 0));
    s.backspace();
    assert_eq!(position(&s), (1, 0));
}

#[test]
fn linefeed_without_and_with_carriage_return() {
    let mut s = screen(4, 4);
    s.goto(0, 2);
    s.linefeed();
    assert_eq!(position(&s), (1, 2));
    let mut s = screen(4, 4);
    s.set_crnl_mapping(true);
    s.goto(0, 2);
    s.linefeed();
    assert_eq!(position(&s), (1, 0));
}

#[test]
fn linefeed_at_the_bottom_scrolls_by_one() {
    let mut s = lettered(2, 3);
    s.goto(2, 1);
    s.linefeed();
    assert_eq!(position(&s), (2, 1));
    assert_eq!(column_text(&s, 0), "bc ");
    assert_eq!(s.buffer().total_rows(), 4);
}

#[test]
fn linefeed_below_the_region_only_moves_the_cursor() {
    let mut s = lettered(2, 5);
    s.set_scrolling_region(1, Some(3));
    s.goto(3, 0);
    s.linefeed();
    assert_eq!(position(&s), (4, 0));
    s.linefeed();
    assert_eq!(position(&s), (4, 0));
    assert_eq!(column_text(&s, 0), "abcde");
}

#[test]
fn newline_returns_the_carriage_in_new_line_mode() {
    let mut s = screen(4, 4);
    s.goto(0, 2);
    s.newline();
    assert_eq!(position(&s), (1, 2));
    s.set_mode(Mode::LineFeedNewLine);
    assert!(s.mode().contains(TerminalMode::LINE_FEED_NEW_LINE));
    s.newline();
    assert_eq!(position(&s), (2, 0));
    s.unset_mode(Mode::LineFeedNewLine);
    assert!(!s.mode().contains(TerminalMode::LINE_FEED_NEW_LINE));
}

#[test]
fn reverse_index_scrolls_down_at_the_top_of_the_region() {
    let mut s = lettered(2, 4);
    s.goto(2, 1);
    s.reverse_index();
    assert_eq!(position(&s), (1, 1));
    assert_eq!(column_text(&s, 0), "abcd");
    s.goto(0, 1);
    s.reverse_index();
    assert_eq!(position(&s), (0, 1));
    assert_eq!(column_text(&s, 0), " abc");
    assert_eq!(s.buffer().total_rows(), 5);
    assert_eq!(s.buffer().start_row(), 0);
}

#[test]
fn scrolling_region_scrolls_only_its_rows() {
    let mut s = lettered(2, 5);
    s.goto(3, 1);
    s.set_scrolling_region(2, Some(4));
    assert_eq!(s.scroll_region(), 1..4);
    assert_eq!(position(&s), (0, 0));
    s.goto(3, 0);
    s.linefeed();
    assert_eq!(column_text(&s, 0), "acd e");
    assert_eq!(position(&s), (3, 0));
    assert_eq!(s.buffer().total_rows(), 5);
    s.goto(1, 0);
    s.reverse_index();
    assert_eq!(column_text(&s, 0), "a cde");
}

#[test]
fn scrolling_region_is_cut_to_the_grid_or_refused() {
    let mut s = screen(2, 5);
    s.set_scrolling_region(2, None);
    assert_eq!(s.scroll_region(), 1..5);
    s.set_scrolling_region(1, Some(100));
    assert_eq!(s.scroll_region(), 0..5);
    s.set_scrolling_region(3, Some(3));
    assert_eq!(s.scroll_region(), 0..5);
    s.set_scrolling_region(4, Some(2));
    assert_eq!(s.scroll_region(), 0..5);
    s.set_scrolling_region(0, Some(2));
    assert_eq!(s.scroll_region(), 0..5);
    s.set_scrolling_region(5, None);
    assert_eq!(s.scroll_region(), 0..5);
    s.set_scrolling_region(7, Some(9));
    assert_eq!(s.scroll_region(), 4..5);
    s.goto(2, 1);
    s.set_scrolling_region(6, None);
    assert_eq!(position(&s), (2, 1));
}

#[test]
fn scroll_up_and_down_carry_the_pen() {
    let mut s = lettered(2, 3);
    s.terminal_attribute(Attr::Background(Color::Indexed(4)));
    s.scroll_up(1);
    assert_eq!(column_text(&s, 0), "bc ");
    assert_eq!(s.read(2, 0).background, Color::Indexed(4));
    assert_eq!(s.read(2, 1).background, Color::Indexed(4));
    s.scroll_down(2);
    assert_eq!(column_text(&s, 0), "  b");
    s.delete_lines(1);
    assert_eq!(column_text(&s, 0), " b ");
    s.insert_blank_lines(1);
    assert_eq!(column_text(&s, 0), "  b");
}

#[test]
fn tabs_stop_every_eight_columns() {
    let mut s = screen(20, 2);
    type_text(&mut s, "abcdefghijkl");
    s.goto(0, 2);
    s.terminal_attribute(Attr::Background(Color::Indexed(3)));
    s.put_tab(1);
    assert_eq!(position(&s), (0, 8));
    assert_eq!(row_text(&s, 0), "ab      ijkl        ");
    assert_eq!(s.read(0, 2).background, Color::Indexed(3));
    assert_eq!(s.read(0, 7).background, Color::Indexed(3));
    assert_eq!(s.read(0, 8).background, Color::Indexed(257));
    s.put_tab(1);
    assert_eq!(position(&s), (0, 16));
    s.put_tab(1);
    assert_eq!(position(&s), (0, 20));
    s.put_tab(1);
    assert_eq!(position(&s), (0, 20));
    s.goto(1, 3);
    s.put_tab(2);
    assert_eq!(position(&s), (1, 16));
    s.goto(1, 3);
    s.put_tab(u16::MAX);
    assert_eq!(position(&s), (1, 20));
    s.goto(1, 3);
    s.put_tab(0);
    assert_eq!(position(&s), (1, 3));
}

#[test]
fn tab_moves_without_painting() {
    let mut s = screen(20, 1);
    type_text(&mut s, "abcdefghijkl");
    s.goto(0, 2);
    s.move_forward_tabs(1);
    assert_eq!(position(&s), (0, 8));
    s.move_forward_tabs(2);
    assert_eq!(position(&s), (0, 20));
    s.move_forward_tabs(1);
    assert_eq!(position(&s), (0, 20));
    s.move_backward_tabs(1);
    assert_eq!(position(&s), (0, 8));
    s.move_backward_tabs(1);
    assert_eq!(position(&s), (0, 0));
    s.goto(0, 9);
    s.move_backward_tabs(1);
    assert_eq!(position(&s), (0, 0));
    s.goto(0, 17);
    s.move_backward_tabs(1);
    assert_eq!(position(&s), (0, 8));
    s.goto(0, 17);
    s.move_backward_tabs(9);
    assert_eq!(position(&s), (0, 0));
    s.move_backward_tabs(1);
    assert_eq!(position(&s), (0, 0));
    assert_eq!(row_text(&s, 0), "abcdefghijkl        ");
}

#[test]
fn insert_delete_and_erase_characters() {
    let mut s = screen(6, 1);
    type_text(&mut s, "abcdef");
    s.goto(0, 1);
    s.insert_blank(2);
    assert_eq!(row_text(&s, 0), "a  bcd");
    assert_eq!(position(&s), (0, 1));
    s.delete_chars(1);
    assert_eq!(row_text(&s, 0), "a bcd ");
    s.erase_chars(2);
    assert_eq!(row_text(&s, 0), "a  cd ");
    s.insert_blank(100);
    assert_eq!(row_text(&s, 0), "a     ");
    type_text(&mut s, "vwxyz");
    s.goto(0, 2);
    s.delete_chars(100);
    assert_eq!(row_text(&s, 0), "av    ");
    type_text(&mut s, "1234");
    s.goto(0, 3);
    s.erase_chars(usize::MAX);
    assert_eq!(row_text(&s, 0), "av1   ");
    s.goto(0, 5);
    s.input('!');
    assert_eq!(position(&s), (0, 6));
    s.insert_blank(1);
    s.delete_chars(1);
    s.erase_chars(1);
    assert_eq!(row_text(&s, 0), "av1  !");
}

#[test]
fn erased_cells_keep_only_the_pen_colors() {
    let mut s = screen(3, 1);
    type_text(&mut s, "abc");
    s.terminal_attribute(Attr::Bold);
    s.terminal_attribute(Attr::Background(Color::Indexed(2)));
    s.goto(0, 0);
    s.erase_chars(1);
    let cell = s.read(0, 0);
    assert_eq!(cell, Cell { background: Color::Indexed(2), ..Cell::default() });
}

#[test]
fn clear_line_modes() {
    let mut s = screen(5, 2);
    type_text(&mut s, "abcde");
    s.goto(0, 2);
    s.clear_line(LineClearMode::Right);
    assert_eq!(row_text(&s, 0), "ab   ");
    let mut s = screen(5, 2);
    type_text(&mut s, "abcde");
    s.goto(0, 2);
    s.clear_line(LineClearMode::Left);
    assert_eq!(row_text(&s, 0), "   de");
    let mut s = screen(5, 2);
    type_text(&mut s, "abcde");
    assert_eq!(position(&s), (0, 5));
    s.clear_line(LineClearMode::Left);
    assert_eq!(row_text(&s, 0), "     ");
    let mut s = screen(5, 2);
    type_text(&mut s, "abcde");
    s.clear_line(LineClearMode::Right);
    assert_eq!(row_text(&s, 0), "abcde");
    s.goto(0, 1);
    s.clear_line(LineClearMode::All);
    assert_eq!(row_text(&s, 0), "     ");
    assert_eq!(position(&s), (0, 1));
}

#[test]
fn clear_screen_modes() {
    let filled = || {
        let mut s = screen(3, 3);
        type_text(&mut s, "abcdefghi");
        s.goto(1, 1);
        s
    };
    let mut s = filled();
    s.clear_screen(ScreenClearMode::Below);
    assert_eq!((row_text(&s, 0), row_text(&s, 1), row_text(&s, 2)), ("abc".into(), "d  ".into(), "   ".into()));
    assert_eq!(position(&s), (1, 1));
    let mut s = filled();
    s.clear_screen(ScreenClearMode::Above);
    assert_eq!((row_text(&s, 0), row_text(&s, 1), row_text(&s, 2)), ("   ".into(), "  f".into(), "ghi".into()));
    assert_eq!(position(&s), (1, 1));
    let mut s = filled();
    s.set_cursor_shape(CursorShape::Beam);
    s.clear_screen(ScreenClearMode::All);
    assert_eq!((row_text(&s, 0), row_text(&s, 1), row_text(&s, 2)), ("   ".into(), "   ".into(), "   ".into()));
    assert_eq!(s.cursor(), Cursor::default());
}

#[test]
fn clear_screen_saved_drops_the_scrollback() {
    let mut s = screen(2, 2);
    type_text(&mut s, "abcdefgh");
    assert_eq!(s.buffer().total_rows(), 4);
    s.clear_screen(ScreenClearMode::All);
    assert_eq!(s.buffer().total_rows(), 4);
    type_text(&mut s, "abcdefgh");
    s.clear_screen(ScreenClearMode::Saved);
    assert_eq!(s.buffer().total_rows(), 2);
    assert_eq!(s.buffer().start_row(), 0);
    assert_eq!(row_text(&s, 0), "  ");
    assert_eq!(position(&s), (0, 0));
}

#[test]
fn terminal_attribute_changes_only_the_pen() {
    let mut s = screen(2, 1);
    s.input('a');
    let before = s.read(0, 0);
    let steps = [
        (Attr::Bold, Flags::BOLD),
        (Attr::Italic, Flags::BOLD | Flags::ITALIC),
        (Attr::Underline, Flags::BOLD | Flags::ITALIC | Flags::UNDERLINE),
        (Attr::Reverse, Flags::BOLD | Flags::ITALIC | Flags::UNDERLINE | Flags::INVERSE),
        (Attr::Hidden, 0x1f),
        (Attr::CancelBold, 0x1d),
        (Attr::Bold, 0x1f),
        (Attr::CancelBoldDim, 0x1d),
        (Attr::CancelItalic, 0x19),
        (Attr::CancelUnderline, 0x11),
        (Attr::CancelReverse, 0x10),
        (Attr::CancelHidden, 0),
    ];
    for (attr, bits) in steps {
        s.terminal_attribute(attr);
        assert_eq!(s.attribute_template().flags.bits, bits);
    }
    s.terminal_attribute(Attr::Foreground(Color::Indexed(9)));
    s.terminal_attribute(Attr::Background(Color::Rgb(1, 1, 1)));
    s.terminal_attribute(Attr::Bold);
    assert_eq!(s.attribute_template().foreground, Color::Indexed(9));
    assert_eq!(s.attribute_template().background, Color::Rgb(1, 1, 1));
    assert_eq!(s.read(0, 0), before);
    s.terminal_attribute(Attr::Reset);
    assert_eq!(s.attribute_template(), Cell::default());
}

#[test]
fn reset_then_one_attribute_paints_like_a_blank_cell_with_it() {
    let attrs = [
        (Attr::Bold, Cell { flags: Flags { bits: Flags::BOLD }, ..Cell::default() }),
        (Attr::Italic, Cell { flags: Flags { bits: Flags::ITALIC }, ..Cell::default() }),
        (Attr::Underline, Cell { flags: Flags { bits: Flags::UNDERLINE }, ..Cell::default() }),
        (Attr::Reverse, Cell { flags: Flags { bits: Flags::INVERSE }, ..Cell::default() }),
        (Attr::Hidden, Cell { flags: Flags { bits: Flags::HIDDEN }, ..Cell::default() }),
        (Attr::CancelBold, Cell::default()),
        (Attr::Reset, Cell::default()),
        (Attr::Foreground(Color::Indexed(3)), Cell { foreground: Color::Indexed(3), ..Cell::default() }),
        (Attr::Background(Color::Rgb(1, 2, 3)), Cell { background: Color::Rgb(1, 2, 3), ..Cell::default() }),
    ];
    for (attr, expected) in attrs {
        let mut s = screen(2, 1);
        s.terminal_attribute(Attr::Italic);
        s.terminal_attribute(Attr::Hidden);
        s.terminal_attribute(Attr::Foreground(Color::Indexed(77)));
        s.terminal_attribute(Attr::Reset);
        s.terminal_attribute(attr);
        s.input('k');
        assert_eq!(s.read(0, 0), Cell { content: 'k', ..expected });
    }
}

#[test]
fn modes_switch_their_bits() {
    let mut s = screen(2, 2);
    s.set_mode(Mode::Insert);
    assert!(s.mode().contains(TerminalMode::INSERT));
    s.unset_mode(Mode::Insert);
    assert!(!s.mode().contains(TerminalMode::INSERT));
    s.set_mode(Mode::ShowCursor);
    s.unset_mode(Mode::ShowCursor);
    assert!(s.mode().contains(TerminalMode::SHOW_CURSOR));
    s.unset_private_mode(Mode::ShowCursor);
    assert!(!s.mode().contains(TerminalMode::SHOW_CURSOR));
    s.set_private_mode(Mode::ShowCursor);
    assert!(s.mode().contains(TerminalMode::SHOW_CURSOR));
    s.set_private_mode(Mode::CursorKeys);
    assert!(s.mode().contains(TerminalMode::APP_CURSOR));
    s.unset_private_mode(Mode::CursorKeys);
    assert!(!s.mode().contains(TerminalMode::APP_CURSOR));
    s.set_private_mode(Mode::BracketedPaste);
    assert!(s.mode().contains(TerminalMode::BRACKETED_PASTE));
    s.unset_private_mode(Mode::BracketedPaste);
    assert!(!s.mode().contains(TerminalMode::BRACKETED_PASTE));
    s.set_keypad_application_mode();
    assert!(s.mode().contains(TerminalMode::APP_KEYPAD));
    s.unset_keypad_application_mode();
    assert_eq!(s.mode(), TerminalMode::default());
    s.set_private_mode(Mode::SgrMouse);
    s.set_private_mode(Mode::Insert);
    assert_eq!(s.mode(), TerminalMode::default());
}

#[test]
fn cursor_save_and_restore_is_the_identity() {
    let mut s = screen(5, 5);
    s.goto(3, 2);
    s.set_cursor_shape(CursorShape::Underline);
    let before = s.cursor();
    s.save_cursor_position();
    s.restore_cursor_position();
    assert_eq!(s.cursor(), before);
    s.goto(1, 1);
    s.set_cursor_shape(CursorShape::Beam);
    s.restore_cursor_position();
    assert_eq!(s.cursor(), before);
    assert_eq!(s.saved_cursor(), before);
}

#[test]
fn cursor_shape_and_style() {
    let mut s = screen(2, 2);
    s.set_cursor_shape(CursorShape::HollowBlock);
    assert_eq!(s.cursor().shape, CursorShape::HollowBlock);
    s.set_cursor_style(None);
    assert_eq!(s.cursor().shape, CursorShape::HollowBlock);
    s.set_cursor_style(Some(CursorStyle { shape: CursorShape::Beam, blinking: true }));
    assert_eq!(s.cursor().shape, CursorShape::Beam);
}

#[test]
fn cursor_handler_sets_and_clears_the_flag_of_the_shape() {
    let shapes = [
        (CursorShape::Block, Flags::CURSOR_BLOCK),
        (CursorShape::Underline, Flags::CURSOR_UNDERLINE),
        (CursorShape::Beam, Flags::CURSOR_BEAM),
        (CursorShape::HollowBlock, Flags::CURSOR_BLOCK),
        (CursorShape::Hidden, Flags::HIDDEN),
    ];
    for (shape, flag) in shapes {
        let mut s = screen(3, 2);
        s.terminal_attribute(Attr::Bold);
        s.input('a');
        s.goto(0, 0);
        s.set_cursor_shape(shape);
        s.cursor_handler(true);
        assert_eq!(s.read(0, 0).flags.bits, Flags::BOLD | flag);
        assert_eq!(s.read(0, 0).content, 'a');
        assert_eq!(s.read(0, 1), Cell::default());
        s.cursor_handler(false);
        assert_eq!(s.read(0, 0).flags.bits, Flags::BOLD);
    }
    let mut s = screen(3, 2);
    type_text(&mut s, "abc");
    assert_eq!(position(&s), (0, 3));
    s.cursor_handler(true);
    assert_eq!(s.read(0, 0).flags.bits, Flags::CURSOR_BLOCK);
}

#[test]
fn charsets_map_what_is_typed() {
    let mut s = screen(6, 1);
    s.configure_charset(CharsetIndex::G1, StandardCharset::SpecialCharacterAndLineDrawing);
    s.input('q');
    s.set_active_charset(CharsetIndex::G1);
    s.input('q');
    s.input('A');
    s.set_active_charset(CharsetIndex::G0);
    s.input('x');
    s.configure_charset(CharsetIndex::G0, StandardCharset::SpecialCharacterAndLineDrawing);
    s.input('x');
    s.configure_charset(CharsetIndex::G0, StandardCharset::Ascii);
    s.input('x');
    assert_eq!(row_text(&s, 0), "q\u{2500}Ax\u{2502}x");
}

#[test]
fn swap_alt_screen_and_back() {
    let mut s = screen(5, 2);
    type_text(&mut s, "hello");
    s.goto(1, 2);
    s.terminal_attribute(Attr::Bold);
    s.set_private_mode(Mode::SwapScreenAndSetRestoreCursor);
    assert!(s.mode().contains(TerminalMode::ALT_SCREEN));
    assert!(s.buffer().is_alt_screen());
    assert_eq!(position(&s), (0, 0));
    assert_eq!(row_text(&s, 0), "     ");
    assert_eq!(s.read(0, 0).flags.bits, Flags::BOLD);
    s.set_private_mode(Mode::SwapScreenAndSetRestoreCursor);
    assert!(s.mode().contains(TerminalMode::ALT_SCREEN));
    type_text(&mut s, "alt");
    s.clear_screen(ScreenClearMode::Saved);
    type_text(&mut s, "xyz");
    s.scroll_up(5);
    s.unset_private_mode(Mode::SwapScreenAndSetRestoreCursor);
    assert!(!s.mode().contains(TerminalMode::ALT_SCREEN));
    assert!(!s.buffer().is_alt_screen());
    assert_eq!(row_text(&s, 0), "hello");
    assert_eq!(position(&s), (1, 2));
    assert_eq!(s.saved_cursor().row, 1);
    assert_eq!(s.saved_cursor().column, 2);
    assert_eq!(s.attribute_template(), Cell::default());
    s.unset_private_mode(Mode::SwapScreenAndSetRestoreCursor);
    assert_eq!(row_text(&s, 0), "hello");
}

#[test]
fn alt_screen_excursion_keeps_the_scrollback() {
    let mut s = screen(2, 2);
    type_text(&mut s, "abcdefgh");
    let rows = s.buffer().total_rows();
    let start = s.buffer().start_row();
    let cursor = s.cursor();
    s.set_private_mode(Mode::SwapScreenAndSetRestoreCursor);
    type_text(&mut s, "0123456789");
    assert_eq!(s.buffer().total_rows(), 2);
    s.unset_private_mode(Mode::SwapScreenAndSetRestoreCursor);
    assert_eq!(s.buffer().total_rows(), rows);
    assert_eq!(s.buffer().start_row(), start);
    assert_eq!(s.cursor(), cursor);
    assert_eq!((row_text(&s, 0), row_text(&s, 1)), ("ef".into(), "gh".into()));
}

#[test]
fn reset_state_returns_to_the_start() {
    let mut s = screen(3, 2);
    type_text(&mut s, "abcdefghi");
    s.terminal_attribute(Attr::Bold);
    s.set_mode(Mode::Insert);
    s.save_cursor_position();
    s.set_private_mode(Mode::SwapScreenAndSetRestoreCursor);
    type_text(&mut s, "zz");
    s.reset_state();
    assert!(!s.buffer().is_alt_screen());
    assert_eq!(s.mode(), TerminalMode::default());
    assert_eq!(s.cursor(), Cursor::default());
    assert_eq!(s.saved_cursor(), Cursor::default());
    assert_eq!(s.attribute_template(), Cell::default());
    assert_eq!(s.buffer().total_rows(), 2);
    assert_eq!((row_text(&s, 0), row_text(&s, 1)), ("   ".into(), "   ".into()));
}

#[test]
fn device_reports() {
    let mut s = screen(20, 10);
    assert_eq!(s.identify_terminal(None).as_deref(), Some("\x1b[?6c"));
    assert_eq!(s.identify_terminal(Some('>')).as_deref(), Some("\x1b[>0;100;1c"));
    assert_eq!(s.identify_terminal(Some('?')), None);
    assert_eq!(s.device_status(5).as_deref(), Some("\x1b[0n"));
    assert_eq!(s.device_status(6).as_deref(), Some("\x1b[1;1R"));
    s.goto(2, 7);
    assert_eq!(s.device_status(6).as_deref(), Some("\x1b[3;8R"));
    s.goto(9, 19);
    assert_eq!(s.device_status(6).as_deref(), Some("\x1b[10;20R"));
    assert_eq!(s.device_status(0), None);
    assert_eq!(s.device_status(7), None);
    assert_eq!(s.report_keyboard_mode(), "\x1b[?0u");
    let mut big = screen(1234, 105);
    big.goto(104, 1233);
    assert_eq!(big.device_status(6).as_deref(), Some("\x1b[105;1234R"));
}

#[test]
fn apply_makes_the_call_and_hands_back_the_answer() {
    let mut s = screen(10, 4);
    assert_eq!(s.apply(Action::Goto(2, 7)), None);
    assert_eq!(position(&s), (2, 7));
    assert_eq!(s.apply(Action::DeviceStatus(6)).as_deref(), Some("\x1b[3;8R"));
    assert_eq!(s.apply(Action::IdentifyTerminal(None)).as_deref(), Some("\x1b[?6c"));
    assert_eq!(s.apply(Action::ReportKeyboardMode).as_deref(), Some("\x1b[?0u"));
    assert_eq!(s.answer(Action::DeviceStatus(5)).as_deref(), Some("\x1b[0n"));
    assert_eq!(s.answer(Action::Input('x')), None);
    assert_eq!(s.apply(Action::Input('x')), None);
    assert_eq!(s.read(2, 7).content, 'x');
    assert_eq!(s.apply(Action::TerminalAttribute(Attr::Bold)), None);
    assert_eq!(s.attribute_template().flags.bits, Flags::BOLD);
    assert_eq!(s.apply(Action::Bell), None);
    assert_eq!(s.apply(Action::SetTitle), None);
    assert_eq!(s.apply(Action::ClipboardStore(b'c')), None);
    assert_eq!(s.apply(Action::Decaln), None);
    assert_eq!(position(&s), (2, 8));
    let replies = s.apply_all(&vec![
        Action::CarriageReturn,
        Action::DeviceStatus(6),
        Action::Linefeed,
        Action::DeviceStatus(6),
        Action::SetCursorShape(CursorShape::Beam),
    ]);
    assert_eq!(replies, vec!["\x1b[3;1R".to_string(), "\x1b[4;1R".to_string()]);
    assert_eq!(s.cursor(), Cursor { row: 3, column: 0, shape: CursorShape::Beam });
}

#[test]
fn screen_history_controls() {
    let mut s = screen(1, 2);
    type_text(&mut s, "abcdef");
    assert_eq!(s.buffer().total_rows(), 6);
    s.scroll_history(2);
    assert_eq!(s.buffer().start_row(), 2);
    assert_eq!(column_text(&s, 0), "cd");
    s.ensure_latest();
    assert_eq!(s.buffer().start_row(), 4);
    s.resize_history(3);
    assert_eq!(s.buffer().history_size(), 3);
    s.reset_template();
    assert_eq!(s.attribute_template(), Cell::default());
}
