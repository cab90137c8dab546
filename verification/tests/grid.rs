use os_terminal::buffer::{magnitude, TerminalBuffer, DEFAULT_HISTORY_SIZE};
use os_terminal::cell::{Cell, Color, Flags};

fn grid(width: usize, height: usize) -> TerminalBuffer {
    let mut buffer = TerminalBuffer::default();
    buffer.update_size((1, 1), (width, height));
    buffer
}

fn letter(c: char) -> Cell {
    Cell { content: c, ..Cell::default() }
}

fn first_column(buffer: &TerminalBuffer) -> String {
    (0..buffer.height()).map(|r| buffer.read(r, 0).content).collect()
}

fn lettered(width: usize, height: usize) -> TerminalBuffer {
    let mut buffer = grid(width, height);
    for r in 0..height {
        buffer.write(r, 0, letter((b'a' + r as u8) as char));
    }
    buffer
}

fn invariant_holds(buffer: &TerminalBuffer) -> bool {
    buffer.total_rows() >= buffer.height()
        && buffer.start_row() <= buffer.total_rows() - buffer.height()
}

#[test]
fn default_grid_is_one_blank_cell() {
    let buffer = TerminalBuffer::default();
    assert_eq!(buffer.width(), 1);
    assert_eq!(buffer.height(), 1);
    assert_eq!(buffer.total_rows(), 1);
    assert_eq!(buffer.start_row(), 0);
    assert_eq!(buffer.history_size(), DEFAULT_HISTORY_SIZE);
    assert_eq!(buffer.history_size(), 200);
    assert!(!buffer.is_alt_screen());
    assert_eq!(buffer.read(0, 0), Cell::default());
    assert_eq!(buffer.last_painted(0, 0), Cell::default());
}

#[test]
fn update_size_counts_whole_cells() {
    let mut buffer = TerminalBuffer::default();
    buffer.update_size((8, 16), (405, 300));
    assert_eq!(buffer.width(), 50);
    assert_eq!(buffer.height(), 18);
    assert_eq!(buffer.total_rows(), 18);
    for r in 0..18 {
        for c in 0..50 {
            assert_eq!(buffer.read(r, c), Cell::default());
        }
    }
}

#[test]
fn update_size_keeps_content_when_shape_is_unchanged() {
    let mut buffer = lettered(3, 3);
    buffer.scroll_region(1, Cell::default(), 0..3);
    assert_eq!(buffer.total_rows(), 4);
    buffer.update_size((1, 1), (3, 3));
    assert_eq!(buffer.total_rows(), 4);
    assert_eq!(first_column(&buffer), "bc ");
    buffer.update_size((1, 1), (4, 3));
    assert_eq!(buffer.width(), 4);
    assert_eq!(buffer.total_rows(), 3);
    assert_eq!(buffer.start_row(), 0);
    assert_eq!(first_column(&buffer), "   ");
}

#[test]
fn write_then_read_gives_the_cell() {
    let mut buffer = grid(4, 3);
    let cell = Cell {
        content: 'x',
        wide: false,
        placeholder: false,
        flags: Flags { bits: Flags::BOLD | Flags::UNDERLINE },
        foreground: Color::Indexed(3),
        background: Color::Rgb(1, 2, 3),
    };
    for r in 0..3 {
        for c in 0..4 {
            buffer.write(r, c, cell);
            assert_eq!(buffer.read(r, c), cell);
        }
    }
    buffer.write(1, 2, letter('q'));
    assert_eq!(buffer.read(1, 2), letter('q'));
    assert_eq!(buffer.read(1, 1), cell);
    assert_eq!(buffer.read(0, 2), cell);
    assert!(invariant_holds(&buffer));
}

#[test]
fn fill_sets_a_range_of_columns() {
    let mut buffer = grid(5, 2);
    buffer.fill(1, 1, 4, letter('z'));
    let row: String = (0..5).map(|c| buffer.read(1, c).content).collect();
    assert_eq!(row, " zzz ");
    let other: String = (0..5).map(|c| buffer.read(0, c).content).collect();
    assert_eq!(other, "     ");
    buffer.fill(1, 4, 2, letter('y'));
    let row: String = (0..5).map(|c| buffer.read(1, c).content).collect();
    assert_eq!(row, " zzz ");
}

#[test]
fn insert_cells_moves_the_tail_right() {
    let mut buffer = grid(5, 1);
    for (c, ch) in "abcde".chars().enumerate() {
        buffer.write(0, c, letter(ch));
    }
    buffer.insert_cells(0, 1, 2, letter('_'));
    let row: String = (0..5).map(|c| buffer.read(0, c).content).collect();
    assert_eq!(row, "a__bc");
}

#[test]
fn delete_cells_moves_the_tail_left() {
    let mut buffer = grid(5, 1);
    for (c, ch) in "abcde".chars().enumerate() {
        buffer.write(0, c, letter(ch));
    }
    buffer.delete_cells(0, 1, 2, letter('_'));
    let row: String = (0..5).map(|c| buffer.read(0, c).content).collect();
    assert_eq!(row, "ade__");
}

#[test]
fn clear_fills_the_viewport() {
    let mut buffer = lettered(2, 3);
    buffer.clear(letter('#'));
    for r in 0..3 {
        for c in 0..2 {
            assert_eq!(buffer.read(r, c), letter('#'));
        }
    }
}

#[test]
fn fill_rows_fills_only_the_given_rows() {
    let mut buffer = lettered(2, 4);
    buffer.fill_rows(1, 3, letter('#'));
    assert_eq!(first_column(&buffer), "a##d");
}

#[test]
fn scroll_up_from_the_top_keeps_the_row_as_scrollback() {
    let mut buffer = lettered(2, 3);
    buffer.scroll_region(1, letter('.'), 0..3);
    assert_eq!(first_column(&buffer), "bc.");
    assert_eq!(buffer.total_rows(), 4);
    assert_eq!(buffer.start_row(), 1);
    assert!(invariant_holds(&buffer));
    buffer.scroll_history(1);
    assert_eq!(buffer.start_row(), 0);
    assert_eq!(first_column(&buffer), "abc");
    buffer.ensure_latest();
    assert_eq!(buffer.start_row(), 1);
    assert_eq!(first_column(&buffer), "bc.");
}

#[test]
fn scroll_up_fills_the_whole_new_row() {
    let mut buffer = lettered(3, 2);
    buffer.scroll_region(1, letter('.'), 0..2);
    for c in 0..3 {
        assert_eq!(buffer.read(1, c), letter('.'));
    }
}

#[test]
fn scroll_up_by_two_keeps_both_rows() {
    let mut buffer = lettered(1, 3);
    buffer.scroll_region(2, letter('.'), 0..3);
    assert_eq!(first_column(&buffer), "c..");
    assert_eq!(buffer.total_rows(), 5);
    assert_eq!(buffer.start_row(), 2);
    buffer.scroll_history(2);
    assert_eq!(first_column(&buffer), "abc");
}

#[test]
fn scrollback_is_capped_by_the_history_size() {
    let mut buffer = lettered(1, 3);
    buffer.resize_history(1);
    buffer.scroll_region(1, letter('.'), 0..3);
    assert_eq!(buffer.total_rows(), 4);
    buffer.scroll_region(1, letter('.'), 0..3);
    assert_eq!(buffer.total_rows(), 4);
    assert_eq!(buffer.start_row(), 1);
    assert_eq!(first_column(&buffer), "c..");
    buffer.scroll_history(5);
    assert_eq!(buffer.start_row(), 0);
    assert_eq!(first_column(&buffer), "bc.");
    assert!(invariant_holds(&buffer));
}

#[test]
fn no_history_means_no_scrollback() {
    let mut buffer = lettered(1, 3);
    buffer.resize_history(0);
    buffer.scroll_region(1, letter('.'), 0..3);
    assert_eq!(buffer.total_rows(), 3);
    assert_eq!(buffer.start_row(), 0);
    assert_eq!(first_column(&buffer), "bc.");
}

#[test]
fn resize_history_evicts_nothing_at_once() {
    let mut buffer = lettered(1, 2);
    buffer.scroll_region(3, letter('.'), 0..2);
    assert_eq!(buffer.total_rows(), 5);
    buffer.resize_history(1);
    assert_eq!(buffer.history_size(), 1);
    assert_eq!(buffer.total_rows(), 5);
}

#[test]
fn a_smaller_history_evicts_on_the_next_scroll_out() {
    let mut buffer = lettered(1, 2);
    buffer.scroll_region(3, letter('.'), 0..2);
    buffer.write(1, 0, letter('z'));
    buffer.resize_history(1);
    buffer.scroll_region(1, letter('-'), 0..2);
    assert_eq!(buffer.total_rows(), 3);
    assert_eq!(buffer.start_row(), 1);
    assert_eq!(first_column(&buffer), "z-");
    buffer.scroll_history(9);
    assert_eq!(first_column(&buffer), ".z");
}

#[test]
fn eviction_spares_a_viewport_that_is_scrolled_back() {
    let mut buffer = lettered(1, 2);
    buffer.scroll_region(4, letter('.'), 0..2);
    assert_eq!(buffer.total_rows(), 6);
    buffer.scroll_history(3);
    assert_eq!(buffer.start_row(), 1);
    assert_eq!(first_column(&buffer), "b.");
    buffer.resize_history(0);
    buffer.scroll_region(1, letter('-'), 0..2);
    assert_eq!(first_column(&buffer), ".-");
    assert_eq!(buffer.start_row(), 0);
    assert_eq!(buffer.total_rows(), 5);
    assert!(invariant_holds(&buffer));
}

#[test]
fn scroll_down_to_the_bottom_keeps_the_row_below() {
    let mut buffer = lettered(1, 3);
    buffer.scroll_region(-1, letter('.'), 0..3);
    assert_eq!(first_column(&buffer), ".ab");
    assert_eq!(buffer.total_rows(), 4);
    assert_eq!(buffer.start_row(), 0);
    assert!(invariant_holds(&buffer));
    buffer.scroll_history(-1);
    assert_eq!(buffer.start_row(), 1);
    assert_eq!(first_column(&buffer), "abc");
}

#[test]
fn scroll_down_of_a_lower_region_keeps_the_row_below() {
    let mut buffer = lettered(1, 4);
    buffer.scroll_region(-1, letter('.'), 2..4);
    assert_eq!(first_column(&buffer), "ab.c");
    assert_eq!(buffer.total_rows(), 5);
    assert_eq!(buffer.start_row(), 0);
    buffer.ensure_latest();
    assert_eq!(first_column(&buffer), "b.cd");
}

#[test]
fn scroll_down_above_the_bottom_is_internal() {
    let mut buffer = lettered(1, 4);
    buffer.scroll_region(-1, letter('.'), 0..3);
    assert_eq!(first_column(&buffer), ".abd");
    assert_eq!(buffer.total_rows(), 4);
    assert_eq!(buffer.start_row(), 0);
}

#[test]
fn scroll_down_on_the_alternate_screen_is_internal() {
    let mut buffer = lettered(1, 3);
    buffer.swap_alt_screen(letter(' '));
    buffer.write(0, 0, letter('x'));
    buffer.scroll_region(-2, letter('.'), 0..3);
    assert_eq!(first_column(&buffer), "..x");
    assert_eq!(buffer.total_rows(), 3);
    assert_eq!(buffer.start_row(), 0);
}

#[test]
fn scroll_down_on_a_full_screen_drops_the_oldest_row() {
    let mut buffer = lettered(1, 3);
    buffer.resize_history(1);
    buffer.scroll_region(1, letter('.'), 0..3);
    assert_eq!((buffer.total_rows(), buffer.start_row()), (4, 1));
    assert_eq!(first_column(&buffer), "bc.");
    buffer.scroll_region(-1, letter('-'), 0..3);
    assert_eq!((buffer.total_rows(), buffer.start_row()), (4, 0));
    assert_eq!(first_column(&buffer), "-bc");
    buffer.scroll_history(-1);
    assert_eq!(first_column(&buffer), "bc.");
}

#[test]
fn scroll_down_on_a_full_screen_without_scrollback_loses_the_row() {
    let mut buffer = lettered(1, 3);
    buffer.resize_history(0);
    buffer.scroll_region(-1, letter('.'), 0..3);
    assert_eq!(first_column(&buffer), ".ab");
    assert_eq!((buffer.total_rows(), buffer.start_row()), (3, 0));
    buffer.resize_history(2);
    buffer.scroll_region(-3, letter('-'), 0..3);
    assert_eq!(first_column(&buffer), "---");
    assert_eq!((buffer.total_rows(), buffer.start_row()), (5, 0));
    assert!(invariant_holds(&buffer));
}

#[test]
fn scroll_inside_a_region_leaves_other_rows() {
    let mut buffer = lettered(1, 5);
    buffer.scroll_region(1, letter('.'), 1..4);
    assert_eq!(first_column(&buffer), "acd.e");
    assert_eq!(buffer.total_rows(), 5);
    buffer.scroll_region(-1, letter('-'), 1..4);
    assert_eq!(first_column(&buffer), "a-cde");
    assert_eq!(buffer.total_rows(), 5);
}

#[test]
fn scroll_up_from_the_top_of_a_partial_region_keeps_rows_below() {
    let mut buffer = lettered(1, 4);
    buffer.scroll_region(1, letter('.'), 0..2);
    assert_eq!(first_column(&buffer), "b.cd");
    assert_eq!(buffer.total_rows(), 5);
    buffer.scroll_history(1);
    assert_eq!(first_column(&buffer), "ab.c");
}

#[test]
fn scroll_by_zero_changes_nothing() {
    let mut buffer = lettered(1, 3);
    buffer.scroll_region(0, letter('.'), 0..3);
    assert_eq!(first_column(&buffer), "abc");
    assert_eq!(buffer.total_rows(), 3);
}

#[test]
fn alternate_screen_never_grows_scrollback() {
    let mut buffer = lettered(1, 3);
    buffer.scroll_region(2, letter('.'), 0..3);
    let primary_rows = buffer.total_rows();
    assert_eq!(primary_rows, 5);
    buffer.swap_alt_screen(letter(' '));
    assert!(buffer.is_alt_screen());
    assert_eq!(buffer.total_rows(), 3);
    for step in [1isize, 3, -2, 7, -1, 1] {
        buffer.scroll_region(step, letter('.'), 0..3);
        assert_eq!(buffer.total_rows(), 3);
        assert_eq!(buffer.start_row(), 0);
        assert!(invariant_holds(&buffer));
    }
    buffer.scroll_region(1, letter('.'), 1..2);
    assert_eq!(buffer.total_rows(), 3);
    buffer.swap_alt_screen(letter(' '));
    assert!(!buffer.is_alt_screen());
    assert_eq!(buffer.total_rows(), primary_rows);
}

#[test]
fn swap_alt_screen_clears_only_on_entering() {
    let mut buffer = lettered(1, 2);
    buffer.swap_alt_screen(letter('*'));
    assert_eq!(first_column(&buffer), "**");
    buffer.write(0, 0, letter('x'));
    buffer.swap_alt_screen(letter('!'));
    assert_eq!(first_column(&buffer), "ab");
    buffer.swap_alt_screen(letter('+'));
    assert_eq!(first_column(&buffer), "++");
}

#[test]
fn swap_alt_screen_keeps_each_viewport_position() {
    let mut buffer = lettered(1, 2);
    buffer.scroll_region(2, letter('.'), 0..2);
    buffer.scroll_history(1);
    assert_eq!(buffer.start_row(), 1);
    buffer.swap_alt_screen(letter(' '));
    assert_eq!(buffer.start_row(), 0);
    buffer.swap_alt_screen(letter(' '));
    assert_eq!(buffer.start_row(), 1);
}

#[test]
fn clear_history_drops_rows_above_the_viewport() {
    let mut buffer = lettered(1, 2);
    buffer.scroll_region(3, letter('.'), 0..2);
    assert_eq!(buffer.total_rows(), 5);
    assert_eq!(buffer.start_row(), 3);
    buffer.clear_history();
    assert_eq!(buffer.total_rows(), 2);
    assert_eq!(buffer.start_row(), 0);
    assert_eq!(first_column(&buffer), "..");
}

#[test]
fn clear_history_keeps_rows_below_a_scrolled_back_viewport() {
    let mut buffer = lettered(1, 2);
    buffer.scroll_region(3, letter('.'), 0..2);
    buffer.scroll_history(2);
    assert_eq!(buffer.start_row(), 1);
    assert_eq!(first_column(&buffer), "b.");
    buffer.clear_history();
    assert_eq!(buffer.start_row(), 0);
    assert_eq!(buffer.total_rows(), 4);
    assert_eq!(first_column(&buffer), "b.");
}

#[test]
fn clear_history_does_nothing_on_the_alternate_screen() {
    let mut buffer = lettered(1, 2);
    buffer.scroll_region(3, letter('.'), 0..2);
    buffer.swap_alt_screen(letter(' '));
    buffer.clear_history();
    buffer.swap_alt_screen(letter(' '));
    assert_eq!(buffer.total_rows(), 5);
}

#[test]
fn scroll_history_stops_at_both_ends() {
    let mut buffer = lettered(1, 2);
    buffer.scroll_region(4, letter('.'), 0..2);
    assert_eq!(buffer.start_row(), 4);
    buffer.scroll_history(1);
    assert_eq!(buffer.start_row(), 3);
    buffer.scroll_history(100);
    assert_eq!(buffer.start_row(), 0);
    buffer.scroll_history(-2);
    assert_eq!(buffer.start_row(), 2);
    buffer.scroll_history(-100);
    assert_eq!(buffer.start_row(), 4);
    buffer.scroll_history(isize::MIN);
    assert_eq!(buffer.start_row(), 4);
    buffer.scroll_history(isize::MAX);
    assert_eq!(buffer.start_row(), 0);
    assert!(invariant_holds(&buffer));
}

#[test]
fn ensure_latest_snaps_to_the_bottom() {
    let mut buffer = lettered(1, 2);
    buffer.scroll_region(4, letter('.'), 0..2);
    buffer.scroll_history(3);
    buffer.ensure_latest();
    assert_eq!(buffer.start_row(), buffer.total_rows() - buffer.height());
}

#[test]
fn every_operation_keeps_the_viewport_inside() {
    let mut buffer = lettered(2, 3);
    buffer.resize_history(2);
    assert!(invariant_holds(&buffer));
    buffer.scroll_region(5, letter('.'), 0..3);
    assert!(invariant_holds(&buffer));
    buffer.scroll_history(1);
    assert!(invariant_holds(&buffer));
    buffer.scroll_region(1, letter('.'), 0..3);
    assert!(invariant_holds(&buffer));
    buffer.scroll_region(-3, letter('.'), 0..2);
    assert!(invariant_holds(&buffer));
    buffer.clear(letter('x'));
    assert!(invariant_holds(&buffer));
    buffer.swap_alt_screen(letter('y'));
    assert!(invariant_holds(&buffer));
    buffer.clear_history();
    assert!(invariant_holds(&buffer));
    buffer.swap_alt_screen(letter('y'));
    assert!(invariant_holds(&buffer));
    buffer.clear_history();
    assert!(invariant_holds(&buffer));
    buffer.ensure_latest();
    assert!(invariant_holds(&buffer));
    buffer.update_size((2, 2), (9, 9));
    assert!(invariant_holds(&buffer));
}

#[test]
fn magnitude_is_the_absolute_value() {
    assert_eq!(magnitude(0), 0);
    assert_eq!(magnitude(7), 7);
    assert_eq!(magnitude(-7), 7);
    assert_eq!(magnitude(isize::MAX), isize::MAX as usize);
    assert_eq!(magnitude(isize::MIN), isize::MAX as usize + 1);
}

#[test]
fn row_mut_exposes_a_viewport_row() {
    let mut buffer = lettered(4, 3);
    buffer.scroll_region(1, letter('.'), 0..3);
    {
        let row = buffer.row_mut(1);
        assert_eq!(row.len(), 4);
        assert_eq!(row[0], letter('c'));
        row[1..3].fill(letter('x'));
        row.copy_within(0..2, 2);
    }
    let text: String = (0..4).map(|c| buffer.read(1, c).content).collect();
    assert_eq!(text, "cxcx");
    assert_eq!(first_column(&buffer), "bc.");
    buffer.scroll_history(1);
    let text: String = (0..4).map(|c| buffer.read(2, c).content).collect();
    assert_eq!(text, "cxcx");
}
