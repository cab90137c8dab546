//! Properties that relate several operations of the terminal, stated over
//! the models that the operations' contracts use.

use vstd::prelude::*;
use crate::ansi::{Action, Attr, Mode};
use crate::buffer::GridView;
use crate::cell::Cell;
use crate::color::{ColorScheme, Rgb};
use crate::graphic::{lemma_blend_bounds, ColorCache};
use crate::screen::{pen_after, Cursor, ScreenView, TerminalMode};

verus! {

/// The grid's invariant says that the screen holds at least a viewport of
/// rows and that the viewport lies inside the screen. Every operation of the
/// grid ensures the invariant.
pub proof fn lemma_viewport_inside(grid: GridView)
    requires
        grid.wf(),
    ensures
        grid.rows.len() >= grid.height,
        0 <= grid.start_row <= grid.rows.len() - grid.height,
{
}

/// A cell that was written is the cell that is read, and every other cell
/// of the viewport reads as before.
pub proof fn lemma_read_after_write(grid: GridView, r: int, c: int, cell: Cell, r2: int, c2: int)
    requires
        grid.wf(),
        0 <= r < grid.height,
        0 <= c < grid.width,
        0 <= r2 < grid.height,
        0 <= c2 < grid.width,
    ensures
        grid.with_cell(r, c, cell).cell(r, c) == cell,
        (r2 != r || c2 != c) ==> grid.with_cell(r, c, cell).cell(r2, c2) == grid.cell(r2, c2),
        grid.with_cell(r, c, cell).wf(),
{
    let after = grid.with_cell(r, c, cell);
    assert forall|i: int| 0 <= i < after.rows.len() implies (#[trigger] after.rows[i]).len()
        == grid.width by {
        if i == grid.start_row + r {
        } else {
            assert(after.rows[i] == grid.rows[i]);
        }
    }
}

/// One scroll of a region: by how many rows, of which region, with which
/// cell in the new rows.
pub struct ScrollStep {
    pub count: int,
    pub top: int,
    pub bottom: int,
    pub cell: Cell,
}

/// The grid after the scrolls of `steps`, in order.
pub open spec fn scrolled_through(grid: GridView, steps: Seq<ScrollStep>) -> GridView
    decreases steps.len(),
{
    if steps.len() == 0 {
        grid
    } else {
        let last = steps.last();
        scrolled_through(grid, steps.drop_last()).scrolled(
            last.count,
            last.top,
            last.bottom,
            last.cell,
        )
    }
}

/// On the alternate screen no sequence of scrolls changes the length of the
/// scrollback, nor the number of rows of the alternate screen itself.
pub proof fn lemma_alt_screen_keeps_scrollback(grid: GridView, steps: Seq<ScrollStep>)
    requires
        grid.wf(),
        grid.alt_screen_mode,
        forall|i: int|
            0 <= i < steps.len() ==> 0 <= (#[trigger] steps[i]).top < steps[i].bottom <= grid.height,
    ensures
        scrolled_through(grid, steps).wf(),
        scrolled_through(grid, steps).alt_screen_mode,
        scrolled_through(grid, steps).height == grid.height,
        scrolled_through(grid, steps).scrollback_len() == grid.scrollback_len(),
        scrolled_through(grid, steps).rows.len() == grid.rows.len(),
    decreases steps.len(),
{
    if steps.len() > 0 {
        let before = scrolled_through(grid, steps.drop_last());
        let last = steps.last();
        assert forall|i: int| 0 <= i < steps.drop_last().len() implies 0 <= (
        #[trigger] steps.drop_last()[i]).top < steps.drop_last()[i].bottom <= grid.height by {
            assert(steps.drop_last()[i] == steps[i]);
        }
        lemma_alt_screen_keeps_scrollback(grid, steps.drop_last());
        before.lemma_scrolled(last.count, last.top, last.bottom, last.cell);
    }
}

/// In a color scheme the index 256 stands for the foreground and the index
/// 257 for the background.
pub proof fn lemma_special_indices(scheme: ColorScheme)
    ensures
        scheme.entry(256) == scheme.foreground,
        scheme.entry(257) == scheme.background,
{
}

/// A table of blends holds the background at intensity 0 and the
/// foreground at intensity 255, on every channel.
pub proof fn lemma_ramp_ends(cache: ColorCache, foreground: Rgb, background: Rgb)
    requires
        cache.is_ramp(foreground, background),
    ensures
        cache.at(0) == background,
        cache.at(255) == foreground,
{
    cache.lemma_at(0);
    cache.lemma_at(255);
    lemma_blend_bounds(foreground.0, background.0, 0);
    lemma_blend_bounds(foreground.1, background.1, 0);
    lemma_blend_bounds(foreground.2, background.2, 0);
    assert(cache.at_each(0, 0, 0) == background);
    assert(cache.at_each(255, 255, 255) == foreground);
}

/// A wide glyph that is put on the screen with room for both halves fills
/// the cell at the cursor, and the cell to its right holds the placeholder:
/// the same cell but for the placeholder mark. Reading the placeholder gives
/// the placeholder.
pub proof fn lemma_wide_glyph(screen: ScreenView, glyph: Cell)
    requires
        screen.wf(),
        glyph.wide,
        screen.cursor.column + 1 < screen.width(),
    ensures
        screen.place(glyph).grid.cell(screen.cursor.row as int, screen.cursor.column as int)
            == glyph,
        screen.place(glyph).grid.cell(screen.cursor.row as int, screen.cursor.column + 1)
            == glyph.as_placeholder(),
        glyph.as_placeholder().placeholder,
        glyph.as_placeholder() == (Cell { placeholder: true, ..glyph }),
        screen.place(glyph).cursor.column == screen.cursor.column + 2,
{
    reveal(ScreenView::place);
    let row = screen.cursor.row as int;
    let col = screen.cursor.column as int;
    let first = screen.grid.with_cell(row, col, glyph);
    assert(first.row(row).len() == screen.grid.width);
}

/// A character of two columns that arrives with room for both halves in
/// the row fills the cell at the cursor with the pen holding the character,
/// wide and no placeholder. The cell to its right becomes the placeholder,
/// with the flags and colors of the first. The cursor stands two columns
/// further, and every other cell, and all else of the screen, is as before.
pub proof fn lemma_wide_input(screen: ScreenView, c: char)
    requires
        screen.wf(),
        screen.glyph(c).wide,
        screen.cursor.column + 2 <= screen.width(),
    ensures
        ({
            let after = screen.apply(Action::Input(c));
            let row = screen.cursor.row as int;
            let col = screen.cursor.column as int;
            let glyph = screen.glyph(c);
            &&& glyph == (Cell { content: glyph.content, wide: true, ..screen.template })
            &&& !glyph.placeholder
            &&& after.grid.cell(row, col) == glyph
            &&& after.grid.cell(row, col + 1) == (Cell { placeholder: true, ..glyph })
            &&& after.cursor == (Cursor { column: (col + 2) as usize, ..screen.cursor })
            &&& after == (ScreenView {
                cursor: after.cursor,
                grid: GridView {
                    rows: screen.grid.rows.update(
                        screen.grid.start_row + row,
                        screen.grid.row(row).update(col, glyph).update(
                            col + 1,
                            Cell { placeholder: true, ..glyph },
                        ),
                    ),
                    ..screen.grid
                },
                ..screen
            })
        }),
{
    reveal(ScreenView::input);
    reveal(ScreenView::place);
    let row = screen.cursor.row as int;
    let col = screen.cursor.column as int;
    let glyph = screen.glyph(c);
    let first = screen.grid.with_cell(row, col, glyph);
    assert(first.row(row).len() == screen.grid.width);
    let both = first.with_cell(row, col + 1, glyph.as_placeholder());
    assert(both.rows =~= screen.grid.rows.update(
        screen.grid.start_row + row,
        screen.grid.row(row).update(col, glyph).update(col + 1, glyph.as_placeholder()),
    ));
}

/// Saving the cursor and restoring it at once leaves the cursor as it was,
/// and nothing but the saved cursor differs from before.
pub proof fn lemma_save_restore(screen: ScreenView)
    ensures
        screen.apply(Action::SaveCursorPosition).apply(Action::RestoreCursorPosition).cursor
            == screen.cursor,
        screen.apply(Action::SaveCursorPosition).apply(Action::RestoreCursorPosition) == (
        ScreenView { saved_cursor: screen.cursor, ..screen }),
{
}

/// Entering the alternate screen and leaving it at once brings back the
/// cursor of the primary screen and the primary screen with its scrollback
/// and its viewport position, cell for cell, and switches the
/// alternate-screen mode off again. The pen is reset on leaving: it is what
/// it was before exactly if it was the blank pen.
pub proof fn lemma_alt_screen_round_trip(screen: ScreenView)
    requires
        screen.wf(),
        !screen.has_mode(TerminalMode::ALT_SCREEN),
    ensures
        ({
            let back = screen.apply(
                Action::SetPrivateMode(Mode::SwapScreenAndSetRestoreCursor),
            ).apply(Action::UnsetPrivateMode(Mode::SwapScreenAndSetRestoreCursor));
            &&& back.cursor == screen.cursor
            &&& back.grid.rows == screen.grid.rows
            &&& back.grid.start_row == screen.grid.start_row
            &&& back.grid.scrollback_len() == screen.grid.scrollback_len()
            &&& !back.grid.alt_screen_mode
            &&& back.mode == screen.mode
            &&& back.template == Cell::blank()
            &&& screen.template == Cell::blank() ==> back.template == screen.template
        }),
{
    reveal(ScreenView::set_private_mode);
    reveal(ScreenView::unset_private_mode);
    reveal(ScreenView::swap_alt_screen);
    let bits = screen.mode;
    assert((bits ^ 0x1000u32) & 0x1000u32 == 0x1000u32 && (bits ^ 0x1000u32) ^ 0x1000u32 == bits)
        by (bit_vector)
        requires
            bits & 0x1000u32 != 0x1000u32,
    ;
}

/// Resetting the pen and then changing one attribute gives the blank pen
/// with that one change, whatever the pen was before; so a character put on
/// the screen after the two calls is painted as with a blank cell that has
/// only that attribute.
pub proof fn lemma_reset_then_attribute(screen: ScreenView, attr: Attr, c: char)
    ensures
        pen_after(pen_after(screen.template, Attr::Reset), attr) == pen_after(Cell::blank(), attr),
        screen.apply(Action::TerminalAttribute(Attr::Reset)).apply(
            Action::TerminalAttribute(attr),
        ).apply(Action::Input(c)) == (ScreenView {
            template: pen_after(Cell::blank(), attr),
            ..screen
        }).apply(Action::Input(c)),
{
}

/// Scrolling touches neither the screen that is not active nor the mark
/// that says which screen is active.
pub proof fn lemma_scrolled_keeps_other(grid: GridView, count: int, top: int, bottom: int, cell: Cell)
    ensures
        grid.scrolled(count, top, bottom, cell).other_rows == grid.other_rows,
        grid.scrolled(count, top, bottom, cell).other_start_row == grid.other_start_row,
        grid.scrolled(count, top, bottom, cell).alt_screen_mode == grid.alt_screen_mode,
        grid.scrolled(count, top, bottom, cell).height == grid.height,
        grid.scrolled(count, top, bottom, cell).width == grid.width,
    decreases
            if count >= 0 {
                count
            } else {
                -count
            },
{
    if count > 0 {
        lemma_scrolled_keeps_other(grid, count - 1, top, bottom, cell);
        assert(grid.scrolled_up_by((count - 1) as nat, top, bottom, cell) == grid.scrolled(
            count - 1,
            top,
            bottom,
            cell,
        ));
    } else if count < -1 {
        lemma_scrolled_keeps_other(grid, count + 1, top, bottom, cell);
        assert(grid.scrolled_down_by((-count - 1) as nat, top, bottom, cell) == grid.scrolled(
            count + 1,
            top,
            bottom,
            cell,
        ));
    } else if count == -1 {
        assert(grid.scrolled_down_by(0, top, bottom, cell) == grid);
    }
}

/// Whether `after` is on the alternate screen and holds the same primary
/// screen and the same cursor for it as `before`.
pub open spec fn primary_kept(before: ScreenView, after: ScreenView) -> bool {
    &&& after.has_mode(TerminalMode::ALT_SCREEN)
    &&& after.grid.alt_screen_mode
    &&& after.alt_cursor == before.alt_cursor
    &&& after.grid.other_rows == before.grid.other_rows
    &&& after.grid.other_start_row == before.grid.other_start_row
    &&& after.grid.height == before.grid.height
    &&& after.grid.width == before.grid.width
}

/// Whether the call can take the screen off the alternate screen.
pub open spec fn leaves_alt_screen(action: Action) -> bool {
    action == Action::UnsetPrivateMode(Mode::SwapScreenAndSetRestoreCursor) || action
        == Action::ResetState
}

proof fn lemma_scroll_calls_keep_primary(screen: ScreenView, count: int)
    requires
        screen.has_mode(TerminalMode::ALT_SCREEN),
        screen.grid.alt_screen_mode,
    ensures
        primary_kept(screen, screen.scroll_up(count)),
        primary_kept(screen, screen.scroll_down(count)),
{
    reveal(ScreenView::scroll_up);
    reveal(ScreenView::scroll_down);
    let n = if count <= isize::MAX as int {
        count
    } else {
        isize::MAX as int
    };
    lemma_scrolled_keeps_other(screen.grid, n, screen.region.0, screen.region.1, screen.template);
    lemma_scrolled_keeps_other(screen.grid, -n, screen.region.0, screen.region.1, screen.template);
}

proof fn lemma_linefeed_keeps_primary(screen: ScreenView)
    requires
        screen.has_mode(TerminalMode::ALT_SCREEN),
        screen.grid.alt_screen_mode,
    ensures
        primary_kept(screen, screen.linefeed()),
        primary_kept(screen, screen.newline()),
        primary_kept(screen, screen.reverse_index()),
{
    reveal(ScreenView::linefeed);
    reveal(ScreenView::newline);
    reveal(ScreenView::reverse_index);
    lemma_scroll_calls_keep_primary(screen, 1);
    lemma_scroll_calls_keep_primary(screen.carriage_return(), 1);
}

proof fn lemma_motion_keeps_primary(screen: ScreenView, action: Action)
    requires
        screen.has_mode(TerminalMode::ALT_SCREEN),
        screen.grid.alt_screen_mode,
        screen.moved(action) is Some,
    ensures
        primary_kept(screen, screen.apply(action)),
{
    reveal(ScreenView::input);
    reveal(ScreenView::place);
    reveal(ScreenView::put_tab);
    reveal(ScreenView::blanking);
    reveal(ScreenView::move_forward_tabs);
    reveal(ScreenView::move_backward_tabs);
    lemma_linefeed_keeps_primary(screen);
}

proof fn lemma_edit_keeps_primary(screen: ScreenView, action: Action)
    requires
        screen.has_mode(TerminalMode::ALT_SCREEN),
        screen.grid.alt_screen_mode,
        screen.edited(action) is Some,
        action != Action::ResetState,
    ensures
        primary_kept(screen, screen.apply(action)),
{
    reveal(ScreenView::insert_blank);
    reveal(ScreenView::delete_chars);
    reveal(ScreenView::erase_chars);
    reveal(ScreenView::clear_line);
    reveal(ScreenView::clear_screen);
    reveal(ScreenView::blanking);
    match action {
        Action::InsertBlankLines(n) => lemma_scroll_calls_keep_primary(screen, n as int),
        Action::DeleteLines(n) => lemma_scroll_calls_keep_primary(screen, n as int),
        Action::ScrollUp(n) => lemma_scroll_calls_keep_primary(screen, n as int),
        Action::ScrollDown(n) => lemma_scroll_calls_keep_primary(screen, n as int),
        _ => {},
    }
}

proof fn lemma_mode_bits_keep_alt(bits: u32)
    by (bit_vector)
    requires
        bits & 0x1000u32 == 0x1000u32,
    ensures
        (bits | 0x0001u32) & 0x1000u32 == 0x1000u32,
        (bits | 0x0002u32) & 0x1000u32 == 0x1000u32,
        (bits | 0x0004u32) & 0x1000u32 == 0x1000u32,
        (bits | 0x0010u32) & 0x1000u32 == 0x1000u32,
        (bits | 0x0080u32) & 0x1000u32 == 0x1000u32,
        (bits | 0x0100u32) & 0x1000u32 == 0x1000u32,
        (bits | 0x0400u32) & 0x1000u32 == 0x1000u32,
        (bits & !0x0001u32) & 0x1000u32 == 0x1000u32,
        (bits & !0x0002u32) & 0x1000u32 == 0x1000u32,
        (bits & !0x0004u32) & 0x1000u32 == 0x1000u32,
        (bits & !0x0010u32) & 0x1000u32 == 0x1000u32,
        (bits & !0x0080u32) & 0x1000u32 == 0x1000u32,
        (bits & !0x0100u32) & 0x1000u32 == 0x1000u32,
        (bits & !0x0400u32) & 0x1000u32 == 0x1000u32,
{
}

#[verifier::rlimit(40)]
proof fn lemma_switch_keeps_primary(screen: ScreenView, action: Action)
    requires
        screen.has_mode(TerminalMode::ALT_SCREEN),
        screen.grid.alt_screen_mode,
        screen.switched(action) is Some,
        action != Action::UnsetPrivateMode(Mode::SwapScreenAndSetRestoreCursor),
    ensures
        primary_kept(screen, screen.apply(action)),
{
    reveal(ScreenView::set_private_mode);
    reveal(ScreenView::unset_private_mode);
    reveal(ScreenView::set_scrolling_region);
    lemma_mode_bits_keep_alt(screen.mode);
}

/// On the alternate screen no call but the two that can leave it touches
/// the primary screen or the cursor that is kept for it.
pub proof fn lemma_call_keeps_primary(screen: ScreenView, action: Action)
    requires
        screen.has_mode(TerminalMode::ALT_SCREEN),
        screen.grid.alt_screen_mode,
        !leaves_alt_screen(action),
    ensures
        primary_kept(screen, screen.apply(action)),
{
    if screen.moved(action) is Some {
        lemma_motion_keeps_primary(screen, action);
    } else if screen.edited(action) is Some {
        lemma_edit_keeps_primary(screen, action);
    } else if screen.switched(action) is Some {
        lemma_switch_keeps_primary(screen, action);
    }
}

/// The same for any number of calls.
pub proof fn lemma_calls_keep_primary(screen: ScreenView, actions: Seq<Action>)
    requires
        screen.has_mode(TerminalMode::ALT_SCREEN),
        screen.grid.alt_screen_mode,
        forall|i: int| 0 <= i < actions.len() ==> !leaves_alt_screen(#[trigger] actions[i]),
    ensures
        primary_kept(screen, screen.apply_all(actions)),
    decreases actions.len(),
{
    if actions.len() > 0 {
        let front = actions.drop_last();
        assert forall|i: int| 0 <= i < front.len() implies !leaves_alt_screen(
            #[trigger] front[i],
        ) by {
            assert(front[i] == actions[i]);
        }
        lemma_calls_keep_primary(screen, front);
        lemma_call_keeps_primary(screen.apply_all(front), actions.last());
    }
}

/// An excursion to the alternate screen: entering it, making any calls
/// there that do not leave it, and leaving it brings back the cursor of the
/// primary screen and the primary screen with its scrollback and its
/// viewport position, cell for cell; the alternate-screen mode is off again
/// and the pen is the blank pen.
pub proof fn lemma_alt_screen_excursion(screen: ScreenView, actions: Seq<Action>)
    requires
        screen.wf(),
        !screen.has_mode(TerminalMode::ALT_SCREEN),
        forall|i: int| 0 <= i < actions.len() ==> !leaves_alt_screen(#[trigger] actions[i]),
    ensures
        ({
            let back = screen.apply(
                Action::SetPrivateMode(Mode::SwapScreenAndSetRestoreCursor),
            ).apply_all(actions).apply(
                Action::UnsetPrivateMode(Mode::SwapScreenAndSetRestoreCursor),
            );
            &&& back.cursor == screen.cursor
            &&& back.grid.rows == screen.grid.rows
            &&& back.grid.start_row == screen.grid.start_row
            &&& back.grid.scrollback_len() == screen.grid.scrollback_len()
            &&& !back.grid.alt_screen_mode
            &&& !back.has_mode(TerminalMode::ALT_SCREEN)
            &&& back.template == Cell::blank()
        }),
{
    reveal(ScreenView::set_private_mode);
    reveal(ScreenView::unset_private_mode);
    reveal(ScreenView::swap_alt_screen);
    let entered = screen.apply(Action::SetPrivateMode(Mode::SwapScreenAndSetRestoreCursor));
    let bits = screen.mode;
    assert((bits ^ 0x1000u32) & 0x1000u32 == 0x1000u32) by (bit_vector)
        requires
            bits & 0x1000u32 != 0x1000u32,
    ;
    assert(entered == screen.swap_alt_screen());
    assert(entered.has_mode(TerminalMode::ALT_SCREEN));
    assert(entered.grid.alt_screen_mode);
    assert(entered.grid.other_rows == screen.grid.rows);
    assert(entered.grid.other_start_row == screen.grid.start_row);
    assert(entered.alt_cursor == screen.cursor);
    assert(entered.grid.height == screen.grid.height);
    lemma_calls_keep_primary(entered, actions);
    let busy = entered.apply_all(actions);
    assert(primary_kept(entered, busy));
    let later = busy.mode;
    assert((later ^ 0x1000u32) & 0x1000u32 != 0x1000u32) by (bit_vector)
        requires
            later & 0x1000u32 == 0x1000u32,
    ;
    let back = busy.apply(Action::UnsetPrivateMode(Mode::SwapScreenAndSetRestoreCursor));
    assert(back == busy.swap_alt_screen());
    assert(back.grid.rows == busy.grid.other_rows);
}

} // verus!
