//! The character grid: two screens of cells, the scrollback above the
//! primary one, and the snapshot of what was last painted.

use vstd::prelude::*;
use std::collections::VecDeque;
use core::ops::Range;
use crate::cell::Cell;
use crate::color::ColorScheme;
use crate::graphic::{block_pixels, cell_painting, DrawTarget, FontAnswer, Graphic, Pixel};

verus! {

pub const DEFAULT_HISTORY_SIZE: usize = 200;

/// A row of `width` copies of `cell`.
pub open spec fn blank_row(width: int, cell: Cell) -> Seq<Cell> {
    Seq::new(width as nat, |j: int| cell)
}

/// `row` with the columns from `from` up to `to` set to `cell`.
pub open spec fn row_filled(row: Seq<Cell>, from: int, to: int, cell: Cell) -> Seq<Cell> {
    Seq::new(
        row.len(),
        |j: int|
            if from <= j < to {
                cell
            } else {
                row[j]
            },
    )
}

/// `row` after `count` copies of `cell` are inserted at column `col`: the
/// cells from `col` on move right and those pushed past the end are lost.
pub open spec fn row_opened(row: Seq<Cell>, col: int, count: int, cell: Cell) -> Seq<Cell> {
    Seq::new(
        row.len(),
        |j: int|
            if j < col {
                row[j]
            } else if j < col + count {
                cell
            } else {
                row[j - count]
            },
    )
}

/// `row` after `count` cells are deleted at column `col`: the cells behind
/// them move left and `cell` fills the end.
pub open spec fn row_closed(row: Seq<Cell>, col: int, count: int, cell: Cell) -> Seq<Cell> {
    Seq::new(
        row.len(),
        |j: int|
            if j < col {
                row[j]
            } else if j < row.len() - count {
                row[j + count]
            } else {
                cell
            },
    )
}

/// The grid as mathematics. `rows` is the active screen with its scrollback
/// in front; the viewport is the `height` rows from `start_row` on.
pub struct GridView {
    pub width: int,
    pub height: int,
    pub pixel_size: (int, int),
    /// The alternate screen is the active one.
    pub alt_screen_mode: bool,
    pub rows: Seq<Seq<Cell>>,
    pub start_row: int,
    /// The screen that is not active, with its own viewport position.
    pub other_rows: Seq<Seq<Cell>>,
    pub other_start_row: int,
    pub history_size: int,
    pub flush_cache: Seq<Seq<Cell>>,
}

impl GridView {
    /// Every row of `rows` is `width` cells long.
    pub open spec fn rectangular(rows: Seq<Seq<Cell>>, width: int) -> bool {
        forall|i: int| 0 <= i < rows.len() ==> (#[trigger] rows[i]).len() == width
    }

    /// The invariant of the grid: both screens hold at least a viewport of
    /// rows, each viewport lies inside its screen, every row has the grid's
    /// width, the alternate screen has no scrollback, and the snapshot has
    /// the shape of the viewport.
    pub open spec fn wf(self) -> bool {
        &&& self.width >= 1
        &&& self.height >= 1
        &&& self.rows.len() >= self.height
        &&& 0 <= self.start_row <= self.rows.len() - self.height
        &&& self.other_rows.len() >= self.height
        &&& 0 <= self.other_start_row <= self.other_rows.len() - self.height
        &&& GridView::rectangular(self.rows, self.width)
        &&& GridView::rectangular(self.other_rows, self.width)
        &&& self.flush_cache.len() == self.height
        &&& GridView::rectangular(self.flush_cache, self.width)
        &&& self.history_size >= 0
        &&& self.alt_screen_mode ==> self.rows.len() == self.height
        &&& !self.alt_screen_mode ==> self.other_rows.len() == self.height
    }

    /// The rows of scrollback that the primary screen holds.
    pub open spec fn scrollback_len(self) -> int {
        if self.alt_screen_mode {
            self.other_rows.len() - self.height
        } else {
            self.rows.len() - self.height
        }
    }

    /// Whether the viewport shows the latest rows.
    pub open spec fn at_latest(self) -> bool {
        self.start_row == self.rows.len() - self.height
    }

    /// Row `r` of the viewport.
    pub open spec fn row(self, r: int) -> Seq<Cell> {
        self.rows[self.start_row + r]
    }

    /// The cell at row `r`, column `c` of the viewport.
    pub open spec fn cell(self, r: int, c: int) -> Cell {
        self.rows[self.start_row + r][c]
    }

    /// The viewport.
    pub open spec fn viewport(self) -> Seq<Seq<Cell>> {
        self.rows.subrange(self.start_row, self.start_row + self.height)
    }

    /// The grid with row `r` of the viewport replaced.
    pub open spec fn with_row(self, r: int, row: Seq<Cell>) -> GridView {
        GridView { rows: self.rows.update(self.start_row + r, row), ..self }
    }

    /// The grid with one cell of the viewport replaced.
    pub open spec fn with_cell(self, r: int, c: int, cell: Cell) -> GridView {
        self.with_row(r, self.row(r).update(c, cell))
    }

    /// The grid with the viewport rows from `from` up to `to` filled with
    /// `cell`.
    pub open spec fn with_rows_filled(self, from: int, to: int, cell: Cell) -> GridView {
        GridView {
            rows: Seq::new(
                self.rows.len(),
                |i: int|
                    if self.start_row + from <= i < self.start_row + to {
                        blank_row(self.width, cell)
                    } else {
                        self.rows[i]
                    },
            ),
            ..self
        }
    }

    /// The grid with its whole viewport filled with `cell`.
    pub open spec fn cleared(self, cell: Cell) -> GridView {
        self.with_rows_filled(0, self.height, cell)
    }

    /// How many of its oldest rows the screen drops when one more row joins
    /// the scrollback: as many as the scrollback then holds beyond its limit,
    /// but none from the viewport on.
    pub open spec fn evicted(self) -> int {
        let excess = self.rows.len() + 1 - self.height - self.history_size;
        if excess <= 0 {
            0
        } else if excess <= self.start_row + 1 {
            excess
        } else {
            self.start_row + 1
        }
    }

    /// One step of scrolling the region `[top, bottom)` up: the region's
    /// rows move up by one and a row of `cell` appears at `bottom - 1`. On the
    /// primary screen with `top == 0` the row that leaves becomes scrollback,
    /// and the oldest rows are dropped as far as the scrollback is over its
    /// limit. Everywhere else the row that leaves is lost.
    pub open spec fn scrolled_up(self, top: int, bottom: int, cell: Cell) -> GridView {
        let fresh = blank_row(self.width, cell);
        if !self.alt_screen_mode && top == 0 {
            let grown = self.rows.insert(self.start_row + bottom, fresh);
            GridView {
                rows: grown.subrange(self.evicted(), grown.len() as int),
                start_row: self.start_row + 1 - self.evicted(),
                ..self
            }
        } else {
            GridView {
                rows: self.rows.remove(self.start_row + top).insert(
                    self.start_row + bottom - 1,
                    fresh,
                ),
                ..self
            }
        }
    }

    /// Whether a row that leaves the viewport at its lower edge stays in the
    /// screen: on the primary screen, when the region ends with the viewport,
    /// and when there is room for one more row or an oldest row above the
    /// viewport to drop for it.
    pub open spec fn keeps_below(self, bottom: int) -> bool {
        &&& !self.alt_screen_mode
        &&& bottom == self.height
        &&& (self.rows.len() < self.history_size + self.height || self.start_row > 0)
    }

    /// One step of scrolling the region `[top, bottom)` down: the region's
    /// rows move down by one and a row of `cell` appears at `top`. On the
    /// primary screen with `bottom == height` the row that leaves the
    /// viewport stays in the screen as the row below the viewport; where the
    /// screen is full, the oldest row above the viewport is dropped for it.
    /// Everywhere else, and where the screen is full and holds no row above
    /// the viewport, the row that leaves is lost.
    pub open spec fn scrolled_down(self, top: int, bottom: int, cell: Cell) -> GridView {
        let fresh = blank_row(self.width, cell);
        if self.keeps_below(bottom) {
            let grown = self.rows.insert(self.start_row + top, fresh);
            if self.rows.len() < self.history_size + self.height {
                GridView { rows: grown, ..self }
            } else {
                GridView {
                    rows: grown.subrange(1, grown.len() as int),
                    start_row: self.start_row - 1,
                    ..self
                }
            }
        } else {
            GridView {
                rows: self.rows.remove(self.start_row + bottom - 1).insert(
                    self.start_row + top,
                    fresh,
                ),
                ..self
            }
        }
    }

    /// `n` steps of scrolling the region up.
    pub open spec fn scrolled_up_by(self, n: nat, top: int, bottom: int, cell: Cell) -> GridView
        decreases n,
    {
        if n == 0 {
            self
        } else {
            self.scrolled_up_by((n - 1) as nat, top, bottom, cell).scrolled_up(top, bottom, cell)
        }
    }

    /// `n` steps of scrolling the region down.
    pub open spec fn scrolled_down_by(self, n: nat, top: int, bottom: int, cell: Cell) -> GridView
        decreases n,
    {
        if n == 0 {
            self
        } else {
            self.scrolled_down_by((n - 1) as nat, top, bottom, cell).scrolled_down(
                top,
                bottom,
                cell,
            )
        }
    }

    /// The grid after `count` rows of scrolling: up for a positive count,
    /// down for a negative one.
    pub open spec fn scrolled(self, count: int, top: int, bottom: int, cell: Cell) -> GridView {
        if count >= 0 {
            self.scrolled_up_by(count as nat, top, bottom, cell)
        } else {
            self.scrolled_down_by((-count) as nat, top, bottom, cell)
        }
    }

    /// The grid with the two screens exchanged; the screen that becomes
    /// active is cleared with `cell` when it is the alternate one.
    pub open spec fn swapped(self, cell: Cell) -> GridView {
        let exchanged = GridView {
            alt_screen_mode: !self.alt_screen_mode,
            rows: self.other_rows,
            start_row: self.other_start_row,
            other_rows: self.rows,
            other_start_row: self.start_row,
            ..self
        };
        if exchanged.alt_screen_mode {
            exchanged.cleared(cell)
        } else {
            exchanged
        }
    }

    /// The grid without the rows above the viewport, on the primary screen;
    /// unchanged on the alternate one.
    pub open spec fn without_history(self) -> GridView {
        if self.alt_screen_mode {
            self
        } else {
            GridView {
                rows: self.rows.subrange(self.start_row, self.rows.len() as int),
                start_row: 0,
                ..self
            }
        }
    }

    /// The viewport position after moving it up by `count` rows (down for a
    /// negative count), kept inside the screen.
    pub open spec fn history_position(self, count: int) -> int {
        let target = self.start_row - count;
        if target < 0 {
            0
        } else if target > self.rows.len() - self.height {
            self.rows.len() - self.height
        } else {
            target
        }
    }

    /// Scrolling up keeps the invariant, and on the alternate screen neither
    /// screen changes its number of rows.
    pub proof fn lemma_scrolled_up(self, top: int, bottom: int, cell: Cell)
        requires
            self.wf(),
            0 <= top < bottom <= self.height,
        ensures
            self.scrolled_up(top, bottom, cell).wf(),
            self.scrolled_up(top, bottom, cell).at_latest() == self.at_latest(),
            self.alt_screen_mode ==> self.scrolled_up(top, bottom, cell).scrollback_len()
                == self.scrollback_len(),
            self.scrolled_up(top, bottom, cell).scrollback_len() <= self.scrollback_len() + 1,
    {
        let after = self.scrolled_up(top, bottom, cell);
        let fresh = blank_row(self.width, cell);
        assert(fresh.len() == self.width);
        assert forall|i: int| 0 <= i < after.rows.len() implies (#[trigger] after.rows[i]).len()
            == self.width by {
            if !self.alt_screen_mode && top == 0 {
                let at = self.start_row + bottom;
                let grown = self.rows.insert(at, fresh);
                let k = i + self.evicted();
                assert(after.rows[i] == grown[k]);
                if k < at {
                    assert(grown[k] == self.rows[k]);
                } else if k == at {
                    assert(grown[k] == fresh);
                } else {
                    assert(grown[k] == self.rows[k - 1]);
                }
            } else {
                let gone = self.start_row + top;
                let at = self.start_row + bottom - 1;
                let mid = self.rows.remove(gone);
                assert forall|k: int| 0 <= k < mid.len() implies (#[trigger] mid[k]).len()
                    == self.width by {
                    if k < gone {
                        assert(mid[k] == self.rows[k]);
                    } else {
                        assert(mid[k] == self.rows[k + 1]);
                    }
                }
                if i < at {
                    assert(after.rows[i] == mid[i]);
                } else if i == at {
                    assert(after.rows[i] == fresh);
                } else {
                    assert(after.rows[i] == mid[i - 1]);
                }
            }
        }
    }

    /// Scrolling down keeps the invariant, the viewport position and the
    /// number of rows.
    pub proof fn lemma_scrolled_down(self, top: int, bottom: int, cell: Cell)
        requires
            self.wf(),
            0 <= top < bottom <= self.height,
        ensures
            self.scrolled_down(top, bottom, cell).wf(),
            self.scrolled_down(top, bottom, cell).rows.len() >= self.rows.len(),
            self.scrolled_down(top, bottom, cell).rows.len() <= self.rows.len() + 1,
            self.scrolled_down(top, bottom, cell).start_row <= self.start_row,
            self.alt_screen_mode || bottom < self.height ==> self.scrolled_down(
                top,
                bottom,
                cell,
            ).start_row == self.start_row && self.scrolled_down(top, bottom, cell).rows.len()
                == self.rows.len(),
            self.alt_screen_mode ==> self.scrolled_down(top, bottom, cell).scrollback_len()
                == self.scrollback_len(),
            forall|r: int|
                0 <= r < self.height ==> #[trigger] self.scrolled_down(top, bottom, cell).row(r) == (
                if r < top || r >= bottom {
                    self.row(r)
                } else if r == top {
                    blank_row(self.width, cell)
                } else {
                    self.row(r - 1)
                }),
    {
        let after = self.scrolled_down(top, bottom, cell);
        let fresh = blank_row(self.width, cell);
        let at = self.start_row + top;
        assert(fresh.len() == self.width);
        if self.keeps_below(bottom) {
            let grown = self.rows.insert(at, fresh);
            assert forall|k: int| 0 <= k < grown.len() implies (#[trigger] grown[k]).len()
                == self.width by {
                if k < at {
                    assert(grown[k] == self.rows[k]);
                } else if k == at {
                } else {
                    assert(grown[k] == self.rows[k - 1]);
                }
            }
            if self.rows.len() < self.history_size + self.height {
            } else {
                assert forall|i: int| 0 <= i < after.rows.len() implies (
                #[trigger] after.rows[i]).len() == self.width by {
                    assert(after.rows[i] == grown[i + 1]);
                }
            }
            assert forall|r: int| 0 <= r < self.height implies #[trigger] after.row(r) == (if r
                < top || r >= bottom {
                self.row(r)
            } else if r == top {
                fresh
            } else {
                self.row(r - 1)
            }) by {
                let k = self.start_row + r;
                assert(after.row(r) == grown[k]);
            }
        } else {
            let gone = self.start_row + bottom - 1;
            let mid = self.rows.remove(gone);
            assert forall|k: int| 0 <= k < mid.len() implies (#[trigger] mid[k]).len()
                == self.width by {
                if k < gone {
                    assert(mid[k] == self.rows[k]);
                } else {
                    assert(mid[k] == self.rows[k + 1]);
                }
            }
            assert forall|i: int| 0 <= i < after.rows.len() implies (#[trigger] after.rows[i]).len()
                == self.width by {
                if i < at {
                    assert(after.rows[i] == mid[i]);
                } else if i == at {
                    assert(after.rows[i] == fresh);
                } else {
                    assert(after.rows[i] == mid[i - 1]);
                }
            }
            assert forall|r: int| 0 <= r < self.height implies #[trigger] after.row(r) == (if r
                < top || r >= bottom {
                self.row(r)
            } else if r == top {
                fresh
            } else {
                self.row(r - 1)
            }) by {
                let k = self.start_row + r;
                if k < at {
                    assert(after.rows[k] == mid[k]);
                } else if k == at {
                } else {
                    assert(after.rows[k] == mid[k - 1]);
                }
            }
        }
    }

    /// Any number of scroll steps keeps the invariant and the shape of the
    /// grid. On the alternate screen the scrollback keeps its length; there,
    /// and when scrolling up, a viewport at the latest rows stays there.
    pub proof fn lemma_scrolled(self, count: int, top: int, bottom: int, cell: Cell)
        requires
            self.wf(),
            0 <= top < bottom <= self.height,
        ensures
            self.scrolled(count, top, bottom, cell).wf(),
            self.scrolled(count, top, bottom, cell).width == self.width,
            self.scrolled(count, top, bottom, cell).height == self.height,
            count >= 0 || self.alt_screen_mode ==> self.scrolled(
                count,
                top,
                bottom,
                cell,
            ).at_latest() == self.at_latest(),
            self.scrolled(count, top, bottom, cell).alt_screen_mode == self.alt_screen_mode,
            self.scrolled(count, top, bottom, cell).other_rows == self.other_rows,
            self.scrolled(count, top, bottom, cell).flush_cache == self.flush_cache,
            self.scrolled(count, top, bottom, cell).history_size == self.history_size,
            self.alt_screen_mode ==> self.scrolled(count, top, bottom, cell).scrollback_len()
                == self.scrollback_len(),
        decreases
                if count >= 0 {
                    count
                } else {
                    -count
                },
    {
        if count > 0 {
            self.lemma_scrolled(count - 1, top, bottom, cell);
            let before = self.scrolled_up_by((count - 1) as nat, top, bottom, cell);
            assert(before == self.scrolled(count - 1, top, bottom, cell));
            before.lemma_scrolled_up(top, bottom, cell);
        } else if count < 0 {
            let before = self.scrolled_down_by((-count - 1) as nat, top, bottom, cell);
            if count < -1 {
                self.lemma_scrolled(count + 1, top, bottom, cell);
                assert(before == self.scrolled(count + 1, top, bottom, cell));
            } else {
                assert(before == self);
            }
            before.lemma_scrolled_down(top, bottom, cell);
        }
    }
}


/// What the font and the display answered while everything was painted
/// anew: the font for each cell of each row, the display its size.
pub struct FlushAnswers {
    pub cells: Seq<Seq<FontAnswer>>,
    pub display: (usize, usize),
}

impl GridView {
    /// Whether a flush paints the cell at row `r`, column `c`: every cell
    /// when everything is painted anew (`all`), else a cell that differs from
    /// what was last painted there.
    pub open spec fn repaints(self, all: bool, r: int, c: int) -> bool {
        all || self.cell(r, c) != self.flush_cache[r][c]
    }

    /// The pixels that a flush paints for the first `upto` cells of viewport
    /// row `r`, left to right, where `answers` holds what the font answered
    /// for each cell of the row.
    pub open spec fn row_repainting(
        self,
        all: bool,
        scheme: ColorScheme,
        r: int,
        upto: int,
        answers: Seq<FontAnswer>,
    ) -> Seq<Pixel>
        decreases upto,
    {
        if upto <= 0 {
            Seq::empty()
        } else {
            self.row_repainting(all, scheme, r, upto - 1, answers) + (if self.repaints(
                all,
                r,
                upto - 1,
            ) {
                cell_painting(
                    self.cell(r, upto - 1),
                    r,
                    upto - 1,
                    scheme,
                    answers[upto - 1].size,
                    answers[upto - 1].raster,
                )
            } else {
                Seq::empty()
            })
        }
    }

    /// The pixels that a flush paints for the first `upto` rows of the
    /// viewport, top to bottom, where `answers` holds what the font answered
    /// for each cell of each row.
    pub open spec fn repainting(
        self,
        all: bool,
        scheme: ColorScheme,
        upto: int,
        answers: Seq<Seq<FontAnswer>>,
    ) -> Seq<Pixel>
        decreases upto,
    {
        if upto <= 0 {
            Seq::empty()
        } else {
            self.repainting(all, scheme, upto - 1, answers) + self.row_repainting(
                all,
                scheme,
                upto - 1,
                self.width,
                answers[upto - 1],
            )
        }
    }

    /// The pixels of the margins to the right of and below the cells, on a
    /// display of the given size: first the margin below, then the one to
    /// the right over the whole height.
    pub open spec fn margin_pixels(self, display: (usize, usize), color: crate::color::Rgb) -> Seq<
        Pixel,
    > {
        (if 0 < self.pixel_size.0 && self.pixel_size.1 < display.1 {
            block_pixels(self.pixel_size.0, display.1 - self.pixel_size.1, 0, self.pixel_size.1, color)
        } else {
            Seq::empty()
        }) + (if self.pixel_size.0 < display.0 && 0 < display.1 {
            block_pixels(display.0 - self.pixel_size.0, display.1 as int, self.pixel_size.0, 0, color)
        } else {
            Seq::empty()
        })
    }

    /// The pixels that painting everything anew paints: every cell of the
    /// viewport if a font is installed, then the margins in the background of
    /// `scheme`; `answers` holds what the font and the display answered.
    pub open spec fn full_repainting(
        self,
        scheme: ColorScheme,
        has_font: bool,
        answers: FlushAnswers,
    ) -> Seq<Pixel> {
        (if has_font {
            self.repainting(true, scheme, self.height, answers.cells)
        } else {
            Seq::empty()
        }) + self.margin_pixels(answers.display, scheme.resolve(Cell::blank().background))
    }

    /// What is painted for a prefix of a row does not depend on what the
    /// font answers for later cells.
    pub proof fn lemma_row_repainting_prefix(
        self,
        all: bool,
        scheme: ColorScheme,
        r: int,
        upto: int,
        answers: Seq<FontAnswer>,
        more: Seq<FontAnswer>,
    )
        requires
            upto <= answers.len() <= more.len(),
            forall|k: int| 0 <= k < answers.len() ==> answers[k] == more[k],
        ensures
            self.row_repainting(all, scheme, r, upto, answers) == self.row_repainting(
                all,
                scheme,
                r,
                upto,
                more,
            ),
        decreases upto,
    {
        if upto > 0 {
            self.lemma_row_repainting_prefix(all, scheme, r, upto - 1, answers, more);
        }
    }

    /// What is painted for the first rows does not depend on what the font
    /// answers in later rows.
    pub proof fn lemma_repainting_prefix(
        self,
        all: bool,
        scheme: ColorScheme,
        upto: int,
        answers: Seq<Seq<FontAnswer>>,
        more: Seq<Seq<FontAnswer>>,
    )
        requires
            upto <= answers.len() <= more.len(),
            forall|k: int| 0 <= k < answers.len() ==> answers[k] == more[k],
        ensures
            self.repainting(all, scheme, upto, answers) == self.repainting(all, scheme, upto, more),
        decreases upto,
    {
        if upto > 0 {
            self.lemma_repainting_prefix(all, scheme, upto - 1, answers, more);
        }
    }

    /// Where nothing differs from what was last painted, a flush paints
    /// nothing.
    pub proof fn lemma_nothing_to_repaint(
        self,
        scheme: ColorScheme,
        upto: int,
        answers: Seq<Seq<FontAnswer>>,
    )
        requires
            self.wf(),
            self.flush_cache == self.viewport(),
            upto <= self.height,
        ensures
            self.repainting(false, scheme, upto, answers) == Seq::<Pixel>::empty(),
        decreases upto,
    {
        if upto > 0 {
            self.lemma_nothing_to_repaint(scheme, upto - 1, answers);
            self.lemma_nothing_in_row(scheme, upto - 1, self.width, answers[upto - 1]);
        }
    }

    /// Where a row does not differ from what was last painted, a flush
    /// paints nothing of it.
    pub proof fn lemma_nothing_in_row(
        self,
        scheme: ColorScheme,
        r: int,
        upto: int,
        answers: Seq<FontAnswer>,
    )
        requires
            self.wf(),
            self.flush_cache == self.viewport(),
            0 <= r < self.height,
            upto <= self.width,
        ensures
            self.row_repainting(false, scheme, r, upto, answers) == Seq::<Pixel>::empty(),
        decreases upto,
    {
        if upto > 0 {
            self.lemma_nothing_in_row(scheme, r, upto - 1, answers);
            assert(self.viewport()[r] == self.row(r));
        }
    }
}

/// The rows of a screen as mathematical sequences.
pub open spec fn lines(rows: Seq<Vec<Cell>>) -> Seq<Seq<Cell>> {
    rows.map_values(|r: Vec<Cell>| r@)
}

/// Replacing a row of a screen replaces the row of cells at its place.
proof fn lemma_lines_update(rows: Seq<Vec<Cell>>, index: int, row: Vec<Cell>)
    requires
        0 <= index < rows.len(),
    ensures
        lines(rows.update(index, row)) == lines(rows).update(index, row@),
{
    assert(lines(rows.update(index, row)) =~= lines(rows).update(index, row@));
}

/// Replacing a viewport row by a row of the same length keeps the grid's
/// invariant.
proof fn lemma_row_replaced(grid: GridView, r: int, row: Seq<Cell>)
    requires
        grid.wf(),
        0 <= r < grid.height,
    ensures
        row.len() == grid.width ==> grid.with_row(r, row).wf(),
{
    let after = grid.with_row(r, row);
    if row.len() == grid.width {
        assert forall|i: int| 0 <= i < after.rows.len() implies (#[trigger] after.rows[i]).len()
            == grid.width by {
            if i != grid.start_row + r {
                assert(after.rows[i] == grid.rows[i]);
            }
        }
    }
}

/// Calls `VecDeque::get_mut`.
///
/// Assumed, not proved: the call gives the element at `index`, counted from
/// the front, exactly when there is one, and what is written through the
/// reference replaces that element and nothing else.
#[verifier::external_body]
fn deque_get_mut<T>(v: &mut VecDeque<T>, index: usize) -> (slot: Option<&mut T>)
    ensures
        match slot {
            Some(x) => {
                &&& index < old(v)@.len()
                &&& *x == old(v)@[index as int]
                &&& final(v)@ == old(v)@.update(index as int, *final(x))
            },
            None => {
                &&& old(v)@.len() <= index
                &&& final(v)@ == old(v)@
            },
        },
{
    v.get_mut(index)
}

/// Drops the `count` oldest rows of a screen.
fn drop_oldest(buffer: &mut VecDeque<Vec<Cell>>, count: usize)
    requires
        count <= old(buffer)@.len(),
    ensures
        lines(final(buffer)@) == lines(old(buffer)@).subrange(
            count as int,
            old(buffer)@.len() as int,
        ),
{
    let ghost before = lines(buffer@);
    let mut i: usize = 0;
    assert(lines(buffer@) =~= before.subrange(0, before.len() as int));
    while i < count
        invariant
            i <= count <= before.len(),
            before == lines(old(buffer)@),
            lines(buffer@) == before.subrange(i as int, before.len() as int),
        decreases count - i,
    {
        let ghost held = buffer@;
        assert(lines(held).len() == before.len() - i);
        let removed = buffer.remove(0);
        assert(buffer@ == held.remove(0));
        assert forall|k: int| 0 <= k < buffer@.len() implies lines(buffer@)[k] == before[i + 1
            + k] by {
            assert(buffer@[k] == held[k + 1]);
            assert(lines(held)[k + 1] == before[i + (k + 1)]);
        }
        assert(lines(buffer@) =~= before.subrange(i + 1, before.len() as int));
        i += 1;
    }
}

/// A row of `width` copies of `cell`.
fn new_row(width: usize, cell: Cell) -> (r: Vec<Cell>)
    ensures
        r@ == blank_row(width as int, cell),
{
    let mut row: Vec<Cell> = Vec::new();
    let mut j: usize = 0;
    while j < width
        invariant
            j <= width,
            row@.len() == j,
            forall|k: int| 0 <= k < j ==> #[trigger] row@[k] == cell,
        decreases width - j,
    {
        row.push(cell);
        j += 1;
    }
    assert(row@ =~= blank_row(width as int, cell));
    row
}

/// Sets the columns from `from` up to `to` of `row` to `cell`.
fn fill_cells(row: &mut Vec<Cell>, from: usize, to: usize, cell: Cell)
    requires
        to <= old(row).len(),
    ensures
        final(row)@ == row_filled(old(row)@, from as int, to as int, cell),
{
    let mut j: usize = from;
    while j < to
        invariant
            to <= row.len(),
            row.len() == old(row).len(),
            from <= j,
            from <= to ==> j <= to,
            from > to ==> j == from,
            forall|k: int|
                0 <= k < row.len() ==> #[trigger] row@[k] == (if from <= k < j {
                    cell
                } else {
                    old(row)@[k]
                }),
        decreases to - j,
    {
        row[j] = cell;
        j += 1;
    }
    assert(row@ =~= row_filled(old(row)@, from as int, to as int, cell));
}

/// Inserts `count` copies of `cell` at column `col` of `row`.
fn open_cells(row: &mut Vec<Cell>, col: usize, count: usize, cell: Cell)
    requires
        col + count <= old(row).len(),
    ensures
        final(row)@ == row_opened(old(row)@, col as int, count as int, cell),
{
    let len = row.len();
    let mut j: usize = len;
    while j > col + count
        invariant
            col + count <= j <= len,
            len == old(row).len(),
            row.len() == len,
            forall|k: int|
                0 <= k < len ==> #[trigger] row@[k] == (if j <= k {
                    old(row)@[k - count]
                } else {
                    old(row)@[k]
                }),
        decreases j,
    {
        j -= 1;
        row[j] = row[j - count];
    }
    let ghost moved = row@;
    let mut i: usize = col;
    while i < col + count
        invariant
            col <= i <= col + count <= len,
            len == old(row).len(),
            row.len() == len,
            forall|k: int|
                0 <= k < len ==> #[trigger] row@[k] == (if col <= k < i {
                    cell
                } else {
                    moved[k]
                }),
        decreases col + count - i,
    {
        row[i] = cell;
        i += 1;
    }
    assert(row@ =~= row_opened(old(row)@, col as int, count as int, cell));
}

/// Deletes `count` cells at column `col` of `row` and fills the end with
/// `cell`.
fn close_cells(row: &mut Vec<Cell>, col: usize, count: usize, cell: Cell)
    requires
        col + count <= old(row).len(),
    ensures
        final(row)@ == row_closed(old(row)@, col as int, count as int, cell),
{
    let len = row.len();
    let mut j: usize = col;
    while j < len - count
        invariant
            col <= j <= len - count,
            len == old(row).len(),
            row.len() == len,
            forall|k: int|
                0 <= k < len ==> #[trigger] row@[k] == (if col <= k < j {
                    old(row)@[k + count]
                } else {
                    old(row)@[k]
                }),
        decreases len - count - j,
    {
        row[j] = row[j + count];
        j += 1;
    }
    let ghost moved = row@;
    let mut i: usize = len - count;
    while i < len
        invariant
            len - count <= i <= len,
            len == old(row).len(),
            row.len() == len,
            forall|k: int|
                0 <= k < len ==> #[trigger] row@[k] == (if len - count <= k < i {
                    cell
                } else {
                    moved[k]
                }),
        decreases len - i,
    {
        row[i] = cell;
        i += 1;
    }
    assert(row@ =~= row_closed(old(row)@, col as int, count as int, cell));
}

/// The size of a signed count.
pub fn magnitude(count: isize) -> (r: usize)
    ensures
        r == (if count >= 0 {
            count as int
        } else {
            -(count as int)
        }),
{
    if count >= 0 {
        count as usize
    } else {
        ((-(count + 1)) as usize) + 1
    }
}

pub struct TerminalBuffer {
    size: (usize, usize),
    pixel_size: (usize, usize),
    alt_screen_mode: bool,
    flush_cache: Vec<Vec<Cell>>,
    start_row: usize,
    alt_start_row: usize,
    history_size: usize,
    buffer: VecDeque<Vec<Cell>>,
    alt_buffer: VecDeque<Vec<Cell>>,
}

impl View for TerminalBuffer {
    type V = GridView;

    closed spec fn view(&self) -> GridView {
        GridView {
            width: self.size.0 as int,
            height: self.size.1 as int,
            pixel_size: (self.pixel_size.0 as int, self.pixel_size.1 as int),
            alt_screen_mode: self.alt_screen_mode,
            rows: lines(self.buffer@),
            start_row: self.start_row as int,
            other_rows: lines(self.alt_buffer@),
            other_start_row: self.alt_start_row as int,
            history_size: self.history_size as int,
            flush_cache: lines(self.flush_cache@),
        }
    }
}

/// A screen of `height` rows of `width` copies of `cell`.
fn new_screen(width: usize, height: usize, cell: Cell) -> (r: VecDeque<Vec<Cell>>)
    ensures
        lines(r@) == Seq::new(height as nat, |i: int| blank_row(width as int, cell)),
{
    let mut screen: VecDeque<Vec<Cell>> = VecDeque::new();
    let mut i: usize = 0;
    while i < height
        invariant
            i <= height,
            screen@.len() == i,
            forall|k: int| 0 <= k < i ==> (#[trigger] screen@[k])@ == blank_row(width as int, cell),
        decreases height - i,
    {
        screen.push_back(new_row(width, cell));
        i += 1;
    }
    assert(lines(screen@) =~= Seq::new(height as nat, |i: int| blank_row(width as int, cell)));
    screen
}

/// A snapshot of `height` rows of `width` copies of `cell`.
fn new_snapshot(width: usize, height: usize, cell: Cell) -> (r: Vec<Vec<Cell>>)
    ensures
        lines(r@) == Seq::new(height as nat, |i: int| blank_row(width as int, cell)),
{
    let mut rows: Vec<Vec<Cell>> = Vec::new();
    let mut i: usize = 0;
    while i < height
        invariant
            i <= height,
            rows@.len() == i,
            forall|k: int| 0 <= k < i ==> (#[trigger] rows@[k])@ == blank_row(width as int, cell),
        decreases height - i,
    {
        rows.push(new_row(width, cell));
        i += 1;
    }
    assert(lines(rows@) =~= Seq::new(height as nat, |i: int| blank_row(width as int, cell)));
    rows
}

impl GridView {
    /// A grid of the given shape whose screens and snapshot are blank and
    /// that holds no scrollback.
    pub open spec fn fresh(
        width: int,
        height: int,
        pixel_size: (int, int),
        history_size: int,
        alt_screen_mode: bool,
    ) -> GridView {
        let screen = Seq::new(height as nat, |i: int| blank_row(width, Cell::blank()));
        GridView {
            width,
            height,
            pixel_size,
            alt_screen_mode,
            rows: screen,
            start_row: 0,
            other_rows: screen,
            other_start_row: 0,
            history_size,
            flush_cache: screen,
        }
    }

    /// The grid after the display or the font changed size: with the same
    /// number of rows and columns only the painted area changes; otherwise
    /// everything is allocated anew and the scrollback is gone.
    pub open spec fn resized(self, width: int, height: int, pixel_size: (int, int)) -> GridView {
        if self.width == width && self.height == height {
            GridView { pixel_size, ..self }
        } else {
            GridView::fresh(width, height, pixel_size, self.history_size, self.alt_screen_mode)
        }
    }
}

impl Default for TerminalBuffer {
    /// A grid of one cell with the default scrollback limit.
    fn default() -> (r: TerminalBuffer)
        ensures
            r@ == GridView::fresh(1, 1, (0, 0), DEFAULT_HISTORY_SIZE as int, false),
            r@.wf(),
    {
        let cell = Cell::default();
        TerminalBuffer {
            size: (1, 1),
            pixel_size: (0, 0),
            alt_screen_mode: false,
            buffer: new_screen(1, 1, cell),
            alt_buffer: new_screen(1, 1, cell),
            flush_cache: new_snapshot(1, 1, cell),
            start_row: 0,
            alt_start_row: 0,
            history_size: DEFAULT_HISTORY_SIZE,
        }
    }
}

impl TerminalBuffer {
    /// The invariant of the grid.
    pub open spec fn wf(&self) -> bool {
        self@.wf()
    }

    pub fn width(&self) -> (r: usize)
        ensures
            r == self@.width,
    {
        self.size.0
    }

    pub fn height(&self) -> (r: usize)
        ensures
            r == self@.height,
    {
        self.size.1
    }

    /// Whether the alternate screen is the active one.
    pub fn is_alt_screen(&self) -> (r: bool)
        ensures
            r == self@.alt_screen_mode,
    {
        self.alt_screen_mode
    }

    /// The viewport position: the index of its first row in the screen.
    pub fn start_row(&self) -> (r: usize)
        ensures
            r == self@.start_row,
    {
        self.start_row
    }

    /// The number of rows that the active screen holds, scrollback included.
    pub fn total_rows(&self) -> (r: usize)
        ensures
            r == self@.rows.len(),
    {
        self.buffer.len()
    }

    /// The cell at row `r`, column `c` of the viewport.
    pub fn read(&self, r: usize, c: usize) -> (cell: Cell)
        requires
            self.wf(),
            r < self@.height,
            c < self@.width,
        ensures
            cell == self@.cell(r as int, c as int),
    {
        let total = self.buffer.len();
        assert(total == lines(self.buffer@).len());
        let row = &self.buffer[self.start_row + r];
        assert(lines(self.buffer@)[self.start_row + r] == row@);
        row[c]
    }

    /// The cell that was last painted at row `r`, column `c`.
    pub fn last_painted(&self, r: usize, c: usize) -> (cell: Cell)
        requires
            self.wf(),
            r < self@.height,
            c < self@.width,
        ensures
            cell == self@.flush_cache[r as int][c as int],
    {
        let row = &self.flush_cache[r];
        assert(lines(self.flush_cache@)[r as int] == row@);
        row[c]
    }

    /// The limit on the rows of scrollback.
    pub fn history_size(&self) -> (r: usize)
        ensures
            r == self@.history_size,
    {
        self.history_size
    }

    /// Replaces the cell at row `r`, column `c` of the viewport.
    pub fn write(&mut self, r: usize, c: usize, cell: Cell)
        requires
            old(self).wf(),
            r < old(self)@.height,
            c < old(self)@.width,
        ensures
            final(self)@ == old(self)@.with_cell(r as int, c as int, cell),
            final(self).wf(),
    {
        let total = self.buffer.len();
        assert(total == lines(self.buffer@).len());
        let index = self.start_row + r;
        assert(lines(self.buffer@)[index as int] == self.buffer@[index as int]@);
        match deque_get_mut(&mut self.buffer, index) {
            Some(row) => {
                row[c] = cell;
            },
            None => {},
        }
        proof {
            let at = index as int;
            assert(lines(self.buffer@) =~= lines(old(self).buffer@).update(
                at,
                old(self)@.row(r as int).update(c as int, cell),
            ));
        }
    }

    /// Row `row` of the viewport, to be read and written in place.
    pub fn row_mut(&mut self, row: usize) -> (cells: &mut [Cell])
        requires
            old(self).wf(),
            row < old(self)@.height,
        ensures
            cells@ == old(self)@.row(row as int),
            final(self)@ == old(self)@.with_row(row as int, final(cells)@),
            final(cells)@.len() == cells@.len() ==> final(self).wf(),
    {
        let total = self.buffer.len();
        assert(total == lines(self.buffer@).len());
        let index = self.start_row + row;
        assert(lines(self.buffer@)[index as int] == self.buffer@[index as int]@);
        let ghost before = self.buffer@;
        match deque_get_mut(&mut self.buffer, index) {
            Some(held) => {
                proof {
                    lemma_lines_update(before, index as int, *final(held));
                    lemma_row_replaced(old(self)@, row as int, final(held)@);
                }
                held.as_mut_slice()
            },
            None => vstd::pervasive::unreached(),
        }
    }

    /// Sets the columns from `from` up to `to` of viewport row `r` to `cell`.
    pub fn fill(&mut self, r: usize, from: usize, to: usize, cell: Cell)
        requires
            old(self).wf(),
            r < old(self)@.height,
            to <= old(self)@.width,
        ensures
            final(self)@ == old(self)@.with_row(
                r as int,
                row_filled(old(self)@.row(r as int), from as int, to as int, cell),
            ),
            final(self).wf(),
    {
        let total = self.buffer.len();
        assert(total == lines(self.buffer@).len());
        let index = self.start_row + r;
        assert(lines(self.buffer@)[index as int] == self.buffer@[index as int]@);
        match deque_get_mut(&mut self.buffer, index) {
            Some(row) => {
                fill_cells(row, from, to, cell);
            },
            None => {},
        }
        proof {
            assert(lines(self.buffer@) =~= lines(old(self).buffer@).update(
                index as int,
                row_filled(old(self)@.row(r as int), from as int, to as int, cell),
            ));
        }
    }

    /// Inserts `count` copies of `cell` at column `col` of viewport row `r`;
    /// the cells pushed past the end of the row are lost.
    pub fn insert_cells(&mut self, r: usize, col: usize, count: usize, cell: Cell)
        requires
            old(self).wf(),
            r < old(self)@.height,
            col + count <= old(self)@.width,
        ensures
            final(self)@ == old(self)@.with_row(
                r as int,
                row_opened(old(self)@.row(r as int), col as int, count as int, cell),
            ),
            final(self).wf(),
    {
        let total = self.buffer.len();
        assert(total == lines(self.buffer@).len());
        let index = self.start_row + r;
        assert(lines(self.buffer@)[index as int] == self.buffer@[index as int]@);
        match deque_get_mut(&mut self.buffer, index) {
            Some(row) => {
                open_cells(row, col, count, cell);
            },
            None => {},
        }
        proof {
            assert(lines(self.buffer@) =~= lines(old(self).buffer@).update(
                index as int,
                row_opened(old(self)@.row(r as int), col as int, count as int, cell),
            ));
        }
    }

    /// Deletes `count` cells at column `col` of viewport row `r`; `cell`
    /// fills the end of the row.
    pub fn delete_cells(&mut self, r: usize, col: usize, count: usize, cell: Cell)
        requires
            old(self).wf(),
            r < old(self)@.height,
            col + count <= old(self)@.width,
        ensures
            final(self)@ == old(self)@.with_row(
                r as int,
                row_closed(old(self)@.row(r as int), col as int, count as int, cell),
            ),
            final(self).wf(),
    {
        let total = self.buffer.len();
        assert(total == lines(self.buffer@).len());
        let index = self.start_row + r;
        assert(lines(self.buffer@)[index as int] == self.buffer@[index as int]@);
        match deque_get_mut(&mut self.buffer, index) {
            Some(row) => {
                close_cells(row, col, count, cell);
            },
            None => {},
        }
        proof {
            assert(lines(self.buffer@) =~= lines(old(self).buffer@).update(
                index as int,
                row_closed(old(self)@.row(r as int), col as int, count as int, cell),
            ));
        }
    }

    /// Fills the viewport rows from `from` up to `to` with `cell`.
    pub fn fill_rows(&mut self, from: usize, to: usize, cell: Cell)
        requires
            old(self).wf(),
            to <= old(self)@.height,
        ensures
            final(self)@ == old(self)@.with_rows_filled(from as int, to as int, cell),
            final(self).wf(),
    {
        let width = self.size.0;
        let mut r: usize = from;
        proof {
            assert(self@.rows =~= old(self)@.with_rows_filled(from as int, from as int, cell).rows);
        }
        while r < to
            invariant
                self.wf(),
                to <= self@.height,
                width == self@.width,
                from <= r,
                from <= to ==> r <= to,
                from > to ==> r == from,
                self@ == old(self)@.with_rows_filled(from as int, r as int, cell),
            decreases to - r,
        {
            let ghost before = self@;
            self.fill(r, 0, width, cell);
            proof {
                assert(row_filled(before.row(r as int), 0, width as int, cell) =~= blank_row(
                    width as int,
                    cell,
                ));
                assert(self@.rows =~= old(self)@.with_rows_filled(
                    from as int,
                    r + 1,
                    cell,
                ).rows);
            }
            r += 1;
        }
        proof {
            if from >= to {
                assert(self@.rows =~= old(self)@.with_rows_filled(
                    from as int,
                    to as int,
                    cell,
                ).rows);
            }
        }
    }

    /// Fills the viewport with `cell`.
    pub fn clear(&mut self, cell: Cell)
        requires
            old(self).wf(),
        ensures
            final(self)@ == old(self)@.cleared(cell),
            final(self).wf(),
    {
        let height = self.size.1;
        self.fill_rows(0, height, cell);
    }

    /// One step of scrolling the region `[top, bottom)` up.
    fn scroll_up_one(&mut self, top: usize, bottom: usize, cell: Cell)
        requires
            old(self).wf(),
            top < bottom <= old(self)@.height,
        ensures
            final(self)@ == old(self)@.scrolled_up(top as int, bottom as int, cell),
            final(self).wf(),
    {
        let total = self.buffer.len();
        assert(total == lines(self.buffer@).len());
        let width = self.size.0;
        let ghost before = lines(self.buffer@);
        let ghost fresh = blank_row(width as int, cell);
        proof {
            old(self)@.lemma_scrolled_up(top as int, bottom as int, cell);
        }
        if !self.alt_screen_mode && top == 0 {
            let at = self.start_row + bottom;
            self.buffer.insert(at, new_row(width, cell));
            assert(lines(self.buffer@) =~= before.insert(at as int, fresh));
            let grown = self.buffer.len();
            let moved = self.start_row + 1;
            let scrollback = grown - self.size.1;
            let excess = if scrollback > self.history_size {
                scrollback - self.history_size
            } else {
                0
            };
            let evict = if excess <= moved {
                excess
            } else {
                moved
            };
            drop_oldest(&mut self.buffer, evict);
            self.start_row = moved - evict;
        } else {
            let gone = self.start_row + top;
            let at = self.start_row + bottom - 1;
            let row = match self.buffer.remove(gone) {
                Some(mut row) => {
                    assert(row@ == before[gone as int]);
                    fill_cells(&mut row, 0, width, cell);
                    assert(row@ =~= fresh);
                    row
                },
                None => new_row(width, cell),
            };
            assert(lines(self.buffer@) =~= before.remove(gone as int));
            self.buffer.insert(at, row);
            assert(lines(self.buffer@) =~= before.remove(gone as int).insert(at as int, fresh));
        }
    }

    /// One step of scrolling the region `[top, bottom)` down.
    fn scroll_down_one(&mut self, top: usize, bottom: usize, cell: Cell)
        requires
            old(self).wf(),
            top < bottom <= old(self)@.height,
        ensures
            final(self)@ == old(self)@.scrolled_down(top as int, bottom as int, cell),
            final(self).wf(),
    {
        let total = self.buffer.len();
        assert(total == lines(self.buffer@).len());
        let width = self.size.0;
        let height = self.size.1;
        let ghost before = lines(self.buffer@);
        let ghost fresh = blank_row(width as int, cell);
        proof {
            old(self)@.lemma_scrolled_down(top as int, bottom as int, cell);
        }
        let at = self.start_row + top;
        let room = total - height < self.history_size;
        if !self.alt_screen_mode && bottom == height && (room || self.start_row > 0) {
            self.buffer.insert(at, new_row(width, cell));
            assert(lines(self.buffer@) =~= before.insert(at as int, fresh));
            if !room {
                drop_oldest(&mut self.buffer, 1);
                self.start_row = self.start_row - 1;
            }
        } else {
            let gone = self.start_row + bottom - 1;
            let row = match self.buffer.remove(gone) {
                Some(mut row) => {
                    assert(row@ == before[gone as int]);
                    fill_cells(&mut row, 0, width, cell);
                    assert(row@ =~= fresh);
                    row
                },
                None => new_row(width, cell),
            };
            assert(lines(self.buffer@) =~= before.remove(gone as int));
            self.buffer.insert(at, row);
            assert(lines(self.buffer@) =~= before.remove(gone as int).insert(at as int, fresh));
        }
    }

    /// Scrolls the rows of `region` by `count`: up for a positive count, so
    /// that rows of `cell` appear at the region's end, and down for a
    /// negative one, so that they appear at its start. Rows outside the
    /// region keep their place in the viewport. Scrolling up from the top of
    /// the primary screen moves the rows that leave into the scrollback and
    /// drops the oldest rows as far as the scrollback is over its limit.
    /// Scrolling down to the bottom of the primary screen keeps the rows
    /// that leave below the viewport, dropping an oldest row for each where
    /// the screen is full. Nothing else changes what lies outside the
    /// viewport.
    pub fn scroll_region(&mut self, count: isize, cell: Cell, region: Range<usize>)
        requires
            old(self).wf(),
            region.start < region.end <= old(self)@.height,
        ensures
            final(self)@ == old(self)@.scrolled(
                count as int,
                region.start as int,
                region.end as int,
                cell,
            ),
            final(self).wf(),
            old(self)@.alt_screen_mode || count >= 0 ==> final(self)@.at_latest() == old(
                self,
            )@.at_latest(),
            old(self)@.alt_screen_mode ==> final(self)@.scrollback_len() == old(
                self,
            )@.scrollback_len(),
    {
        let top = region.start;
        let bottom = region.end;
        let n = magnitude(count);
        let mut i: usize = 0;
        proof {
            old(self)@.lemma_scrolled(count as int, top as int, bottom as int, cell);
        }
        if count > 0 {
            while i < n
                invariant
                    i <= n,
                    self.wf(),
                    top < bottom <= self@.height,
                    self@.height == old(self)@.height,
                    self@ == old(self)@.scrolled_up_by(i as nat, top as int, bottom as int, cell),
                decreases n - i,
            {
                self.scroll_up_one(top, bottom, cell);
                i += 1;
            }
        } else {
            while i < n
                invariant
                    i <= n,
                    self.wf(),
                    top < bottom <= self@.height,
                    self@.height == old(self)@.height,
                    self@ == old(self)@.scrolled_down_by(
                        i as nat,
                        top as int,
                        bottom as int,
                        cell,
                    ),
                decreases n - i,
            {
                self.scroll_down_one(top, bottom, cell);
                i += 1;
            }
        }
    }

    /// Exchanges the primary and the alternate screen with their viewport
    /// positions; on entering the alternate screen its viewport is filled
    /// with `cell`.
    pub fn swap_alt_screen(&mut self, cell: Cell)
        requires
            old(self).wf(),
        ensures
            final(self)@ == old(self)@.swapped(cell),
            final(self).wf(),
    {
        self.alt_screen_mode = !self.alt_screen_mode;
        core::mem::swap(&mut self.buffer, &mut self.alt_buffer);
        core::mem::swap(&mut self.start_row, &mut self.alt_start_row);
        if self.alt_screen_mode {
            self.clear(cell);
        }
    }

    /// Fits the grid to a display of `graphic_size` pixels under a font
    /// whose cells are `font_size` pixels: as many whole cells as fit.
    pub fn update_size(&mut self, font_size: (usize, usize), graphic_size: (usize, usize))
        requires
            old(self).wf(),
            0 < font_size.0 <= graphic_size.0,
            0 < font_size.1 <= graphic_size.1,
        ensures
            final(self)@ == old(self)@.resized(
                graphic_size.0 as int / font_size.0 as int,
                graphic_size.1 as int / font_size.1 as int,
                (
                    font_size.0 * (graphic_size.0 as int / font_size.0 as int),
                    font_size.1 * (graphic_size.1 as int / font_size.1 as int),
                ),
            ),
            final(self).wf(),
    {
        let width = graphic_size.0 / font_size.0;
        let height = graphic_size.1 / font_size.1;
        assert(1 <= width && font_size.0 * width <= graphic_size.0) by (nonlinear_arith)
            requires
                0 < font_size.0 <= graphic_size.0,
                width == graphic_size.0 / font_size.0,
        ;
        assert(1 <= height && font_size.1 * height <= graphic_size.1) by (nonlinear_arith)
            requires
                0 < font_size.1 <= graphic_size.1,
                height == graphic_size.1 / font_size.1,
        ;
        self.pixel_size = (font_size.0 * width, font_size.1 * height);
        if self.size.0 != width || self.size.1 != height {
            let cell = Cell::default();
            self.size = (width, height);
            self.buffer = new_screen(width, height, cell);
            self.alt_buffer = new_screen(width, height, cell);
            self.flush_cache = new_snapshot(width, height, cell);
            self.start_row = 0;
            self.alt_start_row = 0;
        }
    }

    /// Drops the rows above the viewport; does nothing on the alternate
    /// screen.
    pub fn clear_history(&mut self)
        requires
            old(self).wf(),
        ensures
            final(self)@ == old(self)@.without_history(),
            final(self).wf(),
    {
        if !self.alt_screen_mode {
            let total = self.buffer.len();
            assert(total == lines(self.buffer@).len());
            let above = self.start_row;
            drop_oldest(&mut self.buffer, above);
            self.start_row = 0;
        }
    }

    /// Moves the viewport up by `count` rows into the scrollback, or down
    /// for a negative count; it stops at either end of the screen.
    pub fn scroll_history(&mut self, count: isize)
        requires
            old(self).wf(),
        ensures
            final(self)@ == (GridView {
                start_row: old(self)@.history_position(count as int),
                ..old(self)@
            }),
            final(self).wf(),
    {
        let total = self.buffer.len();
        assert(total == lines(self.buffer@).len());
        let max = total - self.size.1;
        let n = magnitude(count);
        if count >= 0 {
            self.start_row = if n > self.start_row {
                0
            } else {
                self.start_row - n
            };
        } else {
            self.start_row = if n > max - self.start_row {
                max
            } else {
                self.start_row + n
            };
        }
    }

    /// Sets the limit on the rows of scrollback. Rows beyond a smaller limit
    /// stay until the next row joins the scrollback.
    pub fn resize_history(&mut self, capacity: usize)
        requires
            old(self).wf(),
        ensures
            final(self)@ == (GridView { history_size: capacity as int, ..old(self)@ }),
            final(self).wf(),
    {
        self.history_size = capacity;
    }

    /// Moves the viewport to the latest rows.
    pub fn ensure_latest(&mut self)
        requires
            old(self).wf(),
        ensures
            final(self)@ == (GridView {
                start_row: old(self)@.rows.len() - old(self)@.height,
                ..old(self)@
            }),
            final(self)@.at_latest(),
            final(self).wf(),
    {
        let total = self.buffer.len();
        assert(total == lines(self.buffer@).len());
        self.start_row = total - self.size.1;
    }

    /// The grid after a flush: the snapshot equals the viewport.
    pub open spec fn flushed(view: GridView) -> GridView {
        GridView { flush_cache: view.viewport(), ..view }
    }

    /// Paints every cell of the viewport that differs from the snapshot of
    /// what was last painted, or every cell when `all` is set, row by row and
    /// left to right, and brings the snapshot up to date.
    fn repaint<D: DrawTarget>(&mut self, graphic: &mut Graphic<D>, all: bool)
        requires
            old(self).wf(),
            old(graphic).wf(),
        ensures
            final(self)@ == TerminalBuffer::flushed(old(self)@),
            final(self).wf(),
            final(graphic).wf(),
            final(graphic).scheme() == old(graphic).scheme(),
            final(graphic).has_font() == old(graphic).has_font(),
            final(graphic).cache_size() == old(graphic).cache_size(),
            !old(graphic).has_font() ==> final(graphic).painted() == old(graphic).painted(),
            old(graphic).has_font() ==> exists|answers: Seq<Seq<FontAnswer>>|
                final(graphic).painted() == old(graphic).painted() + #[trigger] old(
                    self,
                )@.repainting(all, old(graphic).scheme(), old(self)@.height, answers),
    {
        let total = self.buffer.len();
        assert(total == lines(self.buffer@).len());
        let width = self.size.0;
        let height = self.size.1;
        let ghost view = self@;
        let ghost scheme = graphic.scheme();
        let ghost before = graphic.painted();
        let ghost mut answers: Seq<Seq<FontAnswer>> = Seq::empty();
        let mut i: usize = 0;
        proof {
            assert forall|k: int| 0 <= k < height implies (#[trigger] self.flush_cache@[k])@.len()
                == width && self.flush_cache@[k]@ == view.flush_cache[k] by {
                assert(lines(self.flush_cache@)[k] == self.flush_cache@[k]@);
            }
            assert(before =~= before + view.repainting(all, scheme, 0, answers));
        }
        while i < height
            invariant
                i <= height,
                view == old(self)@,
                view.wf(),
                width == view.width,
                height == view.height,
                total == view.rows.len(),
                *self == (TerminalBuffer { flush_cache: self.flush_cache, ..*old(self) }),
                self.flush_cache@.len() == height,
                forall|k: int| 0 <= k < height ==> (#[trigger] self.flush_cache@[k])@.len() == width,
                forall|k: int| 0 <= k < i ==> (#[trigger] self.flush_cache@[k])@ == view.row(k),
                forall|k: int|
                    i <= k < height ==> (#[trigger] self.flush_cache@[k])@ == view.flush_cache[k],
                graphic.wf(),
                graphic.scheme() == scheme,
                scheme == old(graphic).scheme(),
                before == old(graphic).painted(),
                graphic.has_font() == old(graphic).has_font(),
                graphic.cache_size() == old(graphic).cache_size(),
                !graphic.has_font() ==> graphic.painted() == before,
                answers.len() == i,
                graphic.has_font() ==> graphic.painted() == before + view.repainting(
                    all,
                    scheme,
                    i as int,
                    answers,
                ),
            decreases height - i,
        {
            let ghost row_start = graphic.painted();
            let ghost mut row_answers: Seq<FontAnswer> = Seq::empty();
            let mut j: usize = 0;
            proof {
                assert(row_start =~= row_start + view.row_repainting(
                    all,
                    scheme,
                    i as int,
                    0,
                    row_answers,
                ));
            }
            while j < width
                invariant
                    i < height,
                    j <= width,
                    view == old(self)@,
                    view.wf(),
                    width == view.width,
                    height == view.height,
                    total == view.rows.len(),
                    *self == (TerminalBuffer { flush_cache: self.flush_cache, ..*old(self) }),
                    self.flush_cache@.len() == height,
                    forall|k: int|
                        0 <= k < height ==> (#[trigger] self.flush_cache@[k])@.len() == width,
                    forall|k: int| 0 <= k < i ==> (#[trigger] self.flush_cache@[k])@ == view.row(k),
                    forall|k: int|
                        i < k < height ==> (#[trigger] self.flush_cache@[k])@
                            == view.flush_cache[k],
                    forall|c: int|
                        0 <= c < width ==> (#[trigger] self.flush_cache@[i as int]@[c]) == (if c
                            < j {
                            view.cell(i as int, c)
                        } else {
                            view.flush_cache[i as int][c]
                        }),
                    graphic.wf(),
                    graphic.scheme() == scheme,
                    graphic.has_font() == old(graphic).has_font(),
                    graphic.cache_size() == old(graphic).cache_size(),
                    !graphic.has_font() ==> graphic.painted() == row_start,
                    row_answers.len() == j,
                    graphic.has_font() ==> graphic.painted() == row_start + view.row_repainting(
                        all,
                        scheme,
                        i as int,
                        j as int,
                        row_answers,
                    ),
                decreases width - j,
            {
                let row = &self.buffer[self.start_row + i];
                assert(lines(self.buffer@)[self.start_row + i] == row@);
                let cell = row[j];
                let ghost held = graphic.painted();
                let ghost known = row_answers;
                let ghost mut answer = FontAnswer { size: (0, 0), raster: Seq::empty() };
                if all || cell != self.flush_cache[i][j] {
                    graphic.write(i, j, cell);
                    proof {
                        if graphic.has_font() {
                            answer = choose|answer: FontAnswer|
                                graphic.painted() == held + #[trigger] cell_painting(
                                    cell,
                                    i as int,
                                    j as int,
                                    scheme,
                                    answer.size,
                                    answer.raster,
                                );
                        }
                    }
                    self.flush_cache[i][j] = cell;
                }
                proof {
                    row_answers = known.push(answer);
                    view.lemma_row_repainting_prefix(
                        all,
                        scheme,
                        i as int,
                        j as int,
                        known,
                        row_answers,
                    );
                    if graphic.has_font() {
                        assert(graphic.painted() =~= row_start + view.row_repainting(
                            all,
                            scheme,
                            i as int,
                            j + 1,
                            row_answers,
                        ));
                    }
                }
                j += 1;
            }
            assert(self.flush_cache@[i as int]@ =~= view.row(i as int));
            proof {
                let known = answers;
                answers = known.push(row_answers);
                view.lemma_repainting_prefix(all, scheme, i as int, known, answers);
                if graphic.has_font() {
                    assert(graphic.painted() =~= before + view.repainting(
                        all,
                        scheme,
                        i + 1,
                        answers,
                    ));
                }
            }
            i += 1;
        }
        assert(lines(self.flush_cache@) =~= view.viewport());
        assert(graphic.has_font() ==> graphic.painted() == old(graphic).painted() + old(
            self,
        )@.repainting(all, old(graphic).scheme(), old(self)@.height, answers));
    }

    /// Paints every cell of the viewport that differs from what was last
    /// painted there, row by row and left to right; afterwards the snapshot
    /// equals the viewport.
    pub fn flush<D: DrawTarget>(&mut self, graphic: &mut Graphic<D>)
        requires
            old(self).wf(),
            old(graphic).wf(),
        ensures
            final(self)@ == TerminalBuffer::flushed(old(self)@),
            final(self)@.flush_cache == final(self)@.viewport(),
            final(self).wf(),
            final(graphic).wf(),
            final(graphic).scheme() == old(graphic).scheme(),
            final(graphic).has_font() == old(graphic).has_font(),
            final(graphic).cache_size() == old(graphic).cache_size(),
            !old(graphic).has_font() || old(self)@.flush_cache == old(self)@.viewport()
                ==> final(graphic).painted() == old(graphic).painted(),
            old(graphic).has_font() ==> exists|answers: Seq<Seq<FontAnswer>>|
                final(graphic).painted() == old(graphic).painted() + #[trigger] old(
                    self,
                )@.repainting(false, old(graphic).scheme(), old(self)@.height, answers),
    {
        self.repaint(graphic, false);
        proof {
            if old(graphic).has_font() && old(self)@.flush_cache == old(self)@.viewport() {
                let answers = choose|answers: Seq<Seq<FontAnswer>>|
                    graphic.painted() == old(graphic).painted() + #[trigger] old(
                        self,
                    )@.repainting(false, old(graphic).scheme(), old(self)@.height, answers);
                old(self)@.lemma_nothing_to_repaint(
                    old(graphic).scheme(),
                    old(self)@.height,
                    answers,
                );
                assert(graphic.painted() =~= old(graphic).painted());
            }
        }
    }

    /// Paints every cell of the viewport anew, then the margins below and to
    /// the right of the cells in the scheme's background; afterwards the
    /// snapshot equals the viewport.
    pub fn full_flush<D: DrawTarget>(&mut self, graphic: &mut Graphic<D>)
        requires
            old(self).wf(),
            old(graphic).wf(),
        ensures
            final(self)@ == TerminalBuffer::flushed(old(self)@),
            final(self)@.flush_cache == final(self)@.viewport(),
            final(self).wf(),
            final(graphic).wf(),
            final(graphic).scheme() == old(graphic).scheme(),
            final(graphic).has_font() == old(graphic).has_font(),
            final(graphic).cache_size() == old(graphic).cache_size(),
            exists|answers: FlushAnswers|
                final(graphic).painted() == old(graphic).painted() + #[trigger] old(
                    self,
                )@.full_repainting(old(graphic).scheme(), old(graphic).has_font(), answers),
    {
        let ghost view = self@;
        let ghost scheme = graphic.scheme();
        let ghost before = graphic.painted();
        self.repaint(graphic, true);
        let ghost answers = if graphic.has_font() {
            choose|answers: Seq<Seq<FontAnswer>>|
                graphic.painted() == before + #[trigger] view.repainting(
                    true,
                    scheme,
                    view.height,
                    answers,
                )
        } else {
            Seq::empty()
        };
        let ghost cells = graphic.painted();
        let background = Cell::default().background;
        let color = graphic.color_to_rgb(background);
        let (width, height) = graphic.size();
        graphic.fill_rect(0, self.pixel_size.0, self.pixel_size.1, height, color);
        graphic.fill_rect(self.pixel_size.0, width, 0, height, color);
        proof {
            let all = FlushAnswers { cells: answers, display: (width, height) };
            assert(graphic.painted() =~= cells + view.margin_pixels((width, height), color));
            assert(graphic.painted() =~= old(graphic).painted() + old(self)@.full_repainting(
                old(graphic).scheme(),
                old(graphic).has_font(),
                all,
            ));
        }
    }
}

} // verus!
