//! Giving the terminal a new size.

use crate::terminal_emulator::grid::GridView;
use crate::terminal_emulator::index::max;
use crate::terminal_emulator::index::max_of;
use crate::terminal_emulator::index::min;
use crate::terminal_emulator::index::min_of;
use crate::terminal_emulator::index::Column;
use crate::terminal_emulator::index::Line;
use crate::terminal_emulator::mode::ALT_SCREEN;
use crate::terminal_emulator::term::cell::Cell;
use crate::terminal_emulator::term::regular_stops;
use crate::terminal_emulator::term::Cursor;
use crate::terminal_emulator::term::SizeInfo;
use crate::terminal_emulator::term::TabStops;
use crate::terminal_emulator::term::Term;
use crate::terminal_emulator::term::TermView;
use vstd::prelude::*;

verus! {

/// Moves a cursor into a grid of the given size.
fn clamp_cursor(cursor: Cursor, lines: Line, cols: Column) -> (clamped: Cursor)
    requires
        lines >= 1,
        cols >= 1,
    ensures
        clamped == cursor.clamped(lines as int, cols as int),
{
    let mut clamped = cursor;
    clamped.point.col = min_of(cursor.point.col, cols - 1);
    clamped.point.line = min_of(cursor.point.line, lines - 1);
    clamped
}

/// Moves a cursor down by some lines.
fn lowered(cursor: Cursor, by: Line) -> (moved: Cursor)
    requires
        cursor.point.line + by <= usize::MAX,
    ensures
        moved == cursor.at(cursor.point.line + by, cursor.point.col as int),
{
    let mut moved = cursor;
    moved.point.line = cursor.point.line + by;
    moved
}

impl TermView {
    /// Both grids are well formed and of the same size, which is at least one cell.
    pub open spec fn grids_wf(self) -> bool {
        &&& self.grid.wf()
        &&& self.alt_grid.wf()
        &&& self.grid.lines >= 1
        &&& self.grid.cols >= 1
        &&& self.alt_grid.lines == self.grid.lines
        &&& self.alt_grid.cols == self.grid.cols
        &&& self.tabspaces > 0
    }

    #[verifier::opaque]
    pub open spec fn without_selections(self) -> TermView {
        TermView {
            grid: GridView { selection: None, ..self.grid },
            alt_grid: GridView { selection: None, ..self.alt_grid },
            ..self
        }
    }

    /// The shown grid scrolled up so far that the cursor's line is among the first
    /// `num_lines`.
    #[verifier::opaque]
    pub open spec fn cursor_kept_visible(self, num_lines: int) -> TermView {
        if self.line() >= num_lines {
            TermView {
                grid: self.grid.scrolled_up(
                    0,
                    self.lines(),
                    self.line() - num_lines + 1,
                    self.cursor.template,
                ),
                ..self
            }
        } else {
            self
        }
    }

    /// The hidden grid scrolled up so far that the line of the cursor that is saved
    /// for the alternate screen is among the first `num_lines`.
    #[verifier::opaque]
    pub open spec fn saved_cursor_kept_visible(self, num_lines: int) -> TermView {
        if self.cursor_save_alt.point.line >= num_lines {
            TermView {
                alt_grid: self.alt_grid.scrolled_up(
                    0,
                    self.lines(),
                    self.cursor_save_alt.point.line - num_lines + 1,
                    self.cursor_save_alt.template,
                ),
                ..self
            }
        } else {
            self
        }
    }

    /// When the screen grows, the cursor of the primary screen moves down with the
    /// lines that come back from the history.
    #[verifier::opaque]
    pub open spec fn prompt_moved_down(self, num_lines: int) -> TermView {
        if num_lines > self.lines() {
            if self.mode.spec_contains(ALT_SCREEN) {
                let growage = min(num_lines - self.lines(), self.alt_grid.history());
                TermView {
                    cursor_save: self.cursor_save.at(
                        self.cursor_save.point.line + growage,
                        self.cursor_save.point.col as int,
                    ),
                    ..self
                }
            } else {
                let growage = min(num_lines - self.lines(), self.grid.history());
                self.cursor_at(self.line() + growage, self.col())
            }
        } else {
            self
        }
    }

    #[verifier::opaque]
    pub open spec fn grids_resized(self, num_lines: int, num_cols: int) -> TermView {
        TermView {
            grid: self.grid.resized(num_lines, num_cols, Cell::spec_default()),
            alt_grid: self.alt_grid.resized(num_lines, num_cols, Cell::spec_default()),
            ..self
        }
    }

    /// The scroll region is the whole screen, the cursors are on the grid, and the
    /// tab stops are the regular ones.
    #[verifier::opaque]
    pub open spec fn resize_finished(self, num_lines: int, num_cols: int) -> TermView {
        TermView {
            scroll_region: core::ops::Range::<Line> { start: 0, end: num_lines as usize },
            cursor: self.cursor.clamped(num_lines, num_cols),
            cursor_save: self.cursor_save.clamped(num_lines, num_cols),
            cursor_save_alt: self.cursor_save_alt.clamped(num_lines, num_cols),
            tabs: regular_stops(num_cols, self.tabspaces),
            ..self
        }
    }

    /// The terminal with grids of `num_lines` lines and `num_cols` columns. The
    /// selections go. A lower screen is scrolled up first, so that the cursor stays on
    /// it; a higher one takes lines back from the history, and the cursor moves down
    /// with them.
    #[verifier::opaque]
    pub open spec fn resized_to(self, num_lines: int, num_cols: int) -> TermView {
        self.without_selections().cursor_kept_visible(num_lines).saved_cursor_kept_visible(
            num_lines,
        ).prompt_moved_down(num_lines).grids_resized(num_lines, num_cols).resize_finished(
            num_lines,
            num_cols,
        )
    }

    /// Whether a window of the given size gives the grids another size: it is wider
    /// and higher than the padding, and its numbers of lines and columns are not
    /// those of the grids.
    pub open spec fn resizes(self, size: SizeInfo) -> bool {
        &&& size.width > 2 * self.size_info.padding_x
        &&& size.height > 2 * self.size_info.padding_y
        &&& !(self.cols() == size.spec_cols() && self.lines() == size.spec_lines())
    }

    /// The terminal in a window of another size. A window that is no wider or no
    /// higher than the padding changes nothing. Else the size is taken over, and
    /// unless the numbers of lines and columns stay, the grids are resized, to two
    /// lines and two columns at least.
    #[verifier::opaque]
    pub open spec fn resized(self, size: SizeInfo) -> TermView {
        if size.width <= 2 * self.size_info.padding_x || size.height <= 2
            * self.size_info.padding_y {
            self
        } else {
            let sized = TermView { size_info: size, ..self };
            if self.cols() == size.spec_cols() && self.lines() == size.spec_lines() {
                sized
            } else {
                sized.resized_to(max(size.spec_lines(), 2), max(size.spec_cols(), 2))
            }
        }
    }
}

impl Term {
    /// The grids are well formed, whatever the cursor.
    pub open spec fn grids_wf(&self) -> bool {
        &&& self@.grids_wf()
        &&& self.grid.wf()
        &&& self.alt_grid.wf()
    }

    fn drop_selections(&mut self)
        requires
            old(self).wf(),
        ensures
            final(self)@ == old(self)@.without_selections(),
            final(self).wf(),
            final(self).alt_grid.max_scroll_limit == old(self).alt_grid.max_scroll_limit,
            final(self).grid.max_scroll_limit == old(self).grid.max_scroll_limit,
    {
        proof {
            reveal(TermView::without_selections);
        }
        self.grid.selection = None;
        self.alt_grid.selection = None;
    }

    fn keep_cursor_visible(&mut self, num_lines: Line)
        requires
            old(self).wf(),
            num_lines >= 1,
        ensures
            final(self)@ == old(self)@.cursor_kept_visible(num_lines as int),
            final(self).wf(),
            final(self).grid.max_scroll_limit == old(self).grid.max_scroll_limit,
            final(self).alt_grid.max_scroll_limit == old(self).alt_grid.max_scroll_limit,
    {
        proof {
            reveal(TermView::cursor_kept_visible);
        }
        if self.cursor.point.line >= num_lines {
            let lines = self.cursor.point.line - num_lines + 1;
            let old_lines = self.grid.num_lines();
            let template = self.cursor.template;
            self.grid.scroll_up(0, old_lines, lines, &template);
        }
    }

    fn keep_saved_cursor_visible(&mut self, num_lines: Line)
        requires
            old(self).wf(),
            num_lines >= 1,
        ensures
            final(self)@ == old(self)@.saved_cursor_kept_visible(num_lines as int),
            final(self).wf(),
            final(self).alt_grid.max_scroll_limit == old(self).alt_grid.max_scroll_limit,
            final(self).grid.max_scroll_limit == old(self).grid.max_scroll_limit,
    {
        proof {
            reveal(TermView::saved_cursor_kept_visible);
        }
        if self.cursor_save_alt.point.line >= num_lines {
            let lines = self.cursor_save_alt.point.line - num_lines + 1;
            let old_lines = self.grid.num_lines();
            let template = self.cursor_save_alt.template;
            self.alt_grid.scroll_up(0, old_lines, lines, &template);
        }
    }

    fn move_prompt_down(&mut self, num_lines: Line)
        requires
            old(self).wf(),
        ensures
            final(self)@ == old(self)@.prompt_moved_down(num_lines as int),
            final(self).grids_wf(),
            final(self).cursor.point.line < max(num_lines as int, final(self).grid.lines as int),
            final(self).cursor_save.point.line < max(
                num_lines as int,
                final(self).grid.lines as int,
            ),
            final(self).alt_grid.max_scroll_limit == old(self).alt_grid.max_scroll_limit,
            final(self).grid.max_scroll_limit == old(self).grid.max_scroll_limit,
    {
        let (cursor, cursor_save) = self.lowered_cursors(num_lines);
        self.cursor = cursor;
        self.cursor_save = cursor_save;
    }

    /// The cursor and the cursor saved for the primary screen as they are after the
    /// prompt has moved down.
    fn lowered_cursors(&self, num_lines: Line) -> (cursors: (Cursor, Cursor))
        requires
            self.wf(),
        ensures
            self@.prompt_moved_down(num_lines as int) == (TermView {
                cursor: cursors.0,
                cursor_save: cursors.1,
                ..self@
            }),
            cursors.0.point.line < max(num_lines as int, self.grid.lines as int),
            cursors.1.point.line < max(num_lines as int, self.grid.lines as int),
    {
        proof {
            reveal(TermView::prompt_moved_down);
        }
        let old_lines = self.grid.num_lines();
        if num_lines <= old_lines {
            (self.cursor, self.cursor_save)
        } else if self.mode.contains(ALT_SCREEN) {
            let growage = min_of(num_lines - old_lines, self.alt_grid.scroll_limit());
            (self.cursor, lowered(self.cursor_save, growage))
        } else {
            let growage = min_of(num_lines - old_lines, self.grid.scroll_limit());
            (lowered(self.cursor, growage), self.cursor_save)
        }
    }

    fn resize_grids(&mut self, num_lines: Line, num_cols: Column)
        requires
            old(self).grids_wf(),
            num_lines >= 1,
            num_cols >= 1,
            num_lines + old(self).grid.max_scroll_limit <= isize::MAX,
            num_lines + old(self).alt_grid.max_scroll_limit <= isize::MAX,
        ensures
            final(self)@ == old(self)@.grids_resized(num_lines as int, num_cols as int),
            final(self).grids_wf(),
            final(self).grid.lines == num_lines,
            final(self).grid.cols == num_cols,
    {
        proof {
            reveal(TermView::grids_resized);
        }
        let blank = Cell::default();
        self.grid.resize(num_lines, num_cols, &blank);
        self.alt_grid.resize(num_lines, num_cols, &blank);
    }

    fn finish_resize(&mut self, num_lines: Line, num_cols: Column)
        requires
            old(self).grids_wf(),
            old(self).grid.lines == num_lines,
            old(self).grid.cols == num_cols,
        ensures
            final(self)@ == old(self)@.resize_finished(num_lines as int, num_cols as int),
            final(self).wf(),
            final(self)@.lines() == num_lines,
            final(self)@.cols() == num_cols,
    {
        proof {
            reveal(TermView::resize_finished);
        }
        let cursor = clamp_cursor(self.cursor, num_lines, num_cols);
        let cursor_save = clamp_cursor(self.cursor_save, num_lines, num_cols);
        let cursor_save_alt = clamp_cursor(self.cursor_save_alt, num_lines, num_cols);
        let tabs = TabStops::new(num_cols, self.tabspaces);
        self.scroll_region = core::ops::Range::<Line> { start: 0, end: num_lines };
        self.cursor = cursor;
        self.cursor_save = cursor_save;
        self.cursor_save_alt = cursor_save_alt;
        self.tabs = tabs;
    }

    fn resize_to(&mut self, num_lines: Line, num_cols: Column)
        requires
            old(self).wf(),
            num_lines >= 1,
            num_cols >= 1,
            num_lines + old(self).grid.max_scroll_limit <= isize::MAX,
            num_lines + old(self).alt_grid.max_scroll_limit <= isize::MAX,
        ensures
            final(self)@ == old(self)@.resized_to(num_lines as int, num_cols as int),
            final(self).wf(),
            final(self)@.lines() == num_lines,
            final(self)@.cols() == num_cols,
    {
        proof {
            reveal(TermView::resized_to);
        }
        self.drop_selections();
        self.keep_cursor_visible(num_lines);
        self.keep_saved_cursor_visible(num_lines);
        self.move_prompt_down(num_lines);
        self.resize_grids(num_lines, num_cols);
        self.finish_resize(num_lines, num_cols);
    }

    /// Resizes the terminal to a window of another size. Where that gives the grids
    /// another size, both have the lines and columns of the window afterwards, two of
    /// each at least, every row is as wide as the grid, and the cursor and both saved
    /// cursors are on the grid.
    pub fn resize(&mut self, size: &SizeInfo)
        requires
            old(self).wf(),
            max(size.spec_lines(), 2) + old(self).grid.max_scroll_limit <= isize::MAX,
            max(size.spec_lines(), 2) + old(self).alt_grid.max_scroll_limit <= isize::MAX,
        ensures
            final(self)@ == old(self)@.resized(*size),
            final(self).wf(),
            old(self)@.resizes(*size) ==> final(self)@.lines() == max(size.spec_lines(), 2)
                && final(self)@.cols() == max(size.spec_cols(), 2),
            !old(self)@.resizes(*size) ==> final(self)@.lines() == old(self)@.lines()
                && final(self)@.cols() == old(self)@.cols(),
    {
        proof {
            reveal(TermView::resized);
        }
        if size.width / 2 < self.size_info.padding_x || (size.width / 2 == self.size_info.padding_x
            && size.width % 2 == 0) || size.height / 2 < self.size_info.padding_y || (size.height
            / 2 == self.size_info.padding_y && size.height % 2 == 0) {
            return ;
        }
        let old_cols = self.grid.num_cols();
        let old_lines = self.grid.num_lines();
        let num_cols = size.cols();
        let num_lines = size.lines();
        self.size_info = *size;
        if old_cols == num_cols && old_lines == num_lines {
            return ;
        }
        self.resize_to(max_of(num_lines, 2), max_of(num_cols, 2));
    }
}

} // verus!
