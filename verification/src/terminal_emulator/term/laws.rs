//! What holds of every well-formed terminal.

use crate::terminal_emulator::ansi::Mode;
use crate::terminal_emulator::grid::blank_row;
use crate::terminal_emulator::grid::newest;
use crate::terminal_emulator::grid::shifted_right;
use crate::terminal_emulator::grid::shifted_up;
use crate::terminal_emulator::grid::GridView;
use crate::terminal_emulator::index::max;
use crate::terminal_emulator::grid::Scroll;
use crate::terminal_emulator::mode::ALT_SCREEN;
use crate::terminal_emulator::mode::INSERT;
use crate::terminal_emulator::mode::LINE_WRAP;
use crate::terminal_emulator::term::cell::Cell;
use crate::terminal_emulator::term::cell::WRAPLINE;
use crate::terminal_emulator::term::cells_that_fit;
use crate::terminal_emulator::term::SizeInfo;
use crate::terminal_emulator::term::TermView;
use vstd::prelude::*;

verus! {

/// In a well-formed terminal every row of both grids, history included, has as many
/// cells as the grid has columns, and the cursor is on the screen.
pub proof fn lemma_rows_and_cursor(t: TermView)
    requires
        t.wf(),
    ensures
        forall|i: int| 0 <= i < t.grid.rows.len() ==> (#[trigger] t.grid.rows[i]).len() == t.cols(),
        forall|i: int|
            0 <= i < t.alt_grid.rows.len() ==> (#[trigger] t.alt_grid.rows[i]).len() == t.cols(),
        0 <= t.line() < t.lines(),
        0 <= t.col() < t.cols(),
{
}

/// Replacing the row under the cursor by one of the same length keeps the terminal
/// well formed.
pub proof fn lemma_with_row_wf(t: TermView, row: Seq<Cell>)
    requires
        t.wf(),
        row.len() == t.cols(),
    ensures
        t.with_row(row).wf(),
        t.with_row(row).row() == row,
{
    let g = t.grid.with_row(t.line(), row);
    assert forall|i: int| 0 <= i < g.rows.len() implies (#[trigger] g.rows[i]).len()
        == g.cols by {
        if i != t.grid.history() + t.line() {
            assert(g.rows[i] == t.grid.rows[i]);
        }
    }
}

/// Entering the alternate screen and leaving it again brings back the primary grid,
/// its history included, and the cursor, exactly as they were.
pub proof fn lemma_alt_screen_round_trip(t: TermView)
    requires
        t.wf(),
        !t.alt,
    ensures
        t.set_mode(Mode::SwapScreenAndSetRestoreCursor).unset_mode(
            Mode::SwapScreenAndSetRestoreCursor,
        ).grid == t.grid,
        t.set_mode(Mode::SwapScreenAndSetRestoreCursor).unset_mode(
            Mode::SwapScreenAndSetRestoreCursor,
        ).cursor == t.cursor,
        !t.set_mode(Mode::SwapScreenAndSetRestoreCursor).unset_mode(
            Mode::SwapScreenAndSetRestoreCursor,
        ).alt,
        !t.set_mode(Mode::SwapScreenAndSetRestoreCursor).unset_mode(
            Mode::SwapScreenAndSetRestoreCursor,
        ).mode.spec_contains(ALT_SCREEN),
{
    reveal(TermView::set_mode);
    reveal(TermView::unset_mode);
    reveal(TermView::with_mode);
    reveal(TermView::without_mode);
    reveal(TermView::enter_alt_screen);
    reveal(TermView::leave_alt_screen);
    reveal(TermView::save_cursor);
    reveal(TermView::restore_cursor);
    reveal(TermView::swap_alt);
    let entered = t.enter_alt_screen();
    assert(entered.alt);
    assert(entered.alt_grid == t.grid);
    assert(entered.cursor_save == t.cursor);
    assert(entered.cursor_save_alt == t.cursor);
    assert(entered.lines() == t.lines() && entered.cols() == t.cols());
    assert(t.cursor.clamped(t.lines(), t.cols()) == t.cursor);
    let left = entered.leave_alt_screen();
    assert(left.grid == t.grid);
    let bits = entered.mode.bits;
    let flag = ALT_SCREEN;
    assert(flag != 0 ==> (bits & !flag) & flag != flag) by (bit_vector);
}

/// Entering the alternate screen from the primary one shows a screen of the same size
/// in which every cell is the cursor's template, and saves the cursor as it was.
pub proof fn lemma_alt_screen_starts_blank(t: TermView, line: int, col: int)
    requires
        t.wf(),
        !t.alt,
        0 <= line < t.lines(),
        0 <= col < t.cols(),
    ensures
        t.set_mode(Mode::SwapScreenAndSetRestoreCursor).alt,
        t.set_mode(Mode::SwapScreenAndSetRestoreCursor).mode.contains(ALT_SCREEN),
        t.set_mode(Mode::SwapScreenAndSetRestoreCursor).lines() == t.lines(),
        t.set_mode(Mode::SwapScreenAndSetRestoreCursor).cols() == t.cols(),
        t.set_mode(Mode::SwapScreenAndSetRestoreCursor).grid.cell(line, col)
            == t.cursor.template,
        t.set_mode(Mode::SwapScreenAndSetRestoreCursor).cursor == t.cursor,
        t.set_mode(Mode::SwapScreenAndSetRestoreCursor).cursor_save == t.cursor,
        t.set_mode(Mode::SwapScreenAndSetRestoreCursor).alt_grid == t.grid,
{
    reveal(TermView::set_mode);
    reveal(TermView::with_mode);
    reveal(TermView::enter_alt_screen);
    reveal(TermView::save_cursor);
    reveal(TermView::swap_alt);
    let bits = t.mode.bits;
    let flag = ALT_SCREEN;
    assert((bits | flag) & flag == flag) by (bit_vector);
}

/// One printable character of width one, typed where no wrap is pending and the
/// cursor is before the last column, moves the cursor one column on and nowhere else.
pub proof fn lemma_type_one(t: TermView, c: char)
    requires
        t.wf(),
        !t.input_needs_wrap,
    ensures
        t.input_with_width(c, Some(1usize)).wf(),
        t.input_with_width(c, Some(1usize)).line() == t.line(),
        t.input_with_width(c, Some(1usize)).cols() == t.cols(),
        t.input_with_width(c, Some(1usize)).lines() == t.lines(),
        t.col() + 1 < t.cols() ==> t.input_with_width(c, Some(1usize)).col() == t.col() + 1
            && !t.input_with_width(c, Some(1usize)).input_needs_wrap,
        t.col() + 1 == t.cols() ==> t.input_with_width(c, Some(1usize)).col() == t.col()
            && t.input_with_width(c, Some(1usize)).input_needs_wrap,
        t.input_with_width(c, Some(1usize)).scroll_region == t.scroll_region,
        t.input_with_width(c, Some(1usize)).mode == t.mode,
        t.input_with_width(c, Some(1usize)).grid.cell(t.line(), t.col()) == t.glyph_cell(c),
{
    reveal(TermView::input_with_width);
    reveal(TermView::follow_input);
    reveal(TermView::put);
    reveal(TermView::advance);
    let shown = t.follow_input();
    assert(shown.wf());
    let made = if shown.mode.spec_contains(INSERT) && shown.col() + 1 < shown.cols() {
        shown.with_row(shifted_right(shown.row(), shown.col(), 1))
    } else {
        shown
    };
    lemma_with_row_wf(shown, shifted_right(shown.row(), shown.col(), 1));
    assert(made.wf());
    let written = made.with_row(made.row().update(made.col(), made.glyph_cell(c)));
    lemma_with_row_wf(made, made.row().update(made.col(), made.glyph_cell(c)));
    assert(shown.put(c, 1) == written.advance());
}

/// Typing as many printable characters of width one as the line has columns, from
/// the first column on with no wrap pending, leaves the cursor on the same line in the
/// last column, with a wrap pending.
pub proof fn lemma_type_to_the_margin(t: TermView, chars: Seq<char>)
    requires
        t.wf(),
        t.col() == 0,
        !t.input_needs_wrap,
        chars.len() <= t.cols(),
    ensures
        t.typed(chars).wf(),
        t.typed(chars).line() == t.line(),
        t.typed(chars).cols() == t.cols(),
        chars.len() < t.cols() ==> t.typed(chars).col() == chars.len()
            && !t.typed(chars).input_needs_wrap,
        chars.len() == t.cols() ==> t.typed(chars).col() == t.cols() - 1
            && t.typed(chars).input_needs_wrap,
    decreases chars.len(),
{
    if chars.len() > 0 {
        lemma_type_to_the_margin(t, chars.drop_last());
        lemma_type_one(t.typed(chars.drop_last()), chars.last());
    }
}

/// Wrapping the line, where there is a next line and the scroll region does not end
/// in between, marks the cell under the cursor as wrapped and puts the cursor at the
/// start of the next line; nothing else changes.
pub proof fn lemma_wrap_line(t: TermView)
    requires
        t.wf(),
        t.line() + 1 < t.lines(),
        t.line() + 1 != t.scroll_region.end,
    ensures
        t.wrap_line().wf(),
        t.wrap_line().line() == t.line() + 1,
        t.wrap_line().col() == 0,
        !t.wrap_line().input_needs_wrap,
        t.wrap_line().grid.cell(t.line(), t.col()).flags.spec_contains(WRAPLINE),
        t.wrap_line().cursor.template == t.cursor.template,
        t.wrap_line().cursor.charsets == t.cursor.charsets,
        t.wrap_line().active_charset == t.active_charset,
        t.wrap_line().scroll_region == t.scroll_region,
        t.wrap_line().mode == t.mode,
        t.wrap_line().auto_scroll == t.auto_scroll,
        t.wrap_line().cols() == t.cols(),
        t.wrap_line().lines() == t.lines(),
        t.wrap_line().grid.display_offset == t.grid.display_offset,
        t.wrap_line().dirty == t.dirty,
{
    reveal(TermView::wrap_line);
    reveal(TermView::linefeed);
    let cell = t.row()[t.col()];
    let marked_row = t.row().update(t.col(), Cell { flags: cell.flags.with(WRAPLINE), ..cell });
    lemma_with_row_wf(t, marked_row);
    let bits = cell.flags.bits;
    assert((bits | WRAPLINE) & WRAPLINE == WRAPLINE) by (bit_vector);
}

/// With a wrap pending and lines that wrap, the next printable character of width
/// one goes to the first column of the next line, where there is a next line and the
/// scroll region does not end in between: the cell it left is marked as wrapped, and
/// the cursor stands behind the character.
pub proof fn lemma_wrap_to_next_line(t: TermView, c: char)
    requires
        t.wf(),
        t.input_needs_wrap,
        t.mode.spec_contains(LINE_WRAP),
        t.line() + 1 < t.lines(),
        t.line() + 1 != t.scroll_region.end,
    ensures
        t.input_with_width(c, Some(1usize)).wf(),
        t.input_with_width(c, Some(1usize)).line() == t.line() + 1,
        t.input_with_width(c, Some(1usize)).grid.cell(t.line() + 1, 0) == t.glyph_cell(c),
        t.cols() > 1 ==> t.input_with_width(c, Some(1usize)).col() == 1 && !t.input_with_width(
            c,
            Some(1usize),
        ).input_needs_wrap,
{
    reveal(TermView::input_with_width);
    reveal(TermView::follow_input);
    let shown = t.follow_input();
    assert(shown.wf());
    lemma_wrap_line(shown);
    let ready = shown.wrap_line();
    lemma_type_one(ready, c);
    assert(ready.follow_input() == ready) by {
        assert(ready.auto_scroll ==> ready.grid.display_scrolled(Scroll::Bottom) == ready.grid);
    }
    assert(ready.glyph_cell(c) == t.glyph_cell(c));
}

/// Whether every row of a grid is as wide as the grid.
pub open spec fn rows_fit(grid: GridView) -> bool {
    forall|i: int| 0 <= i < grid.rows.len() ==> (#[trigger] grid.rows[i]).len() == grid.cols
}

/// Scrolling the whole screen up keeps the size of the grid and the width of its rows.
proof fn lemma_scrolled_up_fits(grid: GridView, n: int, template: Cell)
    requires
        grid.wf(),
        0 <= n <= grid.lines,
    ensures
        grid.scrolled_up(0, grid.lines, n, template).lines == grid.lines,
        grid.scrolled_up(0, grid.lines, n, template).cols == grid.cols,
        grid.scrolled_up(0, grid.lines, n, template).rows.len() >= grid.lines,
        rows_fit(grid.scrolled_up(0, grid.lines, n, template)),
{
    let h = grid.history();
    let moved = shifted_up(grid.rows, h, h + grid.lines, n, blank_row(grid.cols, template));
    let kept = newest(grid.rows.subrange(0, h + n), grid.max_scroll_limit);
    let after = grid.scrolled_up(0, grid.lines, n, template);
    assert forall|i: int| 0 <= i < moved.len() implies (#[trigger] moved[i]).len() == grid.cols by {
        if h <= i < h + grid.lines - n {
            assert(moved[i] == grid.rows[i + n]);
        } else if h + grid.lines - n <= i < h + grid.lines {
        } else {
            assert(moved[i] == grid.rows[i]);
        }
    }
    assert forall|i: int| 0 <= i < kept.len() implies (#[trigger] kept[i]).len() == grid.cols by {
        let old_rows = grid.rows.subrange(0, h + n);
        if old_rows.len() > grid.max_scroll_limit {
            assert(kept[i] == grid.rows[old_rows.len() - grid.max_scroll_limit + i]);
        } else {
            assert(kept[i] == grid.rows[i]);
        }
    }
    assert forall|i: int| 0 <= i < after.rows.len() implies (#[trigger] after.rows[i]).len()
        == after.cols by {
        if i < kept.len() {
            assert(after.rows[i] == kept[i]);
        } else {
            assert(after.rows[i] == moved[h + (i - kept.len())]);
        }
    }
}

/// A grid that is given a new size has that size, and every row of it the new width.
proof fn lemma_resized_fits(grid: GridView, lines: int, cols: int, template: Cell)
    requires
        rows_fit(grid),
        0 <= grid.lines <= grid.rows.len(),
        0 <= lines,
        0 <= cols,
        0 <= grid.cols,
    ensures
        grid.resized(lines, cols, template).lines == lines,
        grid.resized(lines, cols, template).cols == cols,
        rows_fit(grid.resized(lines, cols, template)),
{
    let high = if lines > grid.lines {
        grid.grown_lines(lines, template)
    } else if lines < grid.lines {
        grid.shrunk_lines(lines)
    } else {
        grid
    };
    assert forall|i: int| 0 <= i < high.rows.len() implies (#[trigger] high.rows[i]).len()
        == grid.cols by {
        if lines > grid.lines {
            if i < grid.rows.len() {
                assert(high.rows[i] == grid.rows[i]);
            }
        } else if lines < grid.lines {
            assert(high.rows[i] == grid.rows[i]);
        }
    }
    assert(high.cols == grid.cols && high.lines == lines);
}

/// The terminal with grids of a new size: both grids have the new lines and columns,
/// every row of both has the new width, and the cursor and both saved cursors lie on
/// the grid. This holds of every size of at least one cell, whatever the history
/// holds.
pub proof fn lemma_resized_to_in_bounds(t: TermView, num_lines: int, num_cols: int)
    requires
        t.wf(),
        1 <= num_lines <= usize::MAX,
        1 <= num_cols <= usize::MAX,
    ensures
        t.resized_to(num_lines, num_cols).grid.lines == num_lines,
        t.resized_to(num_lines, num_cols).grid.cols == num_cols,
        t.resized_to(num_lines, num_cols).alt_grid.lines == num_lines,
        t.resized_to(num_lines, num_cols).alt_grid.cols == num_cols,
        rows_fit(t.resized_to(num_lines, num_cols).grid),
        rows_fit(t.resized_to(num_lines, num_cols).alt_grid),
        t.resized_to(num_lines, num_cols).cursor.point.line < num_lines,
        t.resized_to(num_lines, num_cols).cursor.point.col < num_cols,
        t.resized_to(num_lines, num_cols).cursor_save.point.line < num_lines,
        t.resized_to(num_lines, num_cols).cursor_save.point.col < num_cols,
        t.resized_to(num_lines, num_cols).cursor_save_alt.point.line < num_lines,
        t.resized_to(num_lines, num_cols).cursor_save_alt.point.col < num_cols,
{
    reveal(TermView::resized_to);
    reveal(TermView::without_selections);
    reveal(TermView::cursor_kept_visible);
    reveal(TermView::saved_cursor_kept_visible);
    reveal(TermView::prompt_moved_down);
    reveal(TermView::grids_resized);
    reveal(TermView::resize_finished);
    let bare = t.without_selections();
    assert(bare.grid.rows == t.grid.rows && bare.alt_grid.rows == t.alt_grid.rows);
    let shown = bare.cursor_kept_visible(num_lines);
    if bare.line() >= num_lines {
        lemma_scrolled_up_fits(bare.grid, bare.line() - num_lines + 1, bare.cursor.template);
    }
    assert(rows_fit(shown.grid) && shown.grid.lines == t.grid.lines && shown.grid.cols
        == t.grid.cols && shown.grid.rows.len() >= shown.grid.lines);
    let kept = shown.saved_cursor_kept_visible(num_lines);
    if shown.cursor_save_alt.point.line >= num_lines {
        lemma_scrolled_up_fits(
            shown.alt_grid,
            shown.cursor_save_alt.point.line - num_lines + 1,
            shown.cursor_save_alt.template,
        );
    }
    assert(rows_fit(kept.alt_grid) && kept.alt_grid.lines == t.grid.lines && kept.alt_grid.cols
        == t.grid.cols && kept.alt_grid.rows.len() >= kept.alt_grid.lines);
    assert(kept.grid == shown.grid);
    let moved = kept.prompt_moved_down(num_lines);
    assert(moved.grid == kept.grid && moved.alt_grid == kept.alt_grid);
    lemma_resized_fits(moved.grid, num_lines, num_cols, Cell::spec_default());
    lemma_resized_fits(moved.alt_grid, num_lines, num_cols, Cell::spec_default());
}

/// A window of another size that gives the grids another size: afterwards both grids
/// have the lines and columns of the window, two of each at least, every row of both
/// has that width, and the cursor and both saved cursors lie on the grid.
pub proof fn lemma_resized_in_bounds(t: TermView, size: SizeInfo)
    requires
        t.wf(),
        t.resizes(size),
    ensures
        t.resized(size).grid.lines == max(size.spec_lines(), 2),
        t.resized(size).grid.cols == max(size.spec_cols(), 2),
        t.resized(size).alt_grid.lines == t.resized(size).grid.lines,
        t.resized(size).alt_grid.cols == t.resized(size).grid.cols,
        rows_fit(t.resized(size).grid),
        rows_fit(t.resized(size).alt_grid),
        t.resized(size).cursor.point.line < t.resized(size).grid.lines,
        t.resized(size).cursor.point.col < t.resized(size).grid.cols,
        t.resized(size).cursor_save.point.line < t.resized(size).grid.lines,
        t.resized(size).cursor_save.point.col < t.resized(size).grid.cols,
        t.resized(size).cursor_save_alt.point.line < t.resized(size).grid.lines,
        t.resized(size).cursor_save_alt.point.col < t.resized(size).grid.cols,
{
    reveal(TermView::resized);
    lemma_cells_that_fit_bound(size.height as int, size.padding_y as int, size.cell_height as int);
    lemma_cells_that_fit_bound(size.width as int, size.padding_x as int, size.cell_width as int);
    let sized = TermView { size_info: size, ..t };
    lemma_resized_to_in_bounds(sized, max(size.spec_lines(), 2), max(size.spec_cols(), 2));
}

/// No more cells fit than a machine can count.
proof fn lemma_cells_that_fit_bound(extent: int, padding: int, cell: int)
    requires
        0 <= extent <= usize::MAX,
        0 <= padding,
        0 <= cell,
    ensures
        0 <= cells_that_fit(extent, padding, cell) <= usize::MAX,
{
    let room = extent - 2 * padding;
    if room > 0 && cell > 0 {
        assert(0 <= room / cell <= room) by (nonlinear_arith)
            requires
                room > 0,
                cell > 0,
        ;
    }
}

} // verus!
