//! Writing characters, scrolling and clearing.

use crate::terminal_emulator::ansi::ClearMode;
use crate::terminal_emulator::ansi::LineClearMode;
use crate::terminal_emulator::grid::filled;
use crate::terminal_emulator::grid::moved_left;
use crate::terminal_emulator::grid::shifted_right;
use crate::terminal_emulator::grid::Grid;
use crate::terminal_emulator::grid::GridView;
use crate::terminal_emulator::grid::Scroll;
use crate::terminal_emulator::index::max;
use crate::terminal_emulator::index::min;
use crate::terminal_emulator::index::min_of;
use crate::terminal_emulator::index::Column;
use crate::terminal_emulator::index::Line;
use crate::terminal_emulator::mode::INSERT;
use crate::terminal_emulator::mode::LINE_FEED_NEW_LINE;
use crate::terminal_emulator::mode::LINE_WRAP;
use crate::terminal_emulator::term::cell::Cell;
use crate::terminal_emulator::term::cell::Flags;
use crate::terminal_emulator::term::cell::WIDE_CHAR;
use crate::terminal_emulator::term::cell::WIDE_CHAR_SPACER;
use crate::terminal_emulator::term::cell::WRAPLINE;
use crate::terminal_emulator::term::charset_glyph;
use crate::terminal_emulator::term::handler::next_stop;
use crate::terminal_emulator::term::Term;
use crate::terminal_emulator::term::TermView;
use vstd::prelude::*;

verus! {

/// The number of columns that `unicode_width` gives a character: none for a control
/// character, else a count from 0 to 3.
pub uninterp spec fn char_width(c: char) -> Option<usize>;

/// The width of a character, from `UnicodeWidthChar::width`: 1 for printable ASCII,
/// none for the control characters below U+00A0, and at most 3 for any other.
#[verifier::external_body]
fn width_of(c: char) -> (width: Option<usize>)
    ensures
        width == char_width(c),
        0x20 <= c as u32 && (c as u32) < 0x7f ==> width == Some(1usize),
        (c as u32) < 0x20 || (0x7f <= c as u32 && (c as u32) < 0xa0) ==> width is None,
        (c as u32) >= 0xa0 ==> width is Some && width.unwrap() <= 3,
{
    unicode_width::UnicodeWidthChar::width(c)
}

/// A grid cleared around the cell at `line` and `col`: below or above it, or as a
/// whole, or its history dropped. The selection goes in every case. Clearing above
/// leaves the first line as it is when the cell is on the second.
pub open spec fn cleared(grid: GridView, mode: ClearMode, line: int, col: int, template: Cell) -> GridView {
    let grid = GridView { selection: None, ..grid };
    match mode {
        ClearMode::Below => {
            let first = grid.with_cells_reset(line, col, grid.cols, template);
            if line < grid.lines - 1 {
                first.with_lines_reset(line + 1, grid.lines, template)
            } else {
                first
            }
        },
        ClearMode::All => grid.with_lines_reset(0, grid.lines, template),
        ClearMode::Above => {
            let before = if line > 1 {
                grid.with_lines_reset(0, line, template)
            } else {
                grid
            };
            before.with_cells_reset(line, 0, min(col + 1, grid.cols), template)
        },
        ClearMode::Saved => grid.without_history(),
    }
}

fn clear_grid(grid: &mut Grid, mode: ClearMode, line: Line, col: Column, template: &Cell)
    requires
        old(grid).wf(),
        line < old(grid).lines,
        col < old(grid).cols,
    ensures
        final(grid)@ == cleared(old(grid)@, mode, line as int, col as int, *template),
        final(grid).wf(),
{
    grid.selection = None;
    let cols = grid.num_cols();
    let lines = grid.num_lines();
    match mode {
        ClearMode::Below => {
            grid.reset_cells(line, col, cols, template);
            if line < lines - 1 {
                grid.reset_lines(line + 1, lines, template);
            }
        },
        ClearMode::All => grid.reset_lines(0, lines, template),
        ClearMode::Above => {
            if line > 1 {
                grid.reset_lines(0, line, template);
            }
            let end = min_of(col + 1, cols);
            grid.reset_cells(line, 0, end, template);
        },
        ClearMode::Saved => grid.clear_history(),
    }
}

/// What is known of the width of a character: a printable ASCII character has the
/// width one, a control character below U+00A0 has none, and any other character has
/// one of at most three.
pub open spec fn width_known(c: char) -> bool {
    &&& 0x20 <= c as u32 && (c as u32) < 0x7f ==> char_width(c) == Some(1usize)
    &&& (c as u32) < 0x20 || (0x7f <= c as u32 && (c as u32) < 0xa0) ==> char_width(c) is None
    &&& (c as u32) >= 0xa0 ==> char_width(c) is Some && char_width(c).unwrap() <= 3
}

impl TermView {
    /// The template without its flags, which clearing fills cells with.
    pub open spec fn plain_template(self) -> Cell {
        Cell { flags: Flags { bits: 0 }, ..self.cursor.template }
    }

    /// The height of the scroll region.
    pub open spec fn region_len(self) -> int {
        max(self.scroll_region.end - self.scroll_region.start, 0)
    }

    /// Whether the cursor's line lies in the scroll region.
    pub open spec fn in_region(self) -> bool {
        self.scroll_region.start <= self.line() < self.scroll_region.end
    }

    /// The lines from `origin` to the end of the scroll region moved up by `lines`, but
    /// by no more than the region or the range is high.
    #[verifier::opaque]
    pub open spec fn scroll_up_relative(self, origin: int, lines: int) -> TermView {
        let n = min(min(lines, self.region_len()), self.scroll_region.end - origin);
        if n <= 0 {
            self
        } else {
            TermView {
                grid: self.grid.scrolled_up(
                    origin,
                    self.scroll_region.end as int,
                    n,
                    self.cursor.template,
                ),
                ..self
            }
        }
    }

    /// The lines from `origin` to the end of the scroll region moved down by `lines`,
    /// but by no more than the region or the range is high.
    #[verifier::opaque]
    pub open spec fn scroll_down_relative(self, origin: int, lines: int) -> TermView {
        let n = min(min(lines, self.region_len()), self.scroll_region.end - origin);
        if n <= 0 {
            self
        } else {
            TermView {
                grid: self.grid.scrolled_down(
                    origin,
                    self.scroll_region.end as int,
                    n,
                    self.cursor.template,
                ),
                ..self
            }
        }
    }

    #[verifier::opaque]
    pub open spec fn scroll_up(self, lines: int) -> TermView {
        self.scroll_up_relative(self.scroll_region.start as int, lines)
    }

    #[verifier::opaque]
    pub open spec fn scroll_down(self, lines: int) -> TermView {
        self.scroll_down_relative(self.scroll_region.start as int, lines)
    }

    /// At the end of the scroll region the region scrolls up by one line; elsewhere
    /// the cursor moves down, unless it is on the last line.
    #[verifier::opaque]
    pub open spec fn linefeed(self) -> TermView {
        let next = self.line() + 1;
        if next == self.scroll_region.end {
            self.scroll_up(1)
        } else if next < self.lines() {
            self.cursor_at(next, self.col())
        } else {
            self
        }
    }

    #[verifier::opaque]
    pub open spec fn newline(self) -> TermView {
        let fed = self.linefeed();
        if fed.mode.spec_contains(LINE_FEED_NEW_LINE) {
            fed.carriage_return()
        } else {
            fed
        }
    }

    /// At the start of the scroll region the region scrolls down by one line;
    /// elsewhere the cursor moves up, unless it is on the first line.
    #[verifier::opaque]
    pub open spec fn reverse_index(self) -> TermView {
        if self.line() == self.scroll_region.start {
            self.scroll_down(1)
        } else {
            self.cursor_at(self.line() - min(self.line(), 1), self.col())
        }
    }

    /// The view back on the screen, if the terminal follows its input.
    #[verifier::opaque]
    pub open spec fn follow_input(self) -> TermView {
        if self.auto_scroll {
            TermView { grid: self.grid.display_scrolled(Scroll::Bottom), dirty: true, ..self }
        } else {
            self
        }
    }

    /// The cell under the cursor marked as wrapped, and the cursor at the start of the
    /// next line, which a line feed makes room for at the end of the scroll region.
    #[verifier::opaque]
    pub open spec fn wrap_line(self) -> TermView {
        let cell = self.row()[self.col()];
        let marked = self.with_row(
            self.row().update(self.col(), Cell { flags: cell.flags.with(WRAPLINE), ..cell }),
        );
        let moved = if marked.line() + 1 >= marked.scroll_region.end {
            marked.linefeed()
        } else {
            marked.cursor_at(marked.line() + 1, marked.col())
        };
        TermView { input_needs_wrap: false, ..moved.cursor_at(moved.line(), 0) }
    }

    /// The cursor one column on; in the last column it stays and the next character
    /// has to wrap.
    #[verifier::opaque]
    pub open spec fn advance(self) -> TermView {
        if self.col() + 1 < self.cols() {
            self.cursor_at(self.line(), self.col() + 1)
        } else {
            TermView { input_needs_wrap: true, ..self }
        }
    }

    /// The column of the cell that a zero-width character combines with: the one
    /// before the cursor, or the one before that where a wide character's spacer is
    /// in between.
    pub open spec fn combining_col(self) -> int {
        let before = max(self.col() - 1, 0);
        if self.row()[before].flags.spec_contains(WIDE_CHAR_SPACER) {
            max(before - 1, 0)
        } else {
            before
        }
    }

    /// The character as the active charset shows it, in a copy of the template.
    pub open spec fn glyph_cell(self, c: char) -> Cell {
        Cell {
            c: charset_glyph(self.cursor.charsets.spec_get(self.active_charset), c),
            ..self.cursor.template
        }
    }

    /// A character of the given width put at the cursor. In insert mode the rest of
    /// the line moves right first, if the character leaves room for it. A character
    /// of no width joins the cell before the cursor, and the cursor stays; any other
    /// replaces the cell under the cursor, a wide one also the cell after it, and the
    /// cursor moves on.
    #[verifier::opaque]
    pub open spec fn put(self, c: char, width: int) -> TermView {
        let made = if self.mode.spec_contains(INSERT) && self.col() + width < self.cols() {
            self.with_row(shifted_right(self.row(), self.col(), width))
        } else {
            self
        };
        if width == 0 {
            let at = made.combining_col();
            made.with_row(made.row().update(at, made.row()[at].with_extra(c)))
        } else if width == 2 {
            let glyph = made.glyph_cell(c);
            let wide = made.with_row(
                made.row().update(
                    made.col(),
                    Cell { flags: glyph.flags.with(WIDE_CHAR), ..glyph },
                ),
            );
            let spaced = if wide.col() + 1 < wide.cols() {
                let next = wide.cursor_at(wide.line(), wide.col() + 1);
                next.with_row(
                    next.row().update(
                        next.col(),
                        Cell {
                            flags: next.cursor.template.flags.with(WIDE_CHAR_SPACER),
                            ..next.cursor.template
                        },
                    ),
                )
            } else {
                wide
            };
            spaced.advance()
        } else {
            made.with_row(made.row().update(made.col(), made.glyph_cell(c))).advance()
        }
    }

    /// What a character does whose width is `width`. The view follows the input. A
    /// pending wrap is made first, or, where lines do not wrap, the character is
    /// dropped. A character without a width only moves the cursor on.
    #[verifier::opaque]
    pub open spec fn input_with_width(self, c: char, width: Option<usize>) -> TermView {
        let shown = self.follow_input();
        if shown.input_needs_wrap && !shown.mode.spec_contains(LINE_WRAP) {
            shown
        } else {
            let ready = if shown.input_needs_wrap {
                shown.wrap_line()
            } else {
                shown
            };
            match width {
                Some(w) => ready.put(c, w as int),
                None => ready.advance(),
            }
        }
    }

    /// Printable characters of width one, typed one after the other.
    pub open spec fn typed(self, chars: Seq<char>) -> TermView
        decreases chars.len(),
    {
        if chars.len() == 0 {
            self
        } else {
            self.typed(chars.drop_last()).input_with_width(chars.last(), Some(1usize))
        }
    }

    /// A space under the cursor becomes a tab character.
    #[verifier::opaque]
    pub open spec fn tab_marked(self) -> TermView {
        let cell = self.row()[self.col()];
        if cell.c == ' ' {
            self.with_row(
                self.row().update(
                    self.col(),
                    Cell {
                        c: charset_glyph(self.cursor.charsets.spec_get(self.active_charset), '\t'),
                        ..cell
                    },
                ),
            )
        } else {
            self
        }
    }

    /// A tab: a space under the cursor becomes a tab character, and the cursor moves
    /// to the next tab stop or the last column.
    #[verifier::opaque]
    pub open spec fn tab_once(self) -> TermView {
        let marked = self.tab_marked();
        marked.cursor_at(marked.line(), next_stop(marked.tabs, marked.col(), marked.cols()))
    }

    pub open spec fn tabbed(self, count: int) -> TermView
        decreases count,
    {
        if count <= 0 {
            self
        } else {
            self.tab_once().tabbed(count - 1)
        }
    }

    /// The cursor moved on by `count` tab stops, the spaces it left from marked as
    /// tabs, and no wrap pending.
    #[verifier::opaque]
    pub open spec fn put_tab(self, count: int) -> TermView {
        TermView { input_needs_wrap: false, ..self.tabbed(count) }
    }

    /// Blank cells put in at the cursor; the rest of the line moves right.
    #[verifier::opaque]
    pub open spec fn insert_blank(self, count: int) -> TermView {
        let n = min(count, self.cols() - self.col());
        self.with_row(
            filled(
                shifted_right(self.row(), self.col(), n),
                self.col(),
                self.col() + n,
                self.cursor.template,
            ),
        )
    }

    /// The cells from the cursor on replaced by the template, `count` of them at most.
    #[verifier::opaque]
    pub open spec fn erase_chars(self, count: int) -> TermView {
        self.with_row(
            filled(
                self.row(),
                self.col(),
                min(self.col() + count, self.cols()),
                self.cursor.template,
            ),
        )
    }

    /// Cells taken out at the cursor: what is right of them moves left, and the last
    /// `count` cells of the line are replaced by the template.
    #[verifier::opaque]
    pub open spec fn delete_chars(self, count: int) -> TermView {
        let n = min(count, self.cols());
        let end = min(self.col() + n, self.cols() - 1);
        self.with_row(
            filled(
                moved_left(self.row(), self.col(), end),
                self.cols() - n,
                self.cols(),
                self.cursor.template,
            ),
        )
    }

    #[verifier::opaque]
    pub open spec fn clear_line(self, mode: LineClearMode) -> TermView {
        let template = self.plain_template();
        match mode {
            LineClearMode::Right => self.with_row(
                filled(self.row(), self.col(), self.cols(), template),
            ),
            LineClearMode::Left => self.with_row(filled(self.row(), 0, self.col() + 1, template)),
            LineClearMode::All => self.with_row(filled(self.row(), 0, self.cols(), template)),
        }
    }

    /// The screen cleared below or above the cursor, or as a whole, or the history
    /// dropped. The selection goes in every case. Clearing above leaves the first line
    /// as it is when the cursor is on the second.
    #[verifier::opaque]
    pub open spec fn clear_screen(self, mode: ClearMode) -> TermView {
        TermView {
            grid: cleared(self.grid, mode, self.line(), self.col(), self.plain_template()),
            ..self
        }
    }

    /// Every cell of the screen replaced by the template with the letter E.
    #[verifier::opaque]
    pub open spec fn dectest(self) -> TermView {
        TermView {
            grid: self.grid.with_lines_reset(
                0,
                self.lines(),
                Cell { c: 'E', ..self.cursor.template },
            ),
            ..self
        }
    }
}

impl Term {
    /// Moves the lines from `origin` to the end of the scroll region up.
    pub fn scroll_up_relative(&mut self, origin: Line, lines: Line)
        requires
            old(self).wf(),
        ensures
            final(self)@ == old(self)@.scroll_up_relative(origin as int, lines as int),
            final(self).wf(),
    {
        proof {
            reveal(TermView::scroll_up_relative);
        }
        let end = self.scroll_region.end;
        let region = end.saturating_sub(self.scroll_region.start);
        let lines = min_of(min_of(lines, region), end.saturating_sub(origin));
        if lines == 0 {
            return ;
        }
        let template = self.cursor.template;
        self.grid.scroll_up(origin, end, lines, &template);
    }

    /// Moves the lines from `origin` to the end of the scroll region down.
    pub fn scroll_down_relative(&mut self, origin: Line, lines: Line)
        requires
            old(self).wf(),
        ensures
            final(self)@ == old(self)@.scroll_down_relative(origin as int, lines as int),
            final(self).wf(),
    {
        proof {
            reveal(TermView::scroll_down_relative);
        }
        let end = self.scroll_region.end;
        let region = end.saturating_sub(self.scroll_region.start);
        let lines = min_of(min_of(lines, region), end.saturating_sub(origin));
        if lines == 0 {
            return ;
        }
        let template = self.cursor.template;
        self.grid.scroll_down(origin, end, lines, &template);
    }

    /// Moves the scroll region up.
    pub fn scroll_up(&mut self, lines: Line)
        requires
            old(self).wf(),
        ensures
            final(self)@ == old(self)@.scroll_up(lines as int),
            final(self).wf(),
    {
        proof {
            reveal(TermView::scroll_up);
        }
        let origin = self.scroll_region.start;
        self.scroll_up_relative(origin, lines);
    }

    /// Moves the scroll region down.
    pub fn scroll_down(&mut self, lines: Line)
        requires
            old(self).wf(),
        ensures
            final(self)@ == old(self)@.scroll_down(lines as int),
            final(self).wf(),
    {
        proof {
            reveal(TermView::scroll_down);
        }
        let origin = self.scroll_region.start;
        self.scroll_down_relative(origin, lines);
    }

    pub fn linefeed(&mut self)
        requires
            old(self).wf(),
        ensures
            final(self)@ == old(self)@.linefeed(),
            final(self).wf(),
    {
        proof {
            reveal(TermView::linefeed);
        }
        let next = self.cursor.point.line + 1;
        if next == self.scroll_region.end {
            self.scroll_up(1);
        } else if next < self.grid.num_lines() {
            self.cursor.point.line += 1;
        }
    }

    /// A line feed, followed by a carriage return in new-line mode.
    pub fn newline(&mut self)
        requires
            old(self).wf(),
        ensures
            final(self)@ == old(self)@.newline(),
            final(self).wf(),
    {
        proof {
            reveal(TermView::newline);
        }
        self.linefeed();
        if self.mode.contains(LINE_FEED_NEW_LINE) {
            self.carriage_return();
        }
    }

    pub fn reverse_index(&mut self)
        requires
            old(self).wf(),
        ensures
            final(self)@ == old(self)@.reverse_index(),
            final(self).wf(),
    {
        proof {
            reveal(TermView::reverse_index);
        }
        if self.cursor.point.line == self.scroll_region.start {
            self.scroll_down(1);
        } else {
            self.cursor.point.line -= min_of(self.cursor.point.line, 1);
        }
    }

    /// Puts blank lines in at the cursor, if it is in the scroll region.
    pub fn insert_blank_lines(&mut self, lines: Line)
        requires
            old(self).wf(),
        ensures
            final(self)@ == if old(self)@.in_region() {
                old(self)@.scroll_down_relative(old(self)@.line(), lines as int)
            } else {
                old(self)@
            },
            final(self).wf(),
    {
        proof {
            reveal(TermView::scroll_down_relative);
        }
        let line = self.cursor.point.line;
        if self.scroll_region.start <= line && line < self.scroll_region.end {
            self.scroll_down_relative(line, lines);
        }
    }

    /// Takes lines out at the cursor, if it is in the scroll region.
    pub fn delete_lines(&mut self, lines: Line)
        requires
            old(self).wf(),
        ensures
            final(self)@ == if old(self)@.in_region() {
                old(self)@.scroll_up_relative(old(self)@.line(), lines as int)
            } else {
                old(self)@
            },
            final(self).wf(),
    {
        proof {
            reveal(TermView::scroll_up_relative);
        }
        let line = self.cursor.point.line;
        if self.scroll_region.start <= line && line < self.scroll_region.end {
            self.scroll_up_relative(line, lines);
        }
    }

    /// Marks the cell under the cursor as wrapped.
    fn mark_wrapped(&mut self)
        requires
            old(self).wf(),
        ensures
            final(self)@ == old(self)@.with_row(
                old(self)@.row().update(
                    old(self)@.col(),
                    Cell {
                        flags: old(self)@.row()[old(self)@.col()].flags.with(WRAPLINE),
                        ..old(self)@.row()[old(self)@.col()]
                    },
                ),
            ),
            final(self).wf(),
    {
        let line = self.cursor.point.line;
        let col = self.cursor.point.col;
        let mut cell = *self.grid.cell(line, col);
        cell.flags.insert(WRAPLINE);
        self.grid.set_cell(line, col, cell);
    }

    fn wrap_line(&mut self)
        requires
            old(self).wf(),
        ensures
            final(self)@ == old(self)@.wrap_line(),
            final(self).wf(),
    {
        proof {
            reveal(TermView::wrap_line);
        }
        self.mark_wrapped();
        if self.cursor.point.line + 1 >= self.scroll_region.end {
            self.linefeed();
            self.cursor.point.col = 0;
            self.input_needs_wrap = false;
        } else {
            self.cursor.point.line += 1;
            self.cursor.point.col = 0;
            self.input_needs_wrap = false;
        }
    }

    fn advance(&mut self)
        requires
            old(self).wf(),
        ensures
            final(self)@ == old(self)@.advance(),
            final(self).wf(),
    {
        proof {
            reveal(TermView::advance);
        }
        if self.cursor.point.col + 1 < self.grid.num_cols() {
            self.cursor.point.col += 1;
        } else {
            self.input_needs_wrap = true;
        }
    }

    /// In insert mode, moves the rest of the line right by `width`, if that leaves a
    /// cell of it on the line.
    fn make_room(&mut self, width: usize)
        requires
            old(self).wf(),
        ensures
            final(self)@ == if old(self)@.mode.spec_contains(INSERT) && old(self)@.col() + width
                < old(self)@.cols() {
                old(self)@.with_row(
                    shifted_right(old(self)@.row(), old(self)@.col(), width as int),
                )
            } else {
                old(self)@
            },
            final(self).wf(),
    {
        let line = self.cursor.point.line;
        let col = self.cursor.point.col;
        if self.mode.contains(INSERT) && width < self.grid.num_cols() - col {
            self.grid.shift_cells_right(line, col, width);
        }
    }

    /// Adds a zero-width character to the cell before the cursor.
    fn put_combining(&mut self, c: char)
        requires
            old(self).wf(),
        ensures
            final(self)@ == old(self)@.with_row(
                old(self)@.row().update(
                    old(self)@.combining_col(),
                    old(self)@.row()[old(self)@.combining_col()].with_extra(c),
                ),
            ),
            final(self).wf(),
    {
        let line = self.cursor.point.line;
        let before = self.cursor.point.col.saturating_sub(1);
        let at = if self.grid.cell(line, before).flags.contains(WIDE_CHAR_SPACER) {
            before.saturating_sub(1)
        } else {
            before
        };
        let mut cell = *self.grid.cell(line, at);
        cell.push_extra(c);
        self.grid.set_cell(line, at, cell);
    }

    /// Puts a cell under the cursor.
    fn put_cell(&mut self, cell: Cell)
        requires
            old(self).wf(),
        ensures
            final(self)@ == old(self)@.with_row(old(self)@.row().update(old(self)@.col(), cell)),
            final(self).wf(),
    {
        let line = self.cursor.point.line;
        let col = self.cursor.point.col;
        self.grid.set_cell(line, col, cell);
    }

    /// The cell that shows a character: the template with the glyph of the active
    /// charset.
    fn glyph_cell(&self, c: char) -> (cell: Cell)
        ensures
            cell == self@.glyph_cell(c),
    {
        let mut cell = self.cursor.template;
        cell.c = self.cursor.charsets.get(self.active_charset).map(c);
        cell
    }

    /// Puts the spacer of a wide character into the next cell and moves onto it, if
    /// there is a next cell.
    fn put_spacer(&mut self)
        requires
            old(self).wf(),
        ensures
            final(self)@ == if old(self)@.col() + 1 < old(self)@.cols() {
                old(self)@.cursor_at(old(self)@.line(), old(self)@.col() + 1).with_row(
                    old(self)@.row().update(
                        old(self)@.col() + 1,
                        Cell {
                            flags: old(self)@.cursor.template.flags.with(WIDE_CHAR_SPACER),
                            ..old(self)@.cursor.template
                        },
                    ),
                )
            } else {
                old(self)@
            },
            final(self).wf(),
    {
        let line = self.cursor.point.line;
        let col = self.cursor.point.col;
        if col + 1 < self.grid.num_cols() {
            self.cursor.point.col += 1;
            let mut spacer = self.cursor.template;
            spacer.flags.insert(WIDE_CHAR_SPACER);
            self.grid.set_cell(line, col + 1, spacer);
        }
    }

    fn put(&mut self, c: char, width: usize)
        requires
            old(self).wf(),
        ensures
            final(self)@ == old(self)@.put(c, width as int),
            final(self).wf(),
    {
        proof {
            reveal(TermView::put);
        }
        self.make_room(width);
        if width == 0 {
            self.put_combining(c);
        } else if width == 2 {
            let mut cell = self.glyph_cell(c);
            cell.flags.insert(WIDE_CHAR);
            self.put_cell(cell);
            self.put_spacer();
            self.advance();
        } else {
            let cell = self.glyph_cell(c);
            self.put_cell(cell);
            self.advance();
        }
    }

    fn follow_input(&mut self)
        requires
            old(self).wf(),
        ensures
            final(self)@ == old(self)@.follow_input(),
            final(self).wf(),
    {
        proof {
            reveal(TermView::follow_input);
        }
        if self.auto_scroll {
            self.scroll_display(Scroll::Bottom);
        }
    }

    fn put_or_advance(&mut self, c: char, width: Option<usize>)
        requires
            old(self).wf(),
        ensures
            final(self)@ == match width {
                Some(w) => old(self)@.put(c, w as int),
                None => old(self)@.advance(),
            },
            final(self).wf(),
    {
        proof {
            reveal(TermView::advance);
            reveal(TermView::put);
        }
        match width {
            Some(w) => self.put(c, w),
            None => self.advance(),
        }
    }

    /// Puts a character on the screen whose width is `width`.
    pub fn input_with_width(&mut self, c: char, width: Option<usize>)
        requires
            old(self).wf(),
        ensures
            final(self)@ == old(self)@.input_with_width(c, width),
            final(self).wf(),
    {
        proof {
            reveal(TermView::input_with_width);
        }
        self.follow_input();
        if self.input_needs_wrap {
            if self.mode.contains(LINE_WRAP) {
                self.wrap_line();
                self.put_or_advance(c, width);
            }
        } else {
            self.put_or_advance(c, width);
        }
    }

    /// Puts a character on the screen, as wide as the character is: a printable ASCII
    /// character has the width one, a control character below U+00A0 has none, and any
    /// other character has one of at most three.
    pub fn input(&mut self, c: char)
        requires
            old(self).wf(),
        ensures
            final(self)@ == old(self)@.input_with_width(c, char_width(c)),
            final(self).wf(),
            width_known(c),
    {
        let width = width_of(c);
        self.input_with_width(c, width);
    }

    /// The next tab stop after the cursor, or the last column.
    fn find_next_stop(&self) -> (col: Column)
        requires
            self.wf(),
        ensures
            col == next_stop(self@.tabs, self@.col(), self@.cols()),
            col < self@.cols(),
    {
        let start = self.cursor.point.col;
        let cols = self.grid.num_cols();
        let mut col = start;
        let mut searching = true;
        while searching
            invariant
                start <= col < cols,
                cols == self@.cols(),
                self@.tabs.len() == cols,
                next_stop(self@.tabs, start as int, cols as int) == if searching {
                    next_stop(self@.tabs, col as int, cols as int)
                } else {
                    col as int
                },
            decreases cols - col, (if searching {
                1int
            } else {
                0int
            }),
        {
            if col + 1 == cols {
                searching = false;
            } else {
                col += 1;
                if self.tabs.is_set(col) {
                    searching = false;
                }
            }
        }
        col
    }

    fn mark_tab(&mut self)
        requires
            old(self).wf(),
        ensures
            final(self)@ == old(self)@.tab_marked(),
            final(self).wf(),
    {
        proof {
            reveal(TermView::tab_marked);
        }
        let line = self.cursor.point.line;
        let col = self.cursor.point.col;
        let mut cell = *self.grid.cell(line, col);
        if cell.c == ' ' {
            cell.c = self.cursor.charsets.get(self.active_charset).map('\t');
            self.grid.set_cell(line, col, cell);
        }
    }

    fn tab_once(&mut self)
        requires
            old(self).wf(),
        ensures
            final(self)@ == old(self)@.tab_once(),
            final(self).wf(),
    {
        proof {
            reveal(TermView::tab_once);
        }
        self.mark_tab();
        let to = self.find_next_stop();
        self.cursor.point.col = to;
    }

    /// Moves the cursor on by `count` tab stops and marks the spaces it leaves from
    /// as tabs.
    pub fn put_tab(&mut self, count: i64)
        requires
            old(self).wf(),
        ensures
            final(self)@ == old(self)@.put_tab(count as int),
            final(self).wf(),
    {
        proof {
            reveal(TermView::put_tab);
        }
        let mut left: i64 = count;
        while left > 0
            invariant
                self.wf(),
                self@.tabbed(left as int) == old(self)@.tabbed(count as int),
            decreases left,
        {
            self.tab_once();
            left -= 1;
        }
        self.input_needs_wrap = false;
    }

    pub fn insert_blank(&mut self, count: Column)
        requires
            old(self).wf(),
        ensures
            final(self)@ == old(self)@.insert_blank(count as int),
            final(self).wf(),
    {
        proof {
            reveal(TermView::insert_blank);
        }
        let line = self.cursor.point.line;
        let source = self.cursor.point.col;
        let count = min_of(count, self.grid.num_cols() - source);
        let destination = source + count;
        self.grid.shift_cells_right(line, source, count);
        let template = self.cursor.template;
        self.grid.reset_cells(line, source, destination, &template);
        proof {
            let at = old(self)@.grid.history() + line;
            let moved = shifted_right(old(self)@.row(), source as int, count as int);
            assert(old(self)@.grid.rows.update(at, moved)[at] == moved);
            assert(self.grid@.rows =~= old(self)@.insert_blank(count as int).grid.rows);
        }
    }

    pub fn erase_chars(&mut self, count: Column)
        requires
            old(self).wf(),
        ensures
            final(self)@ == old(self)@.erase_chars(count as int),
            final(self).wf(),
    {
        proof {
            reveal(TermView::erase_chars);
        }
        let start = self.cursor.point.col;
        let end = min_of(start.saturating_add(count), self.grid.num_cols());
        let line = self.cursor.point.line;
        let template = self.cursor.template;
        self.grid.reset_cells(line, start, end, &template);
    }

    pub fn delete_chars(&mut self, count: Column)
        requires
            old(self).wf(),
        ensures
            final(self)@ == old(self)@.delete_chars(count as int),
            final(self).wf(),
    {
        proof {
            reveal(TermView::delete_chars);
        }
        let cols = self.grid.num_cols();
        let count = min_of(count, cols);
        let start = self.cursor.point.col;
        let end = min_of(start.saturating_add(count), cols - 1);
        let line = self.cursor.point.line;
        self.grid.move_cells_left(line, start, end);
        let template = self.cursor.template;
        self.grid.reset_cells(line, cols - count, cols, &template);
        proof {
            let at = old(self)@.grid.history() + line;
            let moved = moved_left(old(self)@.row(), start as int, end as int);
            assert(old(self)@.grid.rows.update(at, moved)[at] == moved);
            assert(self.grid@.rows =~= old(self)@.delete_chars(count as int).grid.rows);
        }
    }

    /// Clears the cursor's line right of the cursor, left of it, or as a whole.
    pub fn clear_line(&mut self, mode: LineClearMode)
        requires
            old(self).wf(),
        ensures
            final(self)@ == old(self)@.clear_line(mode),
            final(self).wf(),
    {
        proof {
            reveal(TermView::clear_line);
        }
        let mut template = self.cursor.template;
        template.flags = Flags::empty();
        let col = self.cursor.point.col;
        let line = self.cursor.point.line;
        let cols = self.grid.num_cols();
        match mode {
            LineClearMode::Right => self.grid.reset_cells(line, col, cols, &template),
            LineClearMode::Left => self.grid.reset_cells(line, 0, col + 1, &template),
            LineClearMode::All => self.grid.reset_cells(line, 0, cols, &template),
        }
    }

    /// Clears a part of the screen, or drops the history.
    pub fn clear_screen(&mut self, mode: ClearMode)
        requires
            old(self).wf(),
        ensures
            final(self)@ == old(self)@.clear_screen(mode),
            final(self).wf(),
    {
        proof {
            reveal(TermView::clear_screen);
        }
        let mut template = self.cursor.template;
        template.flags = Flags::empty();
        let col = self.cursor.point.col;
        let line = self.cursor.point.line;
        clear_grid(&mut self.grid, mode, line, col, &template);
    }

    /// Fills the screen with the letter E.
    pub fn dectest(&mut self)
        requires
            old(self).wf(),
        ensures
            final(self)@ == old(self)@.dectest(),
            final(self).wf(),
    {
        proof {
            reveal(TermView::dectest);
        }
        let mut template = self.cursor.template;
        template.c = 'E';
        let lines = self.grid.num_lines();
        self.grid.reset_lines(0, lines, &template);
    }
}

} // verus!
