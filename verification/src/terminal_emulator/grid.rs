//! The grid: the rows of the screen and, above them, the rows that scrolled out.

use crate::terminal_emulator::index::max;
use crate::terminal_emulator::index::min;
use crate::terminal_emulator::index::min_of;
use crate::terminal_emulator::index::Column;
use crate::terminal_emulator::index::Line;
use crate::terminal_emulator::index::Point;
use crate::terminal_emulator::selection::rotated_selection;
use crate::terminal_emulator::selection::Selection;
use crate::terminal_emulator::term::cell::Cell;
use vstd::prelude::*;

verus! {

/// How to move the view over the scrollback.
#[derive(Clone, Copy, Debug, PartialEq, Eq, Structural)]
pub enum Scroll {
    Lines(isize),
    PageUp,
    PageDown,
    Top,
    Bottom,
}

/// Where a buffer line lies with respect to the view.
#[derive(Clone, Copy, Debug, PartialEq, Eq, Structural)]
pub enum ViewportPosition {
    Visible(Line),
    Above,
    Below,
}

/// A cell together with its place on the display.
#[derive(Clone, Copy, Debug, PartialEq, Eq)]
pub struct Indexed {
    pub inner: Cell,
    pub line: Line,
    pub column: Column,
}

/// A row of `cols` copies of the template.
pub open spec fn blank_row(cols: int, template: Cell) -> Seq<Cell> {
    Seq::new(cols as nat, |j: int| template)
}

/// The row with the cells in `[from, to)` replaced by the template.
pub open spec fn filled(row: Seq<Cell>, from: int, to: int, template: Cell) -> Seq<Cell> {
    Seq::new(
        row.len(),
        |j: int|
            if from <= j < to {
                template
            } else {
                row[j]
            },
    )
}

/// The row with its cells from `col` on moved right by `width`; the cells that are
/// pushed over the end are lost, and the first `width` cells from `col` on stay.
pub open spec fn shifted_right(row: Seq<Cell>, col: int, width: int) -> Seq<Cell> {
    Seq::new(
        row.len(),
        |j: int|
            if j >= col + width {
                row[j - width]
            } else {
                row[j]
            },
    )
}

/// The row with its cells from `end` on copied to `start` and the columns after it;
/// the cells further right stay.
pub open spec fn moved_left(row: Seq<Cell>, start: int, end: int) -> Seq<Cell> {
    Seq::new(
        row.len(),
        |j: int|
            if start <= j < start + (row.len() - end) {
                row[j - start + end]
            } else {
                row[j]
            },
    )
}

/// The rows in `[from, to)` moved up by `n`; the `n` rows at the end of the range are
/// blank.
pub open spec fn shifted_up(
    rows: Seq<Seq<Cell>>,
    from: int,
    to: int,
    n: int,
    blank: Seq<Cell>,
) -> Seq<Seq<Cell>> {
    Seq::new(
        rows.len(),
        |i: int|
            if from <= i < to - n {
                rows[i + n]
            } else if to - n <= i < to {
                blank
            } else {
                rows[i]
            },
    )
}

/// The rows in `[from, to)` moved down by `n`; the `n` rows at the start of the range
/// are blank.
pub open spec fn shifted_down(
    rows: Seq<Seq<Cell>>,
    from: int,
    to: int,
    n: int,
    blank: Seq<Cell>,
) -> Seq<Seq<Cell>> {
    Seq::new(
        rows.len(),
        |i: int|
            if from <= i < from + n {
                blank
            } else if from + n <= i < to {
                rows[i - n]
            } else {
                rows[i]
            },
    )
}

/// The row made `cols` wide: cut at the right, or filled up with the template.
pub open spec fn widened(row: Seq<Cell>, cols: int, template: Cell) -> Seq<Cell> {
    Seq::new(
        cols as nat,
        |j: int|
            if j < row.len() {
                row[j]
            } else {
                template
            },
    )
}

/// The cells of each row.
pub open spec fn views(raw: Seq<Vec<Cell>>) -> Seq<Seq<Cell>> {
    Seq::new(raw.len(), |i: int| raw[i]@)
}

proof fn lemma_views_insert(raw: Seq<Vec<Cell>>, at: int, row: Vec<Cell>)
    requires
        0 <= at <= raw.len(),
    ensures
        views(raw.insert(at, row)) == views(raw).insert(at, row@),
{
    assert(views(raw.insert(at, row)) =~= views(raw).insert(at, row@));
}

proof fn lemma_views_remove(raw: Seq<Vec<Cell>>, at: int)
    requires
        0 <= at < raw.len(),
    ensures
        views(raw.remove(at)) == views(raw).remove(at),
{
    assert(views(raw.remove(at)) =~= views(raw).remove(at));
}

/// The last `limit` rows, or all of them when there are no more.
pub open spec fn newest(rows: Seq<Seq<Cell>>, limit: int) -> Seq<Seq<Cell>> {
    if rows.len() > limit {
        rows.subrange(rows.len() - limit, rows.len() as int)
    } else {
        rows
    }
}

/// The grid as a value: all rows, oldest first, of which the last `lines` are the
/// screen and the others the history.
pub struct GridView {
    pub rows: Seq<Seq<Cell>>,
    pub lines: int,
    pub cols: int,
    pub display_offset: int,
    pub max_scroll_limit: int,
    pub selection: Option<Selection>,
}

impl GridView {
    /// The number of rows that scrolled out and are kept.
    pub open spec fn history(self) -> int {
        self.rows.len() - self.lines
    }

    /// Every row has `cols` cells, the sizes are such as a machine can hold, the history
    /// is within its limit, and the view is scrolled back no further than the history
    /// reaches.
    pub open spec fn wf(self) -> bool {
        &&& 0 <= self.lines <= self.rows.len() <= usize::MAX
        &&& 0 <= self.cols <= usize::MAX
        &&& self.history() <= self.max_scroll_limit
        &&& 0 <= self.display_offset <= self.history()
        &&& forall|i: int| 0 <= i < self.rows.len() ==> (#[trigger] self.rows[i]).len() == self.cols
    }

    /// The rows of the history, oldest first.
    pub open spec fn scrollback(self) -> Seq<Seq<Cell>> {
        self.rows.subrange(0, self.history())
    }

    /// The rows of the screen, top first.
    pub open spec fn screen(self) -> Seq<Seq<Cell>> {
        self.rows.subrange(self.history(), self.rows.len() as int)
    }

    /// A row of the screen, counted from the top.
    pub open spec fn row(self, line: int) -> Seq<Cell> {
        self.rows[self.history() + line]
    }

    /// A cell of the screen.
    pub open spec fn cell(self, line: int, col: int) -> Cell {
        self.row(line)[col]
    }

    /// A row of the buffer, counted from the bottom line of the screen upwards.
    pub open spec fn buffer_row(self, line: int) -> Seq<Cell> {
        self.rows[self.rows.len() - 1 - line]
    }

    pub open spec fn with_row(self, line: int, row: Seq<Cell>) -> GridView {
        GridView { rows: self.rows.update(self.history() + line, row), ..self }
    }

    pub open spec fn with_cell(self, line: int, col: int, cell: Cell) -> GridView {
        self.with_row(line, self.row(line).update(col, cell))
    }

    /// The cells in `[from, to)` of a screen row replaced by the template.
    pub open spec fn with_cells_reset(self, line: int, from: int, to: int, template: Cell) -> GridView {
        self.with_row(line, filled(self.row(line), from, to, template))
    }

    /// The screen rows in `[start, end)` replaced by rows of the template.
    pub open spec fn with_lines_reset(self, start: int, end: int, template: Cell) -> GridView {
        GridView {
            rows: Seq::new(
                self.rows.len(),
                |i: int|
                    if self.history() + start <= i < self.history() + end {
                        blank_row(self.cols, template)
                    } else {
                        self.rows[i]
                    },
            ),
            ..self
        }
    }

    /// The screen rows in `[start, end)` move up by `n` and leave `n` blank rows at the
    /// end of the range. When the range starts at the top of the screen, the rows that
    /// leave it join the history, which drops its oldest rows when it is full; a view
    /// that is scrolled back stays on the rows it shows, and the selection moves with
    /// the text.
    pub open spec fn scrolled_up(self, start: int, end: int, n: int, template: Cell) -> GridView {
        let h = self.history();
        let moved = shifted_up(self.rows, h + start, h + end, n, blank_row(self.cols, template));
        if start == 0 {
            let kept = newest(self.rows.subrange(0, h + n), self.max_scroll_limit);
            GridView {
                rows: kept + moved.subrange(h, self.rows.len() as int),
                display_offset: if self.display_offset == 0 {
                    0
                } else {
                    min(self.display_offset + n, kept.len() as int)
                },
                selection: rotated_selection(self.selection, n),
                ..self
            }
        } else {
            GridView { rows: moved, ..self }
        }
    }

    /// The screen rows in `[start, end)` move down by `n` and leave `n` blank rows at
    /// the start of the range. The history stays; when the range starts at the top of
    /// the screen the selection moves with the text.
    pub open spec fn scrolled_down(self, start: int, end: int, n: int, template: Cell) -> GridView {
        let h = self.history();
        GridView {
            rows: shifted_down(self.rows, h + start, h + end, n, blank_row(self.cols, template)),
            selection: if start == 0 {
                rotated_selection(self.selection, -n)
            } else {
                self.selection
            },
            ..self
        }
    }

    /// The history dropped and the view back on the screen.
    pub open spec fn without_history(self) -> GridView {
        GridView { rows: self.screen(), display_offset: 0, ..self }
    }

    /// The view moved over the scrollback, never past its ends.
    pub open spec fn display_scrolled(self, scroll: Scroll) -> GridView {
        let offset = match scroll {
            Scroll::Lines(count) => min(max(self.display_offset + count, 0), self.history()),
            Scroll::PageUp => min(self.display_offset + self.lines, self.history()),
            Scroll::PageDown => max(self.display_offset - self.lines, 0),
            Scroll::Top => self.history(),
            Scroll::Bottom => 0,
        };
        GridView { display_offset: offset, ..self }
    }

    /// The screen made `lines` high, which is more than it is. Rows of the history, as
    /// far as there are any, come back as the top of the screen; what is still missing
    /// is added as blank rows at the bottom.
    pub open spec fn grown_lines(self, lines: int, template: Cell) -> GridView {
        let added = lines - self.lines;
        let pulled = min(added, self.history());
        GridView {
            rows: self.rows + Seq::new(
                (added - pulled) as nat,
                |i: int| blank_row(self.cols, template),
            ),
            lines,
            display_offset: max(self.display_offset - added, 0),
            ..self
        }
    }

    /// The screen made `lines` high, which is less than it is: the rows at the bottom
    /// go, and so does the selection.
    pub open spec fn shrunk_lines(self, lines: int) -> GridView {
        GridView {
            rows: self.rows.subrange(0, self.rows.len() - (self.lines - lines)),
            lines,
            selection: None,
            ..self
        }
    }

    /// Every row made `cols` wide: cut at the right, or filled up with the template.
    pub open spec fn with_cols(self, cols: int, template: Cell) -> GridView {
        GridView {
            rows: Seq::new(self.rows.len(), |i: int| widened(self.rows[i], cols, template)),
            cols,
            ..self
        }
    }

    /// The grid with a new size.
    pub open spec fn resized(self, lines: int, cols: int, template: Cell) -> GridView {
        let high = if lines > self.lines {
            self.grown_lines(lines, template)
        } else if lines < self.lines {
            self.shrunk_lines(lines)
        } else {
            self
        };
        if cols == self.cols {
            high
        } else {
            high.with_cols(cols, template)
        }
    }

    /// Where a buffer line, counted from the bottom of the screen upwards, lies in the
    /// view.
    pub open spec fn viewport_position(self, line: int) -> ViewportPosition {
        if line < self.display_offset {
            ViewportPosition::Below
        } else if line - self.display_offset >= self.lines {
            ViewportPosition::Above
        } else {
            ViewportPosition::Visible((self.lines - (line - self.display_offset) - 1) as usize)
        }
    }
}

/// The grid: all rows, oldest first. The last `lines` rows are the screen, the rows
/// before them the scrollback history.
#[derive(Clone, Debug, PartialEq, Eq)]
pub struct Grid {
    pub raw: Vec<Vec<Cell>>,
    pub cols: Column,
    pub lines: Line,
    /// How many rows the view is scrolled back into the history.
    pub display_offset: usize,
    /// The most rows of history that are kept.
    pub max_scroll_limit: usize,
    pub selection: Option<Selection>,
}

impl View for Grid {
    type V = GridView;

    open spec fn view(&self) -> GridView {
        GridView {
            rows: views(self.raw@),
            lines: self.lines as int,
            cols: self.cols as int,
            display_offset: self.display_offset as int,
            max_scroll_limit: self.max_scroll_limit as int,
            selection: self.selection,
        }
    }
}

/// Makes a row of `cols` copies of the template.
pub fn new_row(cols: Column, template: &Cell) -> (row: Vec<Cell>)
    ensures
        row@ == blank_row(cols as int, *template),
{
    let mut row: Vec<Cell> = Vec::new();
    let mut j: usize = 0;
    while j < cols
        invariant
            j <= cols,
            row@ == blank_row(j as int, *template),
        decreases cols - j,
    {
        row.push(*template);
        proof {
            assert(row@ =~= blank_row(j + 1, *template));
        }
        j += 1;
    }
    row
}

/// Replaces the cells in `[from, to)` of a row by the template.
pub fn reset_range(row: &mut Vec<Cell>, from: Column, to: Column, template: &Cell)
    requires
        from <= to <= old(row)@.len(),
    ensures
        final(row)@ == filled(old(row)@, from as int, to as int, *template),
{
    let mut j: usize = from;
    proof {
        assert(row@ =~= filled(old(row)@, from as int, from as int, *template));
    }
    while j < to
        invariant
            from <= j <= to <= row@.len(),
            row@ == filled(old(row)@, from as int, j as int, *template),
        decreases to - j,
    {
        row[j] = *template;
        proof {
            assert(row@ =~= filled(old(row)@, from as int, j + 1, *template));
        }
        j += 1;
    }
}

/// Blank rows put in after a range that starts at the top of the screen make the rows
/// at its start the newest of the history and leave the screen moved up.
proof fn lemma_scroll_from_top(
    rows: Seq<Seq<Cell>>,
    h: int,
    end: int,
    n: int,
    limit: int,
    blank: Seq<Cell>,
)
    requires
        0 <= h,
        0 <= n <= end,
        h + end <= rows.len(),
        h <= limit,
    ensures
        ({
            let full = rows.subrange(0, h + end) + Seq::new(n as nat, |i: int| blank)
                + rows.subrange(h + end, rows.len() as int);
            let over = if h + n > limit {
                h + n - limit
            } else {
                0
            };
            full.subrange(over, full.len() as int) == newest(rows.subrange(0, h + n), limit)
                + shifted_up(rows, h, h + end, n, blank).subrange(h, rows.len() as int)
        }),
{
    let full = rows.subrange(0, h + end) + Seq::new(n as nat, |i: int| blank) + rows.subrange(
        h + end,
        rows.len() as int,
    );
    let over = if h + n > limit {
        h + n - limit
    } else {
        0
    };
    let head = rows.subrange(0, h + n);
    let moved = shifted_up(rows, h, h + end, n, blank).subrange(h, rows.len() as int);
    assert(newest(head, limit) =~= head.subrange(over, head.len() as int));
    assert(full.subrange(over, full.len() as int) =~= head.subrange(over, head.len() as int)
        + moved);
}

/// Moves the rows in `[from, to)` up by `n` and leaves blank rows at the end of the range.
fn shift_rows_up(
    raw: &mut Vec<Vec<Cell>>,
    from: usize,
    to: usize,
    n: usize,
    cols: Column,
    template: &Cell,
)
    requires
        from <= to <= old(raw)@.len(),
        n <= to - from,
        forall|i: int|
            0 <= i < old(raw)@.len() ==> (#[trigger] views(old(raw)@)[i]).len() == cols,
    ensures
        views(final(raw)@) == shifted_up(
            views(old(raw)@),
            from as int,
            to as int,
            n as int,
            blank_row(cols as int, *template),
        ),
{
    let ghost rows = views(raw@);
    let ghost blank = blank_row(cols as int, *template);
    let mut k: usize = 0;
    proof {
        assert(views(raw@) =~= shifted_up(rows, from as int, to as int, 0, blank));
    }
    while k < n
        invariant
            k <= n <= to - from,
            from <= to <= rows.len(),
            rows == views(old(raw)@),
            blank == blank_row(cols as int, *template),
            forall|i: int| 0 <= i < rows.len() ==> (#[trigger] rows[i]).len() == cols,
            raw@.len() == rows.len(),
            views(raw@) == shifted_up(rows, from as int, to as int, k as int, blank),
        decreases n - k,
    {
        let ghost before = raw@;
        let mut row = raw.remove(from);
        let ghost mid = raw@;
        proof {
            lemma_views_remove(before, from as int);
            assert(row@ == views(before)[from as int]);
            assert(row@.len() == cols);
        }
        reset_range(&mut row, 0, cols, template);
        proof {
            assert(row@ =~= blank);
        }
        raw.insert(to - 1, row);
        proof {
            lemma_views_insert(mid, to - 1, row);
            assert(views(raw@) =~= shifted_up(rows, from as int, to as int, k + 1, blank));
        }
        k += 1;
    }
}

/// Moves the rows in `[from, to)` down by `n` and leaves blank rows at the start of the
/// range.
fn shift_rows_down(
    raw: &mut Vec<Vec<Cell>>,
    from: usize,
    to: usize,
    n: usize,
    cols: Column,
    template: &Cell,
)
    requires
        from <= to <= old(raw)@.len(),
        n <= to - from,
        forall|i: int|
            0 <= i < old(raw)@.len() ==> (#[trigger] views(old(raw)@)[i]).len() == cols,
    ensures
        views(final(raw)@) == shifted_down(
            views(old(raw)@),
            from as int,
            to as int,
            n as int,
            blank_row(cols as int, *template),
        ),
{
    let ghost rows = views(raw@);
    let ghost blank = blank_row(cols as int, *template);
    let mut k: usize = 0;
    proof {
        assert(views(raw@) =~= shifted_down(rows, from as int, to as int, 0, blank));
    }
    while k < n
        invariant
            k <= n <= to - from,
            from <= to <= rows.len(),
            rows == views(old(raw)@),
            blank == blank_row(cols as int, *template),
            forall|i: int| 0 <= i < rows.len() ==> (#[trigger] rows[i]).len() == cols,
            raw@.len() == rows.len(),
            views(raw@) == shifted_down(rows, from as int, to as int, k as int, blank),
        decreases n - k,
    {
        let ghost before = raw@;
        let mut row = raw.remove(to - 1);
        let ghost mid = raw@;
        proof {
            lemma_views_remove(before, to - 1);
            assert(row@ == views(before)[to - 1]);
            assert(row@.len() == cols);
        }
        reset_range(&mut row, 0, cols, template);
        proof {
            assert(row@ =~= blank);
        }
        raw.insert(from, row);
        proof {
            lemma_views_insert(mid, from as int, row);
            assert(views(raw@) =~= shifted_down(rows, from as int, to as int, k + 1, blank));
        }
        k += 1;
    }
}

/// Inserts `n` blank rows before the row at `at`.
fn insert_blank_rows(raw: &mut Vec<Vec<Cell>>, at: usize, n: usize, cols: Column, template: &Cell)
    requires
        at <= old(raw)@.len(),
    ensures
        views(final(raw)@) == views(old(raw)@).subrange(0, at as int) + Seq::new(
            n as nat,
            |i: int| blank_row(cols as int, *template),
        ) + views(old(raw)@).subrange(at as int, old(raw)@.len() as int),
{
    let ghost rows = views(raw@);
    let ghost blank = blank_row(cols as int, *template);
    let ghost len = rows.len() as int;
    let mut k: usize = 0;
    proof {
        assert(views(raw@) =~= rows.subrange(0, at as int) + Seq::new(0, |i: int| blank)
            + rows.subrange(at as int, len));
    }
    while k < n
        invariant
            k <= n,
            at <= len,
            rows == views(old(raw)@),
            len == rows.len(),
            blank == blank_row(cols as int, *template),
            views(raw@) == rows.subrange(0, at as int) + Seq::new(k as nat, |i: int| blank)
                + rows.subrange(at as int, len),
        decreases n - k,
    {
        let ghost before = raw@;
        let row = new_row(cols, template);
        proof {
            assert(before.len() == views(before).len());
        }
        raw.insert(at, row);
        proof {
            lemma_views_insert(before, at as int, row);
            assert(views(raw@) =~= rows.subrange(0, at as int) + Seq::new(
                (k + 1) as nat,
                |i: int| blank,
            ) + rows.subrange(at as int, len));
        }
        k += 1;
    }
}

/// Removes the first `n` rows.
fn drop_oldest(raw: &mut Vec<Vec<Cell>>, n: usize)
    requires
        n <= old(raw)@.len(),
    ensures
        views(final(raw)@) == views(old(raw)@).subrange(n as int, old(raw)@.len() as int),
{
    let ghost rows = views(raw@);
    let mut dropped: usize = 0;
    proof {
        assert(views(raw@) =~= rows.subrange(0, rows.len() as int));
    }
    while dropped < n
        invariant
            dropped <= n <= rows.len(),
            rows == views(old(raw)@),
            views(raw@) == rows.subrange(dropped as int, rows.len() as int),
        decreases n - dropped,
    {
        let ghost before = raw@;
        proof {
            assert(before.len() == views(before).len());
        }
        raw.remove(0);
        proof {
            lemma_views_remove(before, 0);
            assert(views(raw@) =~= rows.subrange(dropped + 1, rows.len() as int));
        }
        dropped += 1;
    }
}

/// Moves the cells from `col` on right by `width`.
fn shift_right(row: &mut Vec<Cell>, col: Column, width: usize)
    requires
        col + width <= old(row)@.len(),
    ensures
        final(row)@ == shifted_right(old(row)@, col as int, width as int),
{
    if width == 0 {
        proof {
            assert(row@ =~= shifted_right(old(row)@, col as int, 0));
        }
        return ;
    }
    let n = row.len();
    let mut j: usize = n;
    while j > col + width
        invariant
            0 < width,
            col + width <= j <= n,
            n == row@.len(),
            n == old(row)@.len(),
            forall|k: int| j <= k < n ==> row@[k] == old(row)@[k - width],
            forall|k: int| 0 <= k < j ==> row@[k] == old(row)@[k],
        decreases j,
    {
        j -= 1;
        let cell = row[j - width];
        row[j] = cell;
    }
    proof {
        assert(row@ =~= shifted_right(old(row)@, col as int, width as int));
    }
}

/// Copies the cells from `end` on to `start` and the columns after it.
fn move_left(row: &mut Vec<Cell>, start: Column, end: Column)
    requires
        start <= end <= old(row)@.len(),
    ensures
        final(row)@ == moved_left(old(row)@, start as int, end as int),
{
    let n = row.len();
    let count = n - end;
    let mut i: usize = 0;
    while i < count
        invariant
            start <= end <= n,
            count == n - end,
            i <= count,
            n == row@.len(),
            n == old(row)@.len(),
            forall|k: int| start <= k < start + i ==> row@[k] == old(row)@[k - start + end],
            forall|k: int| 0 <= k < n && !(start <= k < start + i) ==> row@[k] == old(row)@[k],
        decreases count - i,
    {
        let cell = row[end + i];
        row[start + i] = cell;
        i += 1;
    }
    proof {
        assert(row@ =~= moved_left(old(row)@, start as int, end as int));
    }
}

/// Makes a row `cols` wide: cuts it at the right, or fills it up with the template.
fn resize_row(row: &mut Vec<Cell>, cols: Column, template: &Cell)
    ensures
        final(row)@ == widened(old(row)@, cols as int, *template),
{
    if cols < row.len() {
        row.truncate(cols);
        proof {
            assert(row@ =~= widened(old(row)@, cols as int, *template));
        }
    } else {
        let ghost start = row@.len();
        proof {
            assert(row@ =~= widened(old(row)@, start as int, *template));
        }
        while row.len() < cols
            invariant
                old(row)@.len() <= row@.len() <= cols,
                row@ == widened(old(row)@, row@.len() as int, *template),
            decreases cols - row@.len(),
        {
            let ghost before = row@;
            row.push(*template);
            proof {
                assert(row@ =~= widened(old(row)@, before.len() as int + 1, *template));
            }
        }
    }
}

/// Makes every row `cols` wide.
fn resize_rows(raw: &mut Vec<Vec<Cell>>, cols: Column, template: &Cell)
    ensures
        views(final(raw)@) == Seq::new(
            old(raw)@.len(),
            |i: int| widened(views(old(raw)@)[i], cols as int, *template),
        ),
{
    let ghost rows = views(raw@);
    let n = raw.len();
    let mut i: usize = 0;
    while i < n
        invariant
            i <= n,
            n == rows.len(),
            raw@.len() == n,
            rows == views(old(raw)@),
            forall|k: int| 0 <= k < i ==> (#[trigger] views(raw@)[k]) == widened(
                rows[k],
                cols as int,
                *template,
            ),
            forall|k: int| i <= k < n ==> (#[trigger] views(raw@)[k]) == rows[k],
        decreases n - i,
    {
        let ghost before = raw@;
        proof {
            assert(views(before)[i as int] == rows[i as int]);
        }
        resize_row(&mut raw[i], cols, template);
        proof {
            assert forall|k: int| 0 <= k < n && k != i implies (#[trigger] views(raw@)[k])
                == views(before)[k] by {
                assert(raw@[k] == before[k]);
            }
            assert(views(raw@)[i as int] == widened(rows[i as int], cols as int, *template));
        }
        i += 1;
    }
    proof {
        assert(views(raw@) =~= Seq::new(
            old(raw)@.len(),
            |i: int| widened(rows[i], cols as int, *template),
        ));
    }
}

impl Grid {
    /// The grid is well formed, and its sizes can be added without overflow.
    pub open spec fn wf(&self) -> bool {
        &&& self@.wf()
        &&& self.lines + self.max_scroll_limit <= isize::MAX
    }

    /// A grid of blank rows without history.
    pub fn new(lines: Line, cols: Column, scrollback: usize, template: Cell) -> (grid: Grid)
        requires
            lines + scrollback <= isize::MAX,
        ensures
            grid.wf(),
            grid@ == (GridView {
                rows: Seq::new(lines as nat, |i: int| blank_row(cols as int, template)),
                lines: lines as int,
                cols: cols as int,
                display_offset: 0,
                max_scroll_limit: scrollback as int,
                selection: None,
            }),
    {
        let mut raw: Vec<Vec<Cell>> = Vec::new();
        let mut i: usize = 0;
        while i < lines
            invariant
                i <= lines,
                raw@.len() == i,
                forall|k: int| 0 <= k < i ==> (#[trigger] raw@[k])@ == blank_row(cols as int, template),
            decreases lines - i,
        {
            raw.push(new_row(cols, &template));
            i += 1;
        }
        let grid = Grid {
            raw,
            cols,
            lines,
            display_offset: 0,
            max_scroll_limit: scrollback,
            selection: None,
        };
        proof {
            assert(grid@.rows =~= Seq::new(lines as nat, |i: int| blank_row(cols as int, template)));
        }
        grid
    }

    pub fn num_lines(&self) -> (n: Line)
        ensures
            n == self.lines,
    {
        self.lines
    }

    pub fn num_cols(&self) -> (n: Column)
        ensures
            n == self.cols,
    {
        self.cols
    }

    /// The number of rows, history included.
    pub fn len(&self) -> (n: usize)
        ensures
            n == self@.rows.len(),
    {
        self.raw.len()
    }

    /// The number of rows of history.
    pub fn scroll_limit(&self) -> (n: usize)
        requires
            self.wf(),
        ensures
            n == self@.history(),
    {
        self.raw.len() - self.lines
    }

    /// Whether a screen point lies on the grid.
    pub fn contains(&self, point: &Point) -> (r: bool)
        ensures
            r == (point.line < self.lines && point.col < self.cols),
    {
        point.line < self.lines && point.col < self.cols
    }

    /// A row of the screen.
    pub fn line(&self, line: Line) -> (row: &Vec<Cell>)
        requires
            self.wf(),
            line < self.lines,
        ensures
            row@ == self@.row(line as int),
    {
        &self.raw[self.raw.len() - self.lines + line]
    }

    /// A cell of the screen.
    pub fn cell(&self, line: Line, col: Column) -> (cell: &Cell)
        requires
            self.wf(),
            line < self.lines,
            col < self.cols,
        ensures
            *cell == self@.cell(line as int, col as int),
    {
        &self.raw[self.raw.len() - self.lines + line][col]
    }

    /// Puts a cell on the screen.
    pub fn set_cell(&mut self, line: Line, col: Column, cell: Cell)
        requires
            old(self).wf(),
            line < old(self).lines,
            col < old(self).cols,
        ensures
            final(self)@ == old(self)@.with_cell(line as int, col as int, cell),
            final(self).wf(),
    {
        let at = self.raw.len() - self.lines + line;
        self.raw[at][col] = cell;
        proof {
            assert(self@.rows =~= old(self)@.with_cell(line as int, col as int, cell).rows);
        }
    }

    /// A row of the buffer, counted from the bottom line of the screen upwards.
    pub fn buffer_line(&self, line: usize) -> (row: &Vec<Cell>)
        requires
            line < self@.rows.len(),
        ensures
            row@ == self@.buffer_row(line as int),
    {
        &self.raw[self.raw.len() - 1 - line]
    }

    /// A cell of the buffer.
    pub fn buffer_cell(&self, point: &Point) -> (cell: &Cell)
        requires
            self.wf(),
            point.line < self@.rows.len(),
            point.col < self.cols,
        ensures
            *cell == self@.buffer_row(point.line as int)[point.col as int],
    {
        &self.raw[self.raw.len() - 1 - point.line][point.col]
    }

    /// The buffer line of a screen line.
    pub fn line_to_offset(&self, line: Line) -> (offset: usize)
        requires
            line < self.lines,
        ensures
            offset == self.lines - line - 1,
    {
        self.lines - line - 1
    }

    /// Where a buffer line lies in the view.
    pub fn buffer_line_to_visible(&self, line: usize) -> (position: ViewportPosition)
        ensures
            position == self@.viewport_position(line as int),
    {
        if line < self.display_offset {
            ViewportPosition::Below
        } else if line - self.display_offset >= self.lines {
            ViewportPosition::Above
        } else {
            ViewportPosition::Visible(self.lines - (line - self.display_offset) - 1)
        }
    }

    /// Replaces the cells in `[from, to)` of a screen row by the template.
    pub fn reset_cells(&mut self, line: Line, from: Column, to: Column, template: &Cell)
        requires
            old(self).wf(),
            line < old(self).lines,
            from <= to <= old(self).cols,
        ensures
            final(self)@ == old(self)@.with_cells_reset(
                line as int,
                from as int,
                to as int,
                *template,
            ),
            final(self).wf(),
    {
        let at = self.raw.len() - self.lines + line;
        reset_range(&mut self.raw[at], from, to, template);
        proof {
            assert(self@.rows =~= old(self)@.with_cells_reset(
                line as int,
                from as int,
                to as int,
                *template,
            ).rows);
        }
    }

    /// Moves the cells of a screen row from `col` on right by `width`.
    pub fn shift_cells_right(&mut self, line: Line, col: Column, width: usize)
        requires
            old(self).wf(),
            line < old(self).lines,
            col + width <= old(self).cols,
        ensures
            final(self)@ == old(self)@.with_row(
                line as int,
                shifted_right(old(self)@.row(line as int), col as int, width as int),
            ),
            final(self).wf(),
    {
        let at = self.raw.len() - self.lines + line;
        proof {
            assert(self@.rows[at as int].len() == self.cols);
        }
        shift_right(&mut self.raw[at], col, width);
        proof {
            assert(self@.rows =~= old(self)@.with_row(
                line as int,
                shifted_right(old(self)@.row(line as int), col as int, width as int),
            ).rows);
        }
    }

    /// Copies the cells of a screen row from `end` on to `start` and the columns after
    /// it.
    pub fn move_cells_left(&mut self, line: Line, start: Column, end: Column)
        requires
            old(self).wf(),
            line < old(self).lines,
            start <= end <= old(self).cols,
        ensures
            final(self)@ == old(self)@.with_row(
                line as int,
                moved_left(old(self)@.row(line as int), start as int, end as int),
            ),
            final(self).wf(),
    {
        let at = self.raw.len() - self.lines + line;
        proof {
            assert(self@.rows[at as int].len() == self.cols);
        }
        move_left(&mut self.raw[at], start, end);
        proof {
            assert(self@.rows =~= old(self)@.with_row(
                line as int,
                moved_left(old(self)@.row(line as int), start as int, end as int),
            ).rows);
        }
    }

    /// Replaces the screen rows in `[start, end)` by rows of the template.
    pub fn reset_lines(&mut self, start: Line, end: Line, template: &Cell)
        requires
            old(self).wf(),
            start <= end <= old(self).lines,
        ensures
            final(self)@ == old(self)@.with_lines_reset(start as int, end as int, *template),
            final(self).wf(),
    {
        let base = self.raw.len() - self.lines;
        let cols = self.cols;
        let mut i: usize = start;
        proof {
            assert(old(self)@.rows =~= old(self)@.with_lines_reset(
                start as int,
                start as int,
                *template,
            ).rows);
        }
        while i < end
            invariant
                start <= i <= end <= self.lines,
                base == old(self)@.history(),
                cols == self.cols,
                old(self).wf(),
                self.wf(),
                self@ == old(self)@.with_lines_reset(start as int, i as int, *template),
            decreases end - i,
        {
            let ghost before = self@.rows;
            let ghost raw_before = self.raw@;
            proof {
                assert(before[base + i].len() == cols);
            }
            reset_range(&mut self.raw[base + i], 0, cols, template);
            proof {
                assert(filled(before[base + i], 0, cols as int, *template) =~= blank_row(
                    cols as int,
                    *template,
                ));
                let expected = old(self)@.with_lines_reset(start as int, i + 1, *template).rows;
                assert forall|k: int| 0 <= k < expected.len() implies self@.rows[k]
                    == expected[k] by {
                    if k != base + i {
                        assert(self.raw@[k] == raw_before[k]);
                        assert(before[k] == raw_before[k]@);
                    }
                }
                assert(self@.rows =~= expected);
            }
            i += 1;
        }
    }

    /// Moves the screen rows in `[start, end)` up by `positions`.
    pub fn scroll_up(&mut self, start: Line, end: Line, positions: usize, template: &Cell)
        requires
            old(self).wf(),
            start <= end <= old(self).lines,
            positions <= end - start,
        ensures
            final(self)@ == old(self)@.scrolled_up(
                start as int,
                end as int,
                positions as int,
                *template,
            ),
            final(self).wf(),
            final(self).lines == old(self).lines,
            final(self).cols == old(self).cols,
            final(self).max_scroll_limit == old(self).max_scroll_limit,
    {
        let h = self.raw.len() - self.lines;
        let cols = self.cols;
        let ghost rows = self@.rows;
        let ghost blank = blank_row(cols as int, *template);
        let ghost len = rows.len() as int;
        if start == 0 {
            insert_blank_rows(&mut self.raw, h + end, positions, cols, template);
            let history = h + positions;
            let mut kept = history;
            if history > self.max_scroll_limit {
                proof {
                    assert(self.raw@.len() == views(self.raw@).len());
                }
                drop_oldest(&mut self.raw, history - self.max_scroll_limit);
                kept = self.max_scroll_limit;
            } else {
                proof {
                    assert(views(self.raw@).subrange(0, self.raw@.len() as int) =~= views(
                        self.raw@,
                    ));
                }
            }
            if self.display_offset != 0 {
                self.display_offset = min_of(self.display_offset + positions, kept);
            }
            match self.selection {
                Some(mut selection) => {
                    selection.rotate(positions as isize);
                    self.selection = Some(selection);
                },
                None => {},
            }
            proof {
                lemma_scroll_from_top(
                    rows,
                    h as int,
                    end as int,
                    positions as int,
                    self.max_scroll_limit as int,
                    blank,
                );
            }
        } else {
            shift_rows_up(&mut self.raw, h + start, h + end, positions, cols, template);
        }
    }

    /// Moves the screen rows in `[start, end)` down by `positions`.
    pub fn scroll_down(&mut self, start: Line, end: Line, positions: usize, template: &Cell)
        requires
            old(self).wf(),
            start <= end <= old(self).lines,
            positions <= end - start,
        ensures
            final(self)@ == old(self)@.scrolled_down(
                start as int,
                end as int,
                positions as int,
                *template,
            ),
            final(self).wf(),
            final(self).lines == old(self).lines,
            final(self).cols == old(self).cols,
            final(self).max_scroll_limit == old(self).max_scroll_limit,
    {
        let h = self.raw.len() - self.lines;
        let cols = self.cols;
        shift_rows_down(&mut self.raw, h + start, h + end, positions, cols, template);
        if start == 0 {
            match self.selection {
                Some(mut selection) => {
                    selection.rotate(-(positions as isize));
                    self.selection = Some(selection);
                },
                None => {},
            }
        }
    }

    /// Drops the history.
    pub fn clear_history(&mut self)
        requires
            old(self).wf(),
        ensures
            final(self)@ == old(self)@.without_history(),
            final(self).wf(),
    {
        let h = self.raw.len() - self.lines;
        drop_oldest(&mut self.raw, h);
        self.display_offset = 0;
    }

    /// Moves the view over the scrollback.
    pub fn scroll_display(&mut self, scroll: Scroll)
        requires
            old(self).wf(),
        ensures
            final(self)@ == old(self)@.display_scrolled(scroll),
            final(self).wf(),
    {
        let history = self.raw.len() - self.lines;
        match scroll {
            Scroll::Lines(count) => {
                if count >= 0 {
                    let up = count as usize;
                    if up > history - self.display_offset {
                        self.display_offset = history;
                    } else {
                        self.display_offset = self.display_offset + up;
                    }
                } else if count == isize::MIN {
                    self.display_offset = 0;
                } else {
                    let down = (-count) as usize;
                    if down > self.display_offset {
                        self.display_offset = 0;
                    } else {
                        self.display_offset = self.display_offset - down;
                    }
                }
            },
            Scroll::PageUp => {
                self.display_offset = min_of(self.display_offset + self.lines, history);
            },
            Scroll::PageDown => {
                if self.lines > self.display_offset {
                    self.display_offset = 0;
                } else {
                    self.display_offset = self.display_offset - self.lines;
                }
            },
            Scroll::Top => {
                self.display_offset = history;
            },
            Scroll::Bottom => {
                self.display_offset = 0;
            },
        }
    }
    /// Gives the grid a new size. A higher screen takes rows back from the history, then
    /// blank rows at the bottom; a lower one loses its bottom rows and the selection.
    /// Rows are cut at the right or filled up with the template.
    pub fn resize(&mut self, lines: Line, cols: Column, template: &Cell)
        requires
            old(self).wf(),
            lines + old(self).max_scroll_limit <= isize::MAX,
        ensures
            final(self)@ == old(self)@.resized(lines as int, cols as int, *template),
            final(self).wf(),
            final(self).lines == lines,
            final(self).cols == cols,
            final(self).max_scroll_limit == old(self).max_scroll_limit,
    {
        let history = self.raw.len() - self.lines;
        if lines > self.lines {
            let added = lines - self.lines;
            let pulled = min_of(added, history);
            let ghost rows = views(self.raw@);
            let at = self.raw.len();
            insert_blank_rows(&mut self.raw, at, added - pulled, self.cols, template);
            self.lines = lines;
            self.display_offset = if added > self.display_offset {
                0
            } else {
                self.display_offset - added
            };
            proof {
                assert(views(self.raw@) =~= old(self)@.grown_lines(lines as int, *template).rows);
            }
        } else if lines < self.lines {
            let kept = self.raw.len() - (self.lines - lines);
            self.raw.truncate(kept);
            self.lines = lines;
            self.selection = None;
            proof {
                assert(views(self.raw@) =~= old(self)@.shrunk_lines(lines as int).rows);
            }
        }
        if cols != self.cols {
            resize_rows(&mut self.raw, cols, template);
            self.cols = cols;
        }
    }

    /// An iterator over the cells of the buffer that starts at `point`.
    pub fn iter_from(&self, point: Point) -> (iter: GridIterator<'_>)
        ensures
            iter.grid == self,
            iter.cur == point,
    {
        GridIterator { grid: self, cur: point }
    }

    /// An iterator over the cells of the view, from its top left to its bottom right.
    pub fn display_iter(&self) -> (iter: DisplayIter<'_>)
        requires
            self.wf(),
            self.lines >= 1,
            self.cols >= 1,
        ensures
            iter.grid == self,
            iter.offset == self.display_offset + self.lines - 1,
            iter.limit == self.display_offset,
            iter.col == 0,
            iter.line == 0,
            iter.wf(),
    {
        DisplayIter {
            grid: self,
            offset: self.display_offset + self.lines - 1,
            limit: self.display_offset,
            col: 0,
            line: 0,
        }
    }
}

/// The point after `cur` in reading order, if there is one: buffer lines count from
/// the bottom, so the next line has the lower number.
pub open spec fn next_point(cols: int, cur: Point) -> Option<Point> {
    if cur.col == cols - 1 {
        if cur.line == 0 {
            None
        } else {
            Some(Point { line: (cur.line - 1) as usize, col: 0 })
        }
    } else {
        Some(Point { line: cur.line, col: (cur.col + 1) as usize })
    }
}

/// The point before `cur` in reading order, if there is one.
pub open spec fn prev_point(cols: int, len: int, cur: Point) -> Option<Point> {
    if cur.col == 0 {
        if cur.line == len - 1 {
            None
        } else {
            Some(Point { line: (cur.line + 1) as usize, col: (cols - 1) as usize })
        }
    } else {
        Some(Point { line: cur.line, col: (cur.col - 1) as usize })
    }
}

/// Walks the cells of the buffer in reading order, in both directions.
pub struct GridIterator<'a> {
    pub grid: &'a Grid,
    pub cur: Point,
}

impl<'a> GridIterator<'a> {
    /// The current point lies in the buffer.
    pub open spec fn wf(&self) -> bool {
        &&& self.grid.wf()
        &&& self.cur.line < self.grid@.rows.len()
        &&& self.cur.col < self.grid.cols
    }

    /// Steps to the next cell and returns it; stays where it is at the last cell.
    pub fn next(&mut self) -> (cell: Option<Cell>)
        requires
            old(self).wf(),
        ensures
            final(self).grid == old(self).grid,
            final(self).wf(),
            match next_point(old(self).grid.cols as int, old(self).cur) {
                Some(p) => final(self).cur == p && cell == Some(
                    old(self).grid@.buffer_row(p.line as int)[p.col as int],
                ),
                None => final(self).cur == old(self).cur && cell is None,
            },
    {
        let last_col = self.grid.num_cols() - 1;
        if self.cur.col == last_col {
            if self.cur.line == 0 {
                return None;
            }
            self.cur.line -= 1;
            self.cur.col = 0;
        } else {
            self.cur.col += 1;
        }
        Some(*self.grid.buffer_cell(&self.cur))
    }

    /// Steps to the previous cell and returns it; stays where it is at the first cell.
    pub fn prev(&mut self) -> (cell: Option<Cell>)
        requires
            old(self).wf(),
        ensures
            final(self).grid == old(self).grid,
            final(self).wf(),
            match prev_point(
                old(self).grid.cols as int,
                old(self).grid@.rows.len() as int,
                old(self).cur,
            ) {
                Some(p) => final(self).cur == p && cell == Some(
                    old(self).grid@.buffer_row(p.line as int)[p.col as int],
                ),
                None => final(self).cur == old(self).cur && cell is None,
            },
    {
        if self.cur.col == 0 {
            if self.cur.line == self.grid.len() - 1 {
                return None;
            }
            self.cur.line += 1;
            self.cur.col = self.grid.num_cols() - 1;
        } else {
            self.cur.col -= 1;
        }
        Some(*self.grid.buffer_cell(&self.cur))
    }
}

/// Walks the cells of the view, line by line from the top, each line from the left.
pub struct DisplayIter<'a> {
    pub grid: &'a Grid,
    /// The buffer line of the cell to come.
    pub offset: usize,
    /// The buffer line of the view's bottom line.
    pub limit: usize,
    pub col: Column,
    pub line: Line,
}

impl<'a> DisplayIter<'a> {
    /// The iterator is within the view, or just past its last cell.
    pub open spec fn wf(&self) -> bool {
        &&& self.grid.wf()
        &&& self.grid.cols >= 1
        &&& self.limit == self.grid.display_offset
        &&& self.limit <= self.offset < self.limit + self.grid.lines
        &&& self.line == self.grid.lines - 1 - (self.offset - self.limit)
        &&& self.col <= self.grid.cols
        &&& self.col == self.grid.cols ==> self.offset == self.limit
    }

    /// Whether every cell of the view has been passed.
    pub open spec fn done(&self) -> bool {
        self.offset == self.limit && self.col == self.grid.cols
    }

    /// How many cells of the view are still to come.
    pub open spec fn remaining(&self) -> int {
        (self.offset - self.limit) * self.grid.cols + (self.grid.cols - self.col)
    }

    /// The iterator one cell on.
    pub open spec fn advanced(&self) -> DisplayIter<'a> {
        if self.col + 1 == self.grid.cols && self.offset != self.limit {
            DisplayIter {
                offset: (self.offset - 1) as usize,
                col: 0,
                line: (self.line + 1) as usize,
                ..*self
            }
        } else {
            DisplayIter { col: (self.col + 1) as usize, ..*self }
        }
    }

    /// The cell to come, with its place on the display.
    pub open spec fn current(&self) -> Indexed {
        Indexed {
            inner: self.grid@.buffer_row(self.offset as int)[self.col as int],
            line: self.line,
            column: self.col,
        }
    }

    pub fn offset(&self) -> (offset: usize)
        ensures
            offset == self.offset,
    {
        self.offset
    }

    pub fn column(&self) -> (col: Column)
        ensures
            col == self.col,
    {
        self.col
    }

    pub fn line(&self) -> (line: Line)
        ensures
            line == self.line,
    {
        self.line
    }

    /// Returns the cell to come and steps past it; returns `None` past the last cell.
    pub fn next(&mut self) -> (item: Option<Indexed>)
        requires
            old(self).wf(),
        ensures
            final(self).wf(),
            old(self).done() ==> item is None && *final(self) == *old(self),
            !old(self).done() ==> item == Some(old(self).current()) && *final(self) == old(
                self,
            ).advanced() && final(self).remaining() == old(self).remaining() - 1,
    {
        if self.offset == self.limit && self.grid.num_cols() == self.col {
            return None;
        }
        let item = Indexed {
            inner: *self.grid.buffer_cell(&Point { line: self.offset, col: self.col }),
            line: self.line,
            column: self.col,
        };
        self.col += 1;
        if self.col == self.grid.num_cols() && self.offset != self.limit {
            proof {
                assert((self.offset - self.limit) * self.grid.cols == (self.offset - 1
                    - self.limit) * self.grid.cols + self.grid.cols) by (nonlinear_arith);
            }
            self.offset -= 1;
            self.col = 0;
            self.line = self.grid.num_lines() - 1 - (self.offset - self.limit);
        }
        Some(item)
    }
}

} // verus!
