//! The cells that have to be drawn.

use crate::terminal_emulator::ansi::Color;
use crate::terminal_emulator::ansi::CursorStyle;
use crate::terminal_emulator::ansi::NamedColor;
use crate::terminal_emulator::grid::DisplayIter;
use crate::terminal_emulator::grid::Grid;
use crate::terminal_emulator::grid::GridView;
use crate::terminal_emulator::grid::Indexed;
use crate::terminal_emulator::grid::ViewportPosition;
use crate::terminal_emulator::index::Column;
use crate::terminal_emulator::index::Line;
use crate::terminal_emulator::index::Point;
use crate::terminal_emulator::index::RangeInclusive;
use crate::terminal_emulator::mode::TermMode;
use crate::terminal_emulator::mode::ALT_SCREEN;
use crate::terminal_emulator::mode::SHOW_CURSOR;
use crate::terminal_emulator::selection::Locations;
use crate::terminal_emulator::term::cell::Cell;
use crate::terminal_emulator::term::cell::Flags;
use crate::terminal_emulator::term::cell::BOLD;
use crate::terminal_emulator::term::cell::DIM;
use crate::terminal_emulator::term::cell::DIM_BOLD;
use crate::terminal_emulator::term::cell::WIDE_CHAR;
use crate::terminal_emulator::term::Term;
use arraydeque::ArrayDeque;
use vstd::prelude::*;

verus! {

/// A queue of at most three cells, held in an `arraydeque::ArrayDeque`.
#[verifier::external_body]
pub struct CursorCells {
    cells: ArrayDeque<[Indexed; 3]>,
}

/// The items of a queue, front first.
pub uninterp spec fn queued(queue: CursorCells) -> Seq<Indexed>;

/// `ArrayDeque::new` makes an empty queue.
#[verifier::external_body]
fn new_queue() -> (queue: CursorCells)
    ensures
        queued(queue) == Seq::<Indexed>::empty(),
{
    CursorCells { cells: ArrayDeque::new() }
}

/// `ArrayDeque::push_back` adds an item at the back, unless the queue is full, and
/// tells whether it did. A queue over an array of three is full with three items.
#[verifier::external_body]
fn push_back(queue: &mut CursorCells, item: Indexed) -> (pushed: bool)
    ensures
        pushed == (queued(*old(queue)).len() < 3),
        queued(*final(queue)) == if pushed {
            queued(*old(queue)).push(item)
        } else {
            queued(*old(queue))
        },
{
    queue.cells.push_back(item).is_ok()
}

/// `ArrayDeque::pop_front` takes the item at the front, if there is one.
#[verifier::external_body]
fn pop_front(queue: &mut CursorCells) -> (item: Option<Indexed>)
    ensures
        queued(*old(queue)).len() == 0 ==> item is None && queued(*final(queue)) == queued(
            *old(queue),
        ),
        queued(*old(queue)).len() > 0 ==> item == Some(queued(*old(queue))[0]) && queued(
            *final(queue),
        ) == queued(*old(queue)).subrange(1, queued(*old(queue)).len() as int),
{
    queue.cells.pop_front()
}

/// `ArrayDeque::is_empty` tells whether the queue holds nothing.
#[verifier::external_body]
fn queue_is_empty(queue: &CursorCells) -> (empty: bool)
    ensures
        empty == (queued(*queue).len() == 0),
{
    queue.cells.is_empty()
}

/// A cell as it is drawn.
#[derive(Clone, Copy, Debug, PartialEq, Eq)]
pub struct RenderableCell {
    /// The line of the display.
    pub line: Line,
    pub column: Column,
    pub chars: [char; 6],
    pub fg: Color,
    pub bg: Color,
    pub flags: Flags,
}

/// The foreground that a cell is drawn with. A dim named colour becomes its dim
/// variant, the default foreground that is dim and bold the dim foreground; a bold
/// indexed colour among the first eight becomes its bright one, a dim one among the
/// second eight its normal one.
pub open spec fn shown_fg(fg: Color, flags: Flags) -> Color {
    let weight = flags.bits & DIM_BOLD;
    match fg {
        Color::Spec(rgb) => fg,
        Color::Named(ansi) => if weight == DIM_BOLD && ansi == NamedColor::Foreground {
            Color::Named(NamedColor::DimForeground)
        } else if weight == DIM || weight == DIM_BOLD {
            Color::Named(ansi.dim())
        } else {
            fg
        },
        Color::Indexed(idx) => if weight == BOLD && idx <= 7 {
            Color::Indexed((idx + 8) as u8)
        } else if weight == DIM && 8 <= idx <= 15 {
            Color::Indexed((idx - 8) as u8)
        } else {
            fg
        },
    }
}

/// A cell of the display as it is drawn.
pub open spec fn rendered(cell: Indexed) -> RenderableCell {
    RenderableCell {
        line: cell.line,
        column: cell.column,
        chars: [
            cell.inner.c,
            cell.inner.extra[0],
            cell.inner.extra[1],
            cell.inner.extra[2],
            cell.inner.extra[3],
            cell.inner.extra[4],
        ],
        fg: shown_fg(cell.inner.fg, cell.inner.flags),
        bg: cell.inner.bg,
        flags: cell.inner.flags,
    }
}

fn compute_fg(fg: Color, flags: Flags) -> (shown: Color)
    ensures
        shown == shown_fg(fg, flags),
{
    let weight = flags.bits & DIM_BOLD;
    match fg {
        Color::Spec(rgb) => fg,
        Color::Named(ansi) => if weight == DIM_BOLD && ansi == NamedColor::Foreground {
            Color::Named(NamedColor::DimForeground)
        } else if weight == DIM || weight == DIM_BOLD {
            Color::Named(ansi.to_dim())
        } else {
            fg
        },
        Color::Indexed(idx) => if weight == BOLD && idx <= 7 {
            Color::Indexed(idx + 8)
        } else if weight == DIM && 8 <= idx && idx <= 15 {
            Color::Indexed(idx - 8)
        } else {
            fg
        },
    }
}

fn render(cell: &Indexed) -> (r: RenderableCell)
    ensures
        r == rendered(*cell),
{
    RenderableCell {
        line: cell.line,
        column: cell.column,
        chars: [
            cell.inner.c,
            cell.inner.extra[0],
            cell.inner.extra[1],
            cell.inner.extra[2],
            cell.inner.extra[3],
            cell.inner.extra[4],
        ],
        fg: compute_fg(cell.inner.fg, cell.inner.flags),
        bg: cell.inner.bg,
        flags: cell.inner.flags,
    }
}

/// The cells that stand for the cursor: the cell under it as it is, then the cell
/// that shows the cursor, and for a wide character that is not in the last column the
/// cell after it. A hidden cursor is the cell under it alone.
pub open spec fn cursor_cells(
    grid: &Grid,
    cursor: Point,
    mode: TermMode,
    style: CursorStyle,
) -> Seq<Indexed> {
    let under = grid@.cell(cursor.line as int, cursor.col as int);
    let at = |cell: Cell, col: Column| Indexed { line: cursor.line, column: col, inner: cell };
    if !mode.spec_contains(SHOW_CURSOR) {
        seq![at(under, cursor.col)]
    } else {
        let shown = match style {
            CursorStyle::Block => Cell {
                fg: Color::Named(NamedColor::CursorText),
                bg: Color::Named(NamedColor::Cursor),
                ..under
            },
            CursorStyle::HollowBlock => Cell {
                c: '█',
                fg: Color::Named(NamedColor::Cursor),
                ..under
            },
            CursorStyle::Beam => Cell { c: '|', fg: Color::Named(NamedColor::Cursor), ..under },
            CursorStyle::Underline => Cell {
                c: '_',
                fg: Color::Named(NamedColor::Cursor),
                ..under
            },
        };
        let wide = Cell {
            c: if style == CursorStyle::Underline {
                '_'
            } else {
                ' '
            },
            ..shown
        };
        if shown.flags.spec_contains(WIDE_CHAR) && cursor.col + 1 < grid.cols {
            seq![at(under, cursor.col), at(shown, cursor.col), at(wide, (cursor.col + 1) as usize)]
        } else {
            seq![at(under, cursor.col), at(shown, cursor.col)]
        }
    }
}

/// Walks the cells of the view that have to be drawn: those that show something,
/// those that are selected, and the cells of the cursor.
pub struct RenderableCellsIter<'a> {
    pub inner: DisplayIter<'a>,
    pub grid: &'a Grid,
    pub cursor: &'a Point,
    /// The buffer line of the cursor.
    pub cursor_offset: usize,
    pub mode: TermMode,
    /// The selected part of the view, in flattened positions.
    pub selection: Option<RangeInclusive>,
    /// The cells of the cursor that are still to come.
    pub cursor_cells: CursorCells,
}

/// Whether a cell of the display is selected.
pub open spec fn is_selected(selection: Option<RangeInclusive>, cell: Indexed, cols: int) -> bool {
    match selection {
        Some(range) => range.start <= cell.line * cols + cell.column <= range.end,
        None => false,
    }
}

/// The flattened position of a point of the view, as far as a machine can count.
pub open spec fn linear(line: int, col: int, cols: int) -> usize {
    if line * cols + col > usize::MAX {
        usize::MAX
    } else {
        (line * cols + col) as usize
    }
}

/// The part of a selection that is in the view, if any: a selection that starts
/// below the view is cut at its bottom, one that ends above it at its top.
pub open spec fn visible_selection(grid: GridView, selection: Option<Locations>) -> Option<
    RangeInclusive,
> {
    match selection {
        None => None,
        Some(loc) => {
            let from = match grid.viewport_position(loc.start.line as int) {
                ViewportPosition::Visible(line) => Some(Point { line, col: loc.start.col }),
                ViewportPosition::Below => Some(Point { line: grid.lines as usize, col: 0 }),
                ViewportPosition::Above => None,
            };
            let to = match grid.viewport_position(loc.end.line as int) {
                ViewportPosition::Visible(line) => Some(Point { line, col: loc.end.col }),
                ViewportPosition::Above => Some(Point { line: 0, col: 0 }),
                ViewportPosition::Below => None,
            };
            if from is Some && to is Some {
                let a = from.unwrap();
                let b = to.unwrap();
                let first = if a.lt(b) {
                    a
                } else {
                    b
                };
                let last = if a.lt(b) {
                    b
                } else {
                    a
                };
                Some(
                    RangeInclusive {
                        start: linear(first.line as int, first.col as int, grid.cols),
                        end: linear(last.line as int, last.col as int, grid.cols),
                    },
                )
            } else {
                None
            }
        },
    }
}

fn to_linear(line: Line, col: Column, grid: &Grid) -> (index: usize)
    requires
        line <= grid.lines,
        grid.lines * grid.cols <= usize::MAX,
    ensures
        index == linear(line as int, col as int, grid.cols as int),
{
    proof {
        let lines = grid.lines as int;
        let cols = grid.cols as int;
        let l = line as int;
        assert(0 <= l * cols <= lines * cols) by (nonlinear_arith)
            requires
                0 <= l <= lines,
                0 <= cols,
        ;
    }
    (line * grid.num_cols()).saturating_add(col)
}

/// What the iterator yields next from a state: the display iterator, and the cells of
/// the cursor that are still to come. At the cursor the cells of the cursor come
/// first, each on the line of the display that the cursor is shown on; elsewhere
/// cells that show nothing and are not selected are passed over.
pub open spec fn next_cell(
    inner: DisplayIter<'_>,
    pending: Seq<Indexed>,
    cursor: Point,
    cursor_offset: usize,
    selection: Option<RangeInclusive>,
) -> Option<RenderableCell>
    decreases inner.offset - inner.limit, inner.grid.cols - inner.col,
{
    if !inner.wf() {
        None
    } else if cursor_offset == inner.offset && inner.col == cursor.col && pending.len() > 0 {
        Some(rendered(Indexed { line: inner.line, ..pending[0] }))
    } else if inner.done() {
        None
    } else if inner.current().inner.spec_is_empty() && !is_selected(
        selection,
        inner.current(),
        inner.grid.cols as int,
    ) {
        next_cell(inner.advanced(), pending, cursor, cursor_offset, selection)
    } else {
        Some(rendered(inner.current()))
    }
}

/// Where the iterator stands after yielding its next cell: the display iterator, and
/// the cells of the cursor that are still to come. The display iterator stays at the
/// cursor until the last cell of the cursor has been yielded.
pub open spec fn state_after_next<'a>(
    inner: DisplayIter<'a>,
    pending: Seq<Indexed>,
    cursor: Point,
    cursor_offset: usize,
    selection: Option<RangeInclusive>,
) -> (DisplayIter<'a>, Seq<Indexed>)
    decreases inner.offset - inner.limit, inner.grid.cols - inner.col,
{
    if !inner.wf() {
        (inner, pending)
    } else if cursor_offset == inner.offset && inner.col == cursor.col && pending.len() > 0 {
        let rest = pending.subrange(1, pending.len() as int);
        if rest.len() == 0 && !inner.done() {
            (inner.advanced(), rest)
        } else {
            (inner, rest)
        }
    } else if inner.done() {
        (inner, pending)
    } else if inner.current().inner.spec_is_empty() && !is_selected(
        selection,
        inner.current(),
        inner.grid.cols as int,
    ) {
        state_after_next(inner.advanced(), pending, cursor, cursor_offset, selection)
    } else {
        (inner.advanced(), pending)
    }
}

impl<'a> RenderableCellsIter<'a> {
    /// Whether the display iterator has passed the cursor.
    pub open spec fn past_cursor(&self) -> bool {
        self.inner.offset < self.cursor_offset || (self.inner.offset == self.cursor_offset
            && self.inner.col > self.cursor.col)
    }

    /// The display iterator is within the view of the grid, the cursor is in one of
    /// its columns, the positions of the view can be counted, and cells of the cursor
    /// are still to come unless the cursor has been passed.
    pub open spec fn wf(&self) -> bool {
        &&& self.inner.wf()
        &&& self.inner.grid == self.grid
        &&& self.cursor.col < self.grid.cols
        &&& self.grid.lines * self.grid.cols <= usize::MAX
        &&& queued(self.cursor_cells).len() == 0 ==> self.past_cursor()
    }

    /// Where the iterator stands after `next`.
    pub open spec fn after_next(&self) -> (DisplayIter<'a>, Seq<Indexed>) {
        state_after_next(
            self.inner,
            queued(self.cursor_cells),
            *self.cursor,
            self.cursor_offset,
            self.selection,
        )
    }

    /// What `next` is going to yield.
    pub open spec fn upcoming(&self) -> Option<RenderableCell> {
        next_cell(
            self.inner,
            queued(self.cursor_cells),
            *self.cursor,
            self.cursor_offset,
            self.selection,
        )
    }

    fn is_wide_cursor(&self, cell: &Cell) -> (wide: bool)
        requires
            self.cursor.col < self.grid.cols,
        ensures
            wide == (cell.flags.spec_contains(WIDE_CHAR) && self.cursor.col + 1 < self.grid.cols),
    {
        cell.flags.contains(WIDE_CHAR) && self.cursor.col + 1 < self.grid.num_cols()
    }

    fn push_cursor_cells(&mut self, under: Cell, cursor: Cell, wide: Cell)
        requires
            old(self).cursor.col < old(self).grid.cols,
            queued(old(self).cursor_cells).len() == 0,
        ensures
            final(self).inner == old(self).inner,
            final(self).grid == old(self).grid,
            final(self).cursor == old(self).cursor,
            final(self).cursor_offset == old(self).cursor_offset,
            final(self).mode == old(self).mode,
            final(self).selection == old(self).selection,
            queued(final(self).cursor_cells) == if cursor.flags.spec_contains(WIDE_CHAR)
                && old(self).cursor.col + 1 < old(self).grid.cols {
                seq![
                    Indexed { line: old(self).cursor.line, column: old(self).cursor.col, inner: under },
                    Indexed { line: old(self).cursor.line, column: old(self).cursor.col, inner: cursor },
                    Indexed {
                        line: old(self).cursor.line,
                        column: (old(self).cursor.col + 1) as usize,
                        inner: wide,
                    },
                ]
            } else {
                seq![
                    Indexed { line: old(self).cursor.line, column: old(self).cursor.col, inner: under },
                    Indexed { line: old(self).cursor.line, column: old(self).cursor.col, inner: cursor },
                ]
            },
    {
        let line = self.cursor.line;
        let col = self.cursor.col;
        let is_wide = self.is_wide_cursor(&cursor);
        push_back(&mut self.cursor_cells, Indexed { line, column: col, inner: under });
        push_back(&mut self.cursor_cells, Indexed { line, column: col, inner: cursor });
        if is_wide {
            push_back(&mut self.cursor_cells, Indexed { line, column: col + 1, inner: wide });
        }
    }

    /// The cell that shows a cursor of the given style over the cell under it.
    fn cursor_cell(under: Cell, style: CursorStyle) -> (shown: Cell)
        ensures
            shown == match style {
                CursorStyle::Block => Cell {
                    fg: Color::Named(NamedColor::CursorText),
                    bg: Color::Named(NamedColor::Cursor),
                    ..under
                },
                CursorStyle::HollowBlock => Cell {
                    c: '█',
                    fg: Color::Named(NamedColor::Cursor),
                    ..under
                },
                CursorStyle::Beam => Cell { c: '|', fg: Color::Named(NamedColor::Cursor), ..under },
                CursorStyle::Underline => Cell {
                    c: '_',
                    fg: Color::Named(NamedColor::Cursor),
                    ..under
                },
            },
    {
        let mut shown = under;
        match style {
            CursorStyle::Block => {
                shown.fg = Color::Named(NamedColor::CursorText);
                shown.bg = Color::Named(NamedColor::Cursor);
            },
            CursorStyle::HollowBlock => {
                shown.c = '█';
                shown.fg = Color::Named(NamedColor::Cursor);
            },
            CursorStyle::Beam => {
                shown.c = '|';
                shown.fg = Color::Named(NamedColor::Cursor);
            },
            CursorStyle::Underline => {
                shown.c = '_';
                shown.fg = Color::Named(NamedColor::Cursor);
            },
        }
        shown
    }

    /// Whether the cursor is drawn.
    fn cursor_is_visible(&self) -> (visible: bool)
        ensures
            visible == (self.mode.spec_contains(SHOW_CURSOR) && self.cursor.line < self.grid.lines
                && self.cursor.col < self.grid.cols),
    {
        self.mode.contains(SHOW_CURSOR) && self.grid.contains(self.cursor)
    }

    fn initialize(&mut self, cursor_style: CursorStyle)
        requires
            old(self).grid.wf(),
            old(self).cursor.line < old(self).grid.lines,
            old(self).cursor.col < old(self).grid.cols,
            queued(old(self).cursor_cells).len() == 0,
        ensures
            final(self).inner == old(self).inner,
            final(self).grid == old(self).grid,
            final(self).cursor == old(self).cursor,
            final(self).cursor_offset == old(self).cursor_offset,
            final(self).mode == old(self).mode,
            final(self).selection == old(self).selection,
            queued(final(self).cursor_cells) == cursor_cells(
                old(self).grid,
                *old(self).cursor,
                old(self).mode,
                cursor_style,
            ),
    {
        let under = *self.grid.cell(self.cursor.line, self.cursor.col);
        if self.cursor_is_visible() {
            let shown = Self::cursor_cell(under, cursor_style);
            let mut wide = shown;
            wide.c = match cursor_style {
                CursorStyle::Underline => '_',
                _ => ' ',
            };
            self.push_cursor_cells(under, shown, wide);
        } else {
            push_back(
                &mut self.cursor_cells,
                Indexed { line: self.cursor.line, column: self.cursor.col, inner: under },
            );
        }
    }

    /// Makes the iterator over the cells to draw for a grid, a cursor on it, the
    /// modes, the selection and the style of the cursor.
    pub fn new(
        grid: &'a Grid,
        cursor: &'a Point,
        mode: TermMode,
        selection: Option<Locations>,
        cursor_style: CursorStyle,
    ) -> (iter: RenderableCellsIter<'a>)
        requires
            grid.wf(),
            cursor.line < grid.lines,
            cursor.col < grid.cols,
            grid.lines * grid.cols <= usize::MAX,
        ensures
            iter.wf(),
            iter.grid == grid,
            iter.cursor == cursor,
            iter.mode == mode,
            iter.cursor_offset == grid.lines - cursor.line - 1,
            iter.inner.offset == grid.display_offset + grid.lines - 1,
            iter.inner.col == 0,
            iter.inner.line == 0,
            iter.selection == visible_selection(grid@, selection),
            queued(iter.cursor_cells) == cursor_cells(grid, *cursor, mode, cursor_style),
    {
        let cursor_offset = grid.line_to_offset(cursor.line);
        let inner = grid.display_iter();
        let mut selection_range: Option<RangeInclusive> = None;
        if let Some(loc) = selection {
            let from = match grid.buffer_line_to_visible(loc.start.line) {
                ViewportPosition::Visible(line) => Some(Point { line, col: loc.start.col }),
                ViewportPosition::Below => Some(Point { line: grid.num_lines(), col: 0 }),
                ViewportPosition::Above => None,
            };
            let to = match grid.buffer_line_to_visible(loc.end.line) {
                ViewportPosition::Visible(line) => Some(Point { line, col: loc.end.col }),
                ViewportPosition::Above => Some(Point { line: 0, col: 0 }),
                ViewportPosition::Below => None,
            };
            if let Some(a) = from {
                if let Some(b) = to {
                    let forward = a.is_before(&b);
                    let first = if forward {
                        a
                    } else {
                        b
                    };
                    let last = if forward {
                        b
                    } else {
                        a
                    };
                    selection_range = Some(
                        RangeInclusive::new(
                            to_linear(first.line, first.col, grid),
                            to_linear(last.line, last.col, grid),
                        ),
                    );
                }
            }
        }
        let mut iter = RenderableCellsIter {
            cursor,
            cursor_offset,
            grid,
            inner,
            mode,
            selection: selection_range,
            cursor_cells: new_queue(),
        };
        iter.initialize(cursor_style);
        iter
    }

    /// Yields the next cell to draw, or `None` when the view has been walked.
    pub fn next(&mut self) -> (item: Option<RenderableCell>)
        requires
            old(self).wf(),
        ensures
            item == old(self).upcoming(),
            (final(self).inner, queued(final(self).cursor_cells)) == old(self).after_next(),
            final(self).wf(),
            final(self).grid == old(self).grid,
            final(self).cursor == old(self).cursor,
            final(self).cursor_offset == old(self).cursor_offset,
            final(self).mode == old(self).mode,
            final(self).selection == old(self).selection,
            item is Some ==> final(self).inner.remaining() + queued(final(self).cursor_cells).len()
                < old(self).inner.remaining() + queued(old(self).cursor_cells).len(),
    {
        loop
            invariant
                self.wf(),
                self.grid == old(self).grid,
                self.cursor == old(self).cursor,
                self.cursor_offset == old(self).cursor_offset,
                self.mode == old(self).mode,
                self.selection == old(self).selection,
                self.upcoming() == old(self).upcoming(),
                self.after_next() == old(self).after_next(),
                queued(self.cursor_cells) == queued(old(self).cursor_cells),
                self.inner.remaining() <= old(self).inner.remaining(),
            decreases self.inner.remaining(),
        {
            if self.cursor_offset == self.inner.offset() && self.inner.column()
                == self.cursor.col {
                let popped = pop_front(&mut self.cursor_cells);
                let mut cell = match popped {
                    Some(cell) => cell,
                    None => {
                        return None;
                    },
                };
                cell.line = self.inner.line();
                if queue_is_empty(&self.cursor_cells) {
                    self.inner.next();
                }
                return Some(render(&cell));
            }
            let cell = match self.inner.next() {
                Some(cell) => cell,
                None => {
                    return None;
                },
            };
            proof {
                let lines = self.grid.lines as int;
                let cols = self.grid.cols as int;
                let line = cell.line as int;
                let column = cell.column as int;
                assert(line * cols + column < lines * cols) by (nonlinear_arith)
                    requires
                        0 <= line < lines,
                        0 <= column < cols,
                ;
                assert(line * cols >= 0) by (nonlinear_arith)
                    requires
                        0 <= line,
                        0 <= cols,
                ;
            }
            let index = cell.line * self.grid.num_cols() + cell.column;
            let selected = match self.selection {
                Some(range) => range.contains(index),
                None => false,
            };
            if !(cell.inner.is_empty() && !selected) {
                return Some(render(&cell));
            }
        }
    }
}

impl Term {
    /// The selection as its first and last buffer point, if it covers something.
    pub open spec fn selected_locations(&self) -> Option<Locations> {
        match self.grid.selection {
            None => None,
            Some(selection) => match selection.span(self, self.mode.spec_contains(ALT_SCREEN)) {
                None => None,
                Some(span) => Some(span.locations()),
            },
        }
    }

    /// The style that the cursor is drawn in.
    pub open spec fn shown_cursor_style(&self) -> CursorStyle {
        match self.cursor_style {
            Some(style) => style,
            None => self.default_cursor_style,
        }
    }

    /// An iterator over the cells of the view that have to be drawn.
    pub fn renderable_cells(&self) -> (iter: RenderableCellsIter<'_>)
        requires
            self.wf(),
            self.can_select(),
            self.grid.lines * self.grid.cols <= usize::MAX,
        ensures
            iter.wf(),
            iter.grid == &self.grid,
            iter.cursor == &self.cursor.point,
            iter.mode == self.mode,
            iter.cursor_offset == self.grid.lines - self.cursor.point.line - 1,
            iter.inner.offset == self.grid.display_offset + self.grid.lines - 1,
            iter.inner.col == 0,
            iter.inner.line == 0,
            iter.selection == visible_selection(self.grid@, self.selected_locations()),
            queued(iter.cursor_cells) == cursor_cells(
                &self.grid,
                self.cursor.point,
                self.mode,
                self.shown_cursor_style(),
            ),
    {
        let alt_screen = self.mode.contains(ALT_SCREEN);
        let selection = match self.grid.selection {
            Some(s) => match s.to_span(self, alt_screen) {
                Some(span) => Some(span.to_locations()),
                None => None,
            },
            None => None,
        };
        let style = match self.cursor_style {
            Some(style) => style,
            None => self.default_cursor_style,
        };
        RenderableCellsIter::new(&self.grid, &self.cursor.point, self.mode, selection, style)
    }
}

} // verus!
