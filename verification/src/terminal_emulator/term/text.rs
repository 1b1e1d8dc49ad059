//! The text of the selection.

use crate::terminal_emulator::grid::Grid;
use crate::terminal_emulator::grid::GridView;
use crate::terminal_emulator::index::min;
use crate::terminal_emulator::index::min_of;
use crate::terminal_emulator::index::Column;
use crate::terminal_emulator::mode::ALT_SCREEN;
use crate::terminal_emulator::selection::ordered;
use crate::terminal_emulator::selection::Locations;
use crate::terminal_emulator::term::cell::content_length;
use crate::terminal_emulator::term::cell::line_length;
use crate::terminal_emulator::term::cell::Cell;
use crate::terminal_emulator::term::cell::WIDE_CHAR_SPACER;
use crate::terminal_emulator::term::cell::WRAPLINE;
use crate::strings::string_from_chars;
use crate::terminal_emulator::term::title_text;
use crate::terminal_emulator::term::TabStops;
use crate::terminal_emulator::term::Term;
use vstd::prelude::*;

verus! {

/// The column that stands for "to the end of the line".
pub open spec fn to_line_end() -> int {
    usize::MAX - 1
}

/// The zero-width characters of a cell.
pub open spec fn extras(cell: Cell) -> Seq<char> {
    cell.extra@.filter(|c: char| c != ' ')
}

/// What a cell adds to the text: nothing for the spacer of a wide character, else its
/// character and its zero-width characters.
pub open spec fn cell_text(cell: Cell) -> Seq<char> {
    if cell.flags.spec_contains(WIDE_CHAR_SPACER) {
        Seq::empty()
    } else {
        seq![cell.c] + extras(cell)
    }
}

/// Whether there is a tab stop at a column.
pub open spec fn stop_at(tabs: Seq<bool>, col: int) -> bool {
    0 <= col < tabs.len() && tabs[col]
}

/// The text of the cells in `[col, end)`. After a tab character the spaces up to the
/// next tab stop are left out; `skipping` says that a tab character came before.
pub open spec fn cells_text(
    row: Seq<Cell>,
    tabs: Seq<bool>,
    col: int,
    end: int,
    skipping: bool,
) -> Seq<char>
    decreases end - col,
{
    if col >= end {
        Seq::empty()
    } else {
        let cell = row[col];
        let still = skipping && !stop_at(tabs, col);
        if still && cell.c == ' ' {
            cells_text(row, tabs, col + 1, end, still)
        } else {
            cell_text(cell) + cells_text(row, tabs, col + 1, end, still || cell.c == '\t')
        }
    }
}

/// The text of the columns from `start` to `end` of a buffer line, as far as the line
/// has content. A selection that reaches the last column ends the line with a line
/// break, unless the line is wrapped; an empty line gives the line break alone.
pub open spec fn line_text(grid: GridView, tabs: Seq<bool>, line: int, start: int, end: int) -> Seq<
    char,
> {
    let row = grid.buffer_row(min(line, grid.rows.len() - 1));
    let line_end = min(content_length(row), end + 1);
    if line_end == 0 && end >= grid.cols - 1 {
        seq!['\n']
    } else if start < line_end {
        cells_text(row, tabs, start, line_end, false) + if end >= grid.cols - 1 && !row[line_end
            - 1].flags.spec_contains(WRAPLINE) {
            seq!['\n']
        } else {
            Seq::empty()
        }
    } else {
        Seq::empty()
    }
}

/// The text of the whole buffer lines from `line` down to, not including, `below`.
pub open spec fn lines_text(grid: GridView, tabs: Seq<bool>, below: int, line: int) -> Seq<char>
    decreases line - below,
{
    if line <= below {
        Seq::empty()
    } else {
        line_text(grid, tabs, line, 0, to_line_end()) + lines_text(grid, tabs, below, line - 1)
    }
}

/// The text between two buffer points, from the upper one, which has the higher
/// line, to the lower one.
pub open spec fn span_text(grid: GridView, tabs: Seq<bool>, locations: Locations) -> Seq<char> {
    let (start, end) = ordered(locations.start, locations.end);
    if end.line == start.line {
        line_text(grid, tabs, start.line as int, start.col as int, end.col as int)
    } else {
        line_text(grid, tabs, end.line as int, end.col as int, to_line_end()) + lines_text(
            grid,
            tabs,
            start.line as int,
            end.line - 1,
        ) + line_text(grid, tabs, start.line as int, 0, start.col as int)
    }
}

fn push_cell_text(out: &mut Vec<char>, cell: &Cell)
    ensures
        final(out)@ == old(out)@ + cell_text(*cell),
{
    if cell.flags.contains(WIDE_CHAR_SPACER) {
        proof {
            assert(out@ =~= old(out)@ + cell_text(*cell));
        }
        return ;
    }
    out.push(cell.c);
    let ghost pred = |c: char| c != ' ';
    let ghost base = out@;
    let mut i: usize = 0;
    proof {
        reveal(Seq::filter);
        assert(cell.extra@.subrange(0, 0).filter(pred) =~= Seq::<char>::empty());
        assert(out@ =~= base + cell.extra@.subrange(0, 0).filter(pred));
    }
    while i < 5
        invariant
            i <= 5,
            cell.extra@.len() == 5,
            pred == (|c: char| c != ' '),
            base == old(out)@.push(cell.c),
            out@ == base + cell.extra@.subrange(0, i as int).filter(pred),
        decreases 5 - i,
    {
        let c = cell.extra[i];
        proof {
            reveal(Seq::filter);
            let before = cell.extra@.subrange(0, i as int);
            let after = cell.extra@.subrange(0, i + 1);
            assert(after.drop_last() =~= before);
            assert(after.last() == c);
        }
        if c != ' ' {
            out.push(c);
            proof {
                assert(out@ =~= base + cell.extra@.subrange(0, i + 1).filter(pred));
            }
        }
        i += 1;
    }
    proof {
        assert(cell.extra@.subrange(0, 5) =~= cell.extra@);
        assert(out@ =~= old(out)@ + cell_text(*cell));
    }
}

fn tab_stop_at(tabs: &TabStops, col: Column) -> (stop: bool)
    ensures
        stop == stop_at(tabs.tabs@, col as int),
{
    col < tabs.tabs.len() && tabs.is_set(col)
}

fn push_cells_text(out: &mut Vec<char>, row: &Vec<Cell>, tabs: &TabStops, start: Column, end: Column)
    requires
        start <= end <= row@.len(),
    ensures
        final(out)@ == old(out)@ + cells_text(row@, tabs.tabs@, start as int, end as int, false),
{
    let mut col: usize = start;
    let mut tab_mode = false;
    let ghost whole = cells_text(row@, tabs.tabs@, start as int, end as int, false);
    while col < end
        invariant
            start <= col <= end <= row@.len(),
            out@ + cells_text(row@, tabs.tabs@, col as int, end as int, tab_mode) == old(out)@
                + whole,
        decreases end - col,
    {
        let cell = row[col];
        let ghost rest_before = cells_text(row@, tabs.tabs@, col as int, end as int, tab_mode);
        let ghost done = out@;
        if tab_mode && tab_stop_at(tabs, col) {
            tab_mode = false;
        }
        if tab_mode && cell.c == ' ' {
        } else {
            push_cell_text(out, &cell);
            if cell.c == '\t' {
                tab_mode = true;
            }
            proof {
                let rest = cells_text(row@, tabs.tabs@, col + 1, end as int, tab_mode);
                assert(rest_before == cell_text(cell) + rest);
                assert(out@ + rest =~= done + rest_before);
            }
        }
        col += 1;
    }
    proof {
        assert(out@ + Seq::<char>::empty() =~= out@);
    }
}

fn push_line_text(out: &mut Vec<char>, grid: &Grid, tabs: &TabStops, line: usize, start: Column, end: Column)
    requires
        grid.wf(),
        grid.lines >= 1,
        grid.cols >= 1,
    ensures
        final(out)@ == old(out)@ + line_text(
            grid@,
            tabs.tabs@,
            line as int,
            start as int,
            end as int,
        ),
{
    let line = min_of(line, grid.len() - 1);
    let row = grid.buffer_line(line);
    proof {
        assert(grid@.rows[grid@.rows.len() - 1 - line].len() == grid.cols);
    }
    let length = line_length(row);
    let line_end = min_of(length, end.saturating_add(1));
    let whole = end >= grid.num_cols() - 1;
    if line_end == 0 && whole {
        out.push('\n');
        proof {
            assert(out@ =~= old(out)@ + seq!['\n']);
        }
    } else if start < line_end {
        push_cells_text(out, row, tabs, start, line_end);
        if whole && !row[line_end - 1].flags.contains(WRAPLINE) {
            out.push('\n');
            proof {
                assert(out@ =~= old(out)@ + (cells_text(
                    row@,
                    tabs.tabs@,
                    start as int,
                    line_end as int,
                    false,
                ) + seq!['\n']));
            }
        } else {
            proof {
                assert(out@ =~= old(out)@ + (cells_text(
                    row@,
                    tabs.tabs@,
                    start as int,
                    line_end as int,
                    false,
                ) + Seq::<char>::empty()));
            }
        }
    } else {
        proof {
            assert(out@ =~= old(out)@ + Seq::<char>::empty());
        }
    }
}

fn push_span_text(out: &mut Vec<char>, grid: &Grid, tabs: &TabStops, locations: &Locations)
    requires
        grid.wf(),
        grid.lines >= 1,
        grid.cols >= 1,
    ensures
        final(out)@ == old(out)@ + span_text(grid@, tabs.tabs@, *locations),
{
    let (start, end) = if locations.end.is_before(&locations.start) {
        (locations.end, locations.start)
    } else {
        (locations.start, locations.end)
    };
    let max_col: usize = usize::MAX - 1;
    if end.line == start.line {
        push_line_text(out, grid, tabs, start.line, start.col, end.col);
        return ;
    }
    push_line_text(out, grid, tabs, end.line, end.col, max_col);
    let ghost first = out@;
    let ghost middle = lines_text(grid@, tabs.tabs@, start.line as int, end.line - 1);
    let mut line: usize = end.line - 1;
    while line > start.line
        invariant
            start.line <= line < end.line,
            grid.wf(),
            grid.lines >= 1,
            grid.cols >= 1,
            max_col == usize::MAX - 1,
            out@ + lines_text(grid@, tabs.tabs@, start.line as int, line as int) == first + middle,
        decreases line,
    {
        let ghost done = out@;
        let ghost rest_before = lines_text(grid@, tabs.tabs@, start.line as int, line as int);
        push_line_text(out, grid, tabs, line, 0, max_col);
        line -= 1;
        proof {
            let rest = lines_text(grid@, tabs.tabs@, start.line as int, line as int);
            assert(out@ + rest =~= done + rest_before);
        }
    }
    proof {
        assert(out@ + Seq::<char>::empty() =~= out@);
    }
    let ghost before_last = out@;
    push_line_text(out, grid, tabs, start.line, 0, start.col);
    proof {
        assert(out@ =~= old(out)@ + span_text(grid@, tabs.tabs@, *locations));
    }
}

impl Term {
    /// Whether the text of the selection can be worked out: the grid is well formed
    /// and not empty, and the ends of a semantic selection are in its columns.
    pub open spec fn can_select(&self) -> bool {
        &&& self.grid.wf()
        &&& self.grid.lines >= 1
        &&& self.grid.cols >= 1
        &&& match self.grid.selection {
            Some(s) => s.fits(self.grid.cols),
            None => true,
        }
    }

    /// The text of the selection, if there is a selection and it covers something.
    pub open spec fn selected_text(&self) -> Option<Seq<char>> {
        match self.grid.selection {
            None => None,
            Some(selection) => match selection.span(self, self.mode.spec_contains(ALT_SCREEN)) {
                None => None,
                Some(span) => Some(span_text(self.grid@, self.tabs.tabs@, span.locations())),
            },
        }
    }

    /// Copies the text of the selection.
    pub fn selection_to_string(&self) -> (text: Option<String>)
        requires
            self.can_select(),
        ensures
            title_text(text) == self.selected_text(),
    {
        let alt_screen = self.mode.contains(ALT_SCREEN);
        let selection = match self.grid.selection {
            Some(s) => s,
            None => {
                return None;
            },
        };
        let span = match selection.to_span(self, alt_screen) {
            Some(s) => s,
            None => {
                return None;
            },
        };
        let locations = span.to_locations();
        let mut res: Vec<char> = Vec::new();
        push_span_text(&mut res, &self.grid, &self.tabs, &locations);
        proof {
            assert(Seq::<char>::empty() + span_text(self.grid@, self.tabs.tabs@, locations)
                =~= span_text(self.grid@, self.tabs.tabs@, locations));
        }
        Some(string_from_chars(&res))
    }
}

} // verus!
