//! Finding the ends of the word around a point.

use crate::terminal_emulator::grid::next_point;
use crate::terminal_emulator::grid::prev_point;
use crate::terminal_emulator::grid::GridView;
use crate::terminal_emulator::index::min;
use crate::terminal_emulator::index::min_of;
use crate::terminal_emulator::index::Point;
use crate::terminal_emulator::term::cell::WRAPLINE;
use crate::terminal_emulator::term::Term;
use vstd::prelude::*;
use vstd::string::StrSliceExecFns;

verus! {

/// Whether a text holds a character.
pub fn text_contains(text: &str, c: char) -> (found: bool)
    ensures
        found == text@.contains(c),
{
    let n = text.unicode_len();
    let mut i: usize = 0;
    while i < n
        invariant
            i <= n,
            n == text@.len(),
            forall|k: int| 0 <= k < i ==> text@[k] != c,
        decreases n - i,
    {
        if text.get_char(i) == c {
            return true;
        }
        i += 1;
    }
    false
}

impl GridView {
    /// Whether a buffer point lies in the buffer, whose size is one a machine can hold.
    pub open spec fn holds(self, p: Point) -> bool {
        p.line < self.rows.len() <= usize::MAX && p.col < self.cols <= usize::MAX
    }

    /// The cell at a buffer point.
    pub open spec fn at(self, p: Point) -> crate::terminal_emulator::term::cell::Cell {
        self.buffer_row(p.line as int)[p.col as int]
    }

    /// Whether the cell at `p` ends its line: it is in the last column and not marked
    /// as wrapped.
    pub open spec fn ends_line(self, p: Point) -> bool {
        p.col == self.cols - 1 && !self.at(p).flags.spec_contains(WRAPLINE)
    }

    /// The start of the word at `cur`: the first point, going back in reading order,
    /// before which an escape character stands, a line ends, or the buffer starts.
    pub open spec fn word_start(self, escapes: Seq<char>, cur: Point) -> Point
        decreases self.rows.len() - cur.line, cur.col,
    {
        if !self.holds(cur) {
            cur
        } else {
            match prev_point(self.cols, self.rows.len() as int, cur) {
                None => cur,
                Some(p) => if escapes.contains(self.at(p).c) || self.ends_line(p) {
                    cur
                } else {
                    self.word_start(escapes, p)
                },
            }
        }
    }

    /// The end of the word at `cur`: the last point, going on in reading order, after
    /// which an escape character stands or the buffer ends, or which ends its line.
    pub open spec fn word_end(self, escapes: Seq<char>, cur: Point) -> Point
        decreases cur.line, self.cols - cur.col,
    {
        if !self.holds(cur) {
            cur
        } else {
            match next_point(self.cols, cur) {
                None => cur,
                Some(p) => if escapes.contains(self.at(p).c) {
                    cur
                } else if self.ends_line(p) {
                    p
                } else {
                    self.word_end(escapes, p)
                },
            }
        }
    }

    /// The point with its line moved into the buffer.
    pub open spec fn in_buffer(self, point: Point) -> Point {
        Point { line: min(point.line as int, self.rows.len() - 1) as usize, col: point.col }
    }
}

/// The start of a word is its own start.
pub proof fn lemma_word_start_is_fixed(grid: GridView, escapes: Seq<char>, cur: Point)
    requires
        grid.wf(),
    ensures
        grid.word_start(escapes, grid.word_start(escapes, cur)) == grid.word_start(escapes, cur),
        grid.holds(cur) ==> grid.holds(grid.word_start(escapes, cur)),
    decreases grid.rows.len() - cur.line, cur.col,
{
    if grid.holds(cur) {
        match prev_point(grid.cols, grid.rows.len() as int, cur) {
            None => {},
            Some(p) => {
                if escapes.contains(grid.at(p).c) || grid.ends_line(p) {
                } else {
                    lemma_word_start_is_fixed(grid, escapes, p);
                }
            },
        }
    }
}

/// Searching to the left from the result of a search to the left changes nothing.
pub proof fn lemma_search_left_idempotent(grid: GridView, escapes: Seq<char>, point: Point)
    requires
        grid.wf(),
        grid.rows.len() >= 1,
        point.col < grid.cols,
    ensures
        grid.word_start(
            escapes,
            grid.in_buffer(grid.word_start(escapes, grid.in_buffer(point))),
        ) == grid.word_start(escapes, grid.in_buffer(point)),
{
    let start = grid.in_buffer(point);
    lemma_word_start_is_fixed(grid, escapes, start);
    assert(grid.holds(start));
    assert(grid.in_buffer(grid.word_start(escapes, start)) == grid.word_start(escapes, start));
}

/// What can grow a point into the word around it.
pub trait Search {
    /// Whether a search can start at the point.
    spec fn can_search(&self, point: Point) -> bool;

    /// The start of the word at the point.
    spec fn word_start_at(&self, point: Point) -> Point;

    /// The end of the word at the point.
    spec fn word_end_at(&self, point: Point) -> Point;

    /// Finds the nearest word boundary to the left of the point.
    fn semantic_search_left(&self, point: Point) -> (boundary: Point)
        requires
            self.can_search(point),
        ensures
            boundary == self.word_start_at(point),
    ;

    /// Finds the nearest word boundary to the right of the point.
    fn semantic_search_right(&self, point: Point) -> (boundary: Point)
        requires
            self.can_search(point),
        ensures
            boundary == self.word_end_at(point),
    ;

    /// Finds the address around the point, if there is one.
    fn url_search(&self, point: Point) -> (url: Option<String>)
    ;
}

impl Search for Term {
    /// The grid is well formed and not empty, and the point is in one of its columns.
    open spec fn can_search(&self, point: Point) -> bool {
        &&& self.grid.wf()
        &&& self.grid.lines >= 1
        &&& point.col < self.grid.cols
    }

    open spec fn word_start_at(&self, point: Point) -> Point {
        self.grid@.word_start(self.semantic_escape_chars@, self.grid@.in_buffer(point))
    }

    open spec fn word_end_at(&self, point: Point) -> Point {
        self.grid@.word_end(self.semantic_escape_chars@, self.grid@.in_buffer(point))
    }

    fn semantic_search_left(&self, point: Point) -> (boundary: Point) {
        let start = Point { line: min_of(point.line, self.grid.len() - 1), col: point.col };
        let last_col = self.grid.num_cols() - 1;
        let mut boundary = start;
        let mut iter = self.grid.iter_from(start);
        let mut searching = true;
        while searching
            invariant
                iter.grid == &self.grid,
                iter.wf(),
                last_col == self.grid.cols - 1,
                searching ==> iter.cur == boundary,
                self.grid@.holds(boundary),
                self.grid@.word_start(self.semantic_escape_chars@, boundary)
                    == self.word_start_at(point),
                !searching ==> boundary == self.word_start_at(point),
            decreases
                    (if searching {
                        1int
                    } else {
                        0int
                    }),
                    self.grid@.rows.len() - iter.cur.line,
                    iter.cur.col,
        {
            match iter.prev() {
                None => {
                    searching = false;
                },
                Some(cell) => {
                    if text_contains(self.semantic_escape_chars.as_str(), cell.c) {
                        searching = false;
                    } else if iter.cur.col == last_col && !cell.flags.contains(WRAPLINE) {
                        searching = false;
                    } else {
                        boundary = iter.cur;
                    }
                },
            }
        }
        boundary
    }

    fn semantic_search_right(&self, point: Point) -> (boundary: Point) {
        let start = Point { line: min_of(point.line, self.grid.len() - 1), col: point.col };
        let last_col = self.grid.num_cols() - 1;
        let mut boundary = start;
        let mut iter = self.grid.iter_from(start);
        let mut searching = true;
        while searching
            invariant
                iter.grid == &self.grid,
                iter.wf(),
                last_col == self.grid.cols - 1,
                searching ==> iter.cur == boundary,
                self.grid@.holds(boundary),
                searching ==> self.grid@.word_end(self.semantic_escape_chars@, boundary)
                    == self.word_end_at(point),
                !searching ==> boundary == self.word_end_at(point),
            decreases
                    (if searching {
                        1int
                    } else {
                        0int
                    }),
                    iter.cur.line,
                    self.grid.cols - iter.cur.col,
        {
            match iter.next() {
                None => {
                    searching = false;
                },
                Some(cell) => {
                    if text_contains(self.semantic_escape_chars.as_str(), cell.c) {
                        searching = false;
                    } else {
                        boundary = iter.cur;
                        if iter.cur.col == last_col && !cell.flags.contains(WRAPLINE) {
                            searching = false;
                        }
                    }
                },
            }
        }
        boundary
    }

    /// Finds no address.
    fn url_search(&self, point: Point) -> (url: Option<String>)
        ensures
            url is None,
    {
        None
    }
}

} // verus!
