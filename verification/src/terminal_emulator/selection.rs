//! What the user has selected on the grid.

use crate::terminal_emulator::index::Column;
use crate::terminal_emulator::index::Point;
use crate::terminal_emulator::index::Side;
use crate::terminal_emulator::term::search::Search;
use crate::terminal_emulator::term::Term;
use vstd::prelude::*;

verus! {

/// A point whose line may lie below the screen: lines count from the bottom line of
/// the screen upwards, and a selection that was scrolled out at the bottom has a
/// negative line.
#[derive(Clone, Copy, Debug, PartialEq, Eq, Structural)]
pub struct Location {
    pub line: isize,
    pub col: Column,
}

/// A point and the side of its cell.
#[derive(Clone, Copy, Debug, PartialEq, Eq, Structural)]
pub struct Anchor {
    pub point: Location,
    pub side: Side,
}

/// A selection: where it was started and where it has been dragged to. A simple one
/// covers the cells between its ends, a semantic one grows to word boundaries, a line
/// selection covers whole lines.
#[derive(Clone, Copy, Debug, PartialEq, Eq, Structural)]
pub enum Selection {
    Simple { from: Anchor, to: Anchor },
    Semantic { start: Location, end: Location },
    Lines { start: Location, end: Location, initial_line: isize },
}

/// `line + offset`, kept within the range of `isize`.
pub open spec fn shifted(line: isize, offset: int) -> isize {
    if line + offset > isize::MAX {
        isize::MAX
    } else if line + offset < isize::MIN {
        isize::MIN
    } else {
        (line + offset) as isize
    }
}

pub fn shift_line(line: isize, offset: isize) -> (r: isize)
    ensures
        r == shifted(line, offset as int),
{
    if offset >= 0 {
        if line > isize::MAX - offset {
            isize::MAX
        } else {
            line + offset
        }
    } else {
        if line < isize::MIN - offset {
            isize::MIN
        } else {
            line + offset
        }
    }
}

impl Location {
    pub open spec fn of(point: Point) -> Location {
        Location {
            line: if point.line > isize::MAX {
                isize::MAX
            } else {
                point.line as isize
            },
            col: point.col,
        }
    }

    /// The location of a buffer point.
    pub fn from_point(point: Point) -> (l: Location)
        ensures
            l == Location::of(point),
    {
        if point.line > isize::MAX as usize {
            Location { line: isize::MAX, col: point.col }
        } else {
            Location { line: point.line as isize, col: point.col }
        }
    }

    /// The buffer point of a location; one below the screen counts as its bottom line.
    pub open spec fn point(self) -> Point {
        Point {
            line: if self.line < 0 {
                0
            } else {
                self.line as usize
            },
            col: self.col,
        }
    }

    pub fn to_point(&self) -> (p: Point)
        ensures
            p == self.point(),
    {
        if self.line < 0 {
            Point { line: 0, col: self.col }
        } else {
            Point { line: self.line as usize, col: self.col }
        }
    }

    /// Locations are ordered by line, then by column.
    pub open spec fn lt(self, other: Location) -> bool {
        self.line < other.line || (self.line == other.line && self.col < other.col)
    }

    pub fn is_before(&self, other: &Location) -> (r: bool)
        ensures
            r == self.lt(*other),
    {
        self.line < other.line || (self.line == other.line && self.col < other.col)
    }

    pub open spec fn moved(self, offset: int) -> Location {
        Location { line: shifted(self.line, offset), col: self.col }
    }
}

impl Selection {
    /// A selection of single cells that starts at `location`.
    pub fn simple(location: Point, side: Side) -> (s: Selection)
        ensures
            s == (Selection::Simple {
                from: Anchor { point: Location::of(location), side },
                to: Anchor { point: Location::of(location), side },
            }),
    {
        let point = Location::from_point(location);
        Selection::Simple { from: Anchor { point, side }, to: Anchor { point, side } }
    }

    /// A selection of words that starts at `point`.
    pub fn semantic(point: Point) -> (s: Selection)
        ensures
            s == (Selection::Semantic { start: Location::of(point), end: Location::of(point) }),
    {
        let at = Location::from_point(point);
        Selection::Semantic { start: at, end: at }
    }

    /// A selection of whole lines that starts at `point`.
    pub fn lines(point: Point) -> (s: Selection)
        ensures
            s == (Selection::Lines {
                start: Location::of(point),
                end: Location::of(point),
                initial_line: Location::of(point).line,
            }),
    {
        let at = Location::from_point(point);
        Selection::Lines { start: at, end: at, initial_line: at.line }
    }

    /// The selection with its end moved.
    pub open spec fn updated(self, location: Point, side: Side) -> Selection {
        match self {
            Selection::Simple { from, to } => Selection::Simple {
                from,
                to: Anchor { point: Location::of(location), side },
            },
            Selection::Semantic { start, end } => Selection::Semantic {
                start,
                end: Location::of(location),
            },
            Selection::Lines { start, end, initial_line } => Selection::Lines {
                start,
                end: Location::of(location),
                initial_line,
            },
        }
    }

    /// Moves the end of the selection to `location`.
    pub fn update(&mut self, location: Point, side: Side)
        ensures
            *final(self) == old(self).updated(location, side),
    {
        let at = Location::from_point(location);
        *self = match *self {
            Selection::Simple { from, to } => Selection::Simple {
                from,
                to: Anchor { point: at, side },
            },
            Selection::Semantic { start, end } => Selection::Semantic { start, end: at },
            Selection::Lines { start, end, initial_line } => Selection::Lines {
                start,
                end: at,
                initial_line,
            },
        };
    }

    /// The selection moved by `offset` lines, following the text as it scrolls.
    pub open spec fn rotated(self, offset: int) -> Selection {
        match self {
            Selection::Simple { from, to } => Selection::Simple {
                from: Anchor { point: from.point.moved(offset), side: from.side },
                to: Anchor { point: to.point.moved(offset), side: to.side },
            },
            Selection::Semantic { start, end } => Selection::Semantic {
                start: start.moved(offset),
                end: end.moved(offset),
            },
            Selection::Lines { start, end, initial_line } => Selection::Lines {
                start: start.moved(offset),
                end: end.moved(offset),
                initial_line: shifted(initial_line, offset),
            },
        }
    }

    pub fn rotate(&mut self, offset: isize)
        ensures
            *final(self) == old(self).rotated(offset as int),
    {
        *self = match *self {
            Selection::Simple { from, to } => Selection::Simple {
                from: Anchor {
                    point: Location { line: shift_line(from.point.line, offset), col: from.point.col },
                    side: from.side,
                },
                to: Anchor {
                    point: Location { line: shift_line(to.point.line, offset), col: to.point.col },
                    side: to.side,
                },
            },
            Selection::Semantic { start, end } => Selection::Semantic {
                start: Location { line: shift_line(start.line, offset), col: start.col },
                end: Location { line: shift_line(end.line, offset), col: end.col },
            },
            Selection::Lines { start, end, initial_line } => Selection::Lines {
                start: Location { line: shift_line(start.line, offset), col: start.col },
                end: Location { line: shift_line(end.line, offset), col: end.col },
                initial_line: shift_line(initial_line, offset),
            },
        };
    }

    pub open spec fn spec_is_empty(&self) -> bool {
        match *self {
            Selection::Simple { from, to } => from == to,
            _ => false,
        }
    }

    /// Whether the selection covers nothing: a simple one whose ends are the same side
    /// of the same cell.
    #[verifier::when_used_as_spec(spec_is_empty)]
    pub fn is_empty(&self) -> (r: bool)
        ensures
            r == self.spec_is_empty(),
    {
        match *self {
            Selection::Simple { from, to } => from == to,
            _ => false,
        }
    }
}

/// `selection` moved by `offset` lines, if there is one.
pub open spec fn rotated_selection(selection: Option<Selection>, offset: int) -> Option<Selection> {
    match selection {
        Some(s) => Some(s.rotated(offset)),
        None => None,
    }
}

/// How the ends of a span are meant.
#[derive(Clone, Copy, Debug, PartialEq, Eq, Structural)]
pub enum SpanType {
    Inclusive,
    ExcludeFront,
    ExcludeTail,
    Exclusive,
}

/// The cells that a selection covers: from `front` to `tail`, in buffer points.
#[derive(Clone, Copy, Debug, PartialEq, Eq, Structural)]
pub struct Span {
    pub front: Point,
    pub tail: Point,
    pub cols: Column,
    pub ty: SpanType,
}

/// The first and the last cell of a span.
#[derive(Clone, Copy, Debug, PartialEq, Eq, Structural)]
pub struct Locations {
    pub start: Point,
    pub end: Point,
}

/// The point after `start`, which is in the next line up when `start` is in the last
/// column.
pub open spec fn wrapped_start(start: Point, cols: Column) -> Point {
    if start.col + 1 == cols && start.line < usize::MAX {
        Point { line: (start.line + 1) as usize, col: 0 }
    } else if start.col < usize::MAX {
        Point { line: start.line, col: (start.col + 1) as usize }
    } else {
        start
    }
}

/// The point before `end`, which is in the next line down when `end` is in the first
/// column.
pub open spec fn wrapped_end(end: Point, cols: Column) -> Point {
    if end.col == 0 && end.line != 0 {
        Point { line: (end.line - 1) as usize, col: cols }
    } else if end.col > 0 {
        Point { line: end.line, col: (end.col - 1) as usize }
    } else {
        end
    }
}

fn wrap_start(start: Point, cols: Column) -> (p: Point)
    ensures
        p == wrapped_start(start, cols),
{
    if start.col < usize::MAX && start.col + 1 == cols && start.line < usize::MAX {
        Point { line: start.line + 1, col: 0 }
    } else if start.col < usize::MAX {
        Point { line: start.line, col: start.col + 1 }
    } else {
        start
    }
}

fn wrap_end(end: Point, cols: Column) -> (p: Point)
    ensures
        p == wrapped_end(end, cols),
{
    if end.col == 0 && end.line != 0 {
        Point { line: end.line - 1, col: cols }
    } else if end.col > 0 {
        Point { line: end.line, col: end.col - 1 }
    } else {
        end
    }
}

impl Span {
    pub open spec fn locations(&self) -> Locations {
        match self.ty {
            SpanType::Inclusive => Locations { start: self.front, end: self.tail },
            SpanType::Exclusive => Locations {
                start: wrapped_start(self.front, self.cols),
                end: wrapped_end(self.tail, self.cols),
            },
            SpanType::ExcludeFront => Locations {
                start: wrapped_start(self.front, self.cols),
                end: self.tail,
            },
            SpanType::ExcludeTail => Locations {
                start: self.front,
                end: wrapped_end(self.tail, self.cols),
            },
        }
    }

    /// The first and the last cell of the span.
    pub fn to_locations(&self) -> (l: Locations)
        ensures
            l == self.locations(),
    {
        match self.ty {
            SpanType::Inclusive => Locations { start: self.front, end: self.tail },
            SpanType::Exclusive => Locations {
                start: wrap_start(self.front, self.cols),
                end: wrap_end(self.tail, self.cols),
            },
            SpanType::ExcludeFront => Locations {
                start: wrap_start(self.front, self.cols),
                end: self.tail,
            },
            SpanType::ExcludeTail => Locations {
                start: self.front,
                end: wrap_end(self.tail, self.cols),
            },
        }
    }
}

/// The ends of a selection on the alternate screen, cut to the screen; none when the
/// selection lies above the screen or below it as a whole.
pub open spec fn clamped_to_screen(
    front: Location,
    tail: Location,
    lines: int,
    cols: int,
) -> Option<(Location, Location)> {
    if tail.line >= lines && front.line >= lines {
        None
    } else {
        let top = if tail.line >= lines {
            Location { line: (lines - 1) as isize, col: 0 }
        } else {
            tail
        };
        if front.line < 0 && top.line < 0 {
            None
        } else if front.line < 0 {
            Some((Location { line: 0, col: (cols - 1) as usize }, top))
        } else {
            Some((front, top))
        }
    }
}

fn alt_screen_clamp(front: Location, tail: Location, lines: usize, cols: Column) -> (r: Option<
    (Location, Location),
>)
    requires
        1 <= lines <= isize::MAX,
        cols >= 1,
    ensures
        r == clamped_to_screen(front, tail, lines as int, cols as int),
{
    let lines = lines as isize;
    if tail.line >= lines && front.line >= lines {
        return None;
    }
    let top = if tail.line >= lines {
        Location { line: lines - 1, col: 0 }
    } else {
        tail
    };
    if front.line < 0 && top.line < 0 {
        None
    } else if front.line < 0 {
        Some((Location { line: 0, col: cols - 1 }, top))
    } else {
        Some((front, top))
    }
}

/// The ends as they are on the primary screen, or cut to the screen on the alternate
/// one.
pub open spec fn on_screen(
    front: Location,
    tail: Location,
    lines: int,
    cols: int,
    alt_screen: bool,
) -> Option<(Location, Location)> {
    if alt_screen {
        clamped_to_screen(front, tail, lines, cols)
    } else {
        Some((front, tail))
    }
}

fn clamp_if_alt(front: Location, tail: Location, lines: usize, cols: Column, alt_screen: bool) -> (r:
    Option<(Location, Location)>)
    requires
        1 <= lines <= isize::MAX,
        cols >= 1,
    ensures
        r == on_screen(front, tail, lines as int, cols as int, alt_screen),
{
    if alt_screen {
        alt_screen_clamp(front, tail, lines, cols)
    } else {
        Some((front, tail))
    }
}

/// An inclusive span.
pub open spec fn inclusive(front: Point, tail: Point, cols: Column) -> Span {
    Span { front, tail, cols, ty: SpanType::Inclusive }
}

/// The span of a simple selection. Its front is the later end in reading order, which
/// has the lower line. A selection of one cell from one side to the same, or from the
/// right of a cell to the left of the next, covers nothing. A front on the left side
/// of its cell gives that cell up, and a tail on the right side of its cell too.
pub open spec fn simple_span(from: Anchor, to: Anchor, lines: int, cols: int, alt_screen: bool) -> Option<
    Span,
> {
    let start = from.point;
    let end = to.point;
    let swap = start.line > end.line || (start.line == end.line && start.col <= end.col);
    let front = if swap {
        end
    } else {
        start
    };
    let tail = if swap {
        start
    } else {
        end
    };
    let front_side = if swap {
        to.side
    } else {
        from.side
    };
    let tail_side = if swap {
        from.side
    } else {
        to.side
    };
    if (front == tail && front_side == tail_side) || (tail_side == Side::Right && front_side
        == Side::Left && front.line == tail.line && front.col == tail.col + 1) {
        None
    } else {
        let front1 = if front_side == Side::Left && start != end {
            if front.col == 0 {
                Location { line: shifted(front.line, 1), col: (cols - 1) as usize }
            } else {
                Location { line: front.line, col: (front.col - 1) as usize }
            }
        } else {
            front
        };
        let tail1 = if tail_side == Side::Right && front1 != tail && tail.col < usize::MAX {
            Location { line: tail.line, col: (tail.col + 1) as usize }
        } else {
            tail
        };
        match on_screen(front1, tail1, lines, cols, alt_screen) {
            Some((f, t)) => Some(inclusive(f.point(), t.point(), cols as usize)),
            None => None,
        }
    }
}

/// The span of a line selection: the whole lines from the lowest to the highest of
/// the line it started on and the lines of its two ends.
pub open spec fn lines_span(
    start: Location,
    end: Location,
    initial_line: isize,
    lines: int,
    cols: int,
    alt_screen: bool,
) -> Option<Span> {
    let low = if start.line < end.line {
        start.line
    } else {
        end.line
    };
    let high = if start.line < end.line {
        end.line
    } else {
        start.line
    };
    let front = Location {
        line: if initial_line < low {
            initial_line
        } else {
            low
        },
        col: (cols - 1) as usize,
    };
    let tail = Location {
        line: if initial_line > high {
            initial_line
        } else {
            high
        },
        col: 0,
    };
    match on_screen(front, tail, lines, cols, alt_screen) {
        Some((f, t)) => Some(inclusive(f.point(), t.point(), cols as usize)),
        None => None,
    }
}

fn span_simple(from: Anchor, to: Anchor, lines: usize, cols: Column, alt_screen: bool) -> (span:
    Option<Span>)
    requires
        1 <= lines <= isize::MAX,
        cols >= 1,
    ensures
        span == simple_span(from, to, lines as int, cols as int, alt_screen),
{
    let start = from.point;
    let end = to.point;
    let swap = start.line > end.line || (start.line == end.line && start.col <= end.col);
    let front = if swap {
        end
    } else {
        start
    };
    let tail = if swap {
        start
    } else {
        end
    };
    let front_side = if swap {
        to.side
    } else {
        from.side
    };
    let tail_side = if swap {
        from.side
    } else {
        to.side
    };
    if (front == tail && front_side == tail_side) || (tail_side == Side::Right && front_side
        == Side::Left && front.line == tail.line && tail.col < usize::MAX && front.col == tail.col
        + 1) {
        return None;
    }
    let front1 = if front_side == Side::Left && start != end {
        if front.col == 0 {
            Location { line: shift_line(front.line, 1), col: cols - 1 }
        } else {
            Location { line: front.line, col: front.col - 1 }
        }
    } else {
        front
    };
    let tail1 = if tail_side == Side::Right && front1 != tail && tail.col < usize::MAX {
        Location { line: tail.line, col: tail.col + 1 }
    } else {
        tail
    };
    match clamp_if_alt(front1, tail1, lines, cols, alt_screen) {
        Some((f, t)) => Some(
            Span { front: f.to_point(), tail: t.to_point(), cols, ty: SpanType::Inclusive },
        ),
        None => None,
    }
}

fn span_lines(
    start: Location,
    end: Location,
    initial_line: isize,
    lines: usize,
    cols: Column,
    alt_screen: bool,
) -> (span: Option<Span>)
    requires
        1 <= lines <= isize::MAX,
        cols >= 1,
    ensures
        span == lines_span(start, end, initial_line, lines as int, cols as int, alt_screen),
{
    let low = if start.line < end.line {
        start.line
    } else {
        end.line
    };
    let high = if start.line < end.line {
        end.line
    } else {
        start.line
    };
    let front = Location {
        line: if initial_line < low {
            initial_line
        } else {
            low
        },
        col: cols - 1,
    };
    let tail = Location {
        line: if initial_line > high {
            initial_line
        } else {
            high
        },
        col: 0,
    };
    match clamp_if_alt(front, tail, lines, cols, alt_screen) {
        Some((f, t)) => Some(
            Span { front: f.to_point(), tail: t.to_point(), cols, ty: SpanType::Inclusive },
        ),
        None => None,
    }
}

/// The two points in reading order of the buffer: the lower line first, and on one
/// line the lower column.
pub open spec fn ordered(a: Point, b: Point) -> (Point, Point) {
    if b.lt(a) {
        (b, a)
    } else {
        (a, b)
    }
}

/// The span of a semantic selection: from word boundary to word boundary. Between
/// two ends in one line the word of the left end starts it and the word of the right
/// end ends it; else the word of the lower end is taken to its end and the word of the
/// upper end to its start.
pub open spec fn semantic_span(
    term: &Term,
    start: Location,
    end: Location,
    alt_screen: bool,
) -> Option<Span> {
    let front = if start.lt(end) {
        start
    } else {
        end
    };
    let tail = if start.lt(end) {
        end
    } else {
        start
    };
    match on_screen(front, tail, term.grid.lines as int, term.grid.cols as int, alt_screen) {
        None => None,
        Some((f, t)) => {
            let ends = if f.lt(t) && f.line == t.line {
                ordered(term.word_start_at(f.point()), term.word_end_at(t.point()))
            } else {
                ordered(term.word_end_at(f.point()), term.word_start_at(t.point()))
            };
            Some(inclusive(ends.0, ends.1, term.grid.cols))
        },
    }
}

fn span_semantic(term: &Term, start: Location, end: Location, alt_screen: bool) -> (span: Option<
    Span,
>)
    requires
        term.grid.wf(),
        term.grid.lines >= 1,
        start.col < term.grid.cols,
        end.col < term.grid.cols,
    ensures
        span == semantic_span(term, start, end, alt_screen),
{
    let cols = term.grid.num_cols();
    let lines = term.grid.num_lines();
    let forward = start.is_before(&end);
    let front = if forward {
        start
    } else {
        end
    };
    let tail = if forward {
        end
    } else {
        start
    };
    match clamp_if_alt(front, tail, lines, cols, alt_screen) {
        None => None,
        Some((f, t)) => {
            let (a, b) = if f.is_before(&t) && f.line == t.line {
                (term.semantic_search_left(f.to_point()), term.semantic_search_right(t.to_point()))
            } else {
                (term.semantic_search_right(f.to_point()), term.semantic_search_left(t.to_point()))
            };
            if b.is_before(&a) {
                Some(Span { front: b, tail: a, cols, ty: SpanType::Inclusive })
            } else {
                Some(Span { front: a, tail: b, cols, ty: SpanType::Inclusive })
            }
        },
    }
}

impl Selection {
    /// Whether the ends of a semantic selection are in the columns of a grid.
    pub open spec fn fits(&self, cols: Column) -> bool {
        match *self {
            Selection::Semantic { start, end } => start.col < cols && end.col < cols,
            _ => true,
        }
    }

    /// The span that the selection covers on the terminal's grid.
    pub open spec fn span(&self, term: &Term, alt_screen: bool) -> Option<Span> {
        match *self {
            Selection::Simple { from, to } => simple_span(
                from,
                to,
                term.grid.lines as int,
                term.grid.cols as int,
                alt_screen,
            ),
            Selection::Semantic { start, end } => semantic_span(term, start, end, alt_screen),
            Selection::Lines { start, end, initial_line } => lines_span(
                start,
                end,
                initial_line,
                term.grid.lines as int,
                term.grid.cols as int,
                alt_screen,
            ),
        }
    }

    /// Works out the cells that the selection covers.
    pub fn to_span(&self, term: &Term, alt_screen: bool) -> (span: Option<Span>)
        requires
            term.grid.wf(),
            term.grid.lines >= 1,
            term.grid.cols >= 1,
            self.fits(term.grid.cols),
        ensures
            span == self.span(term, alt_screen),
    {
        let cols = term.grid.num_cols();
        let lines = term.grid.num_lines();
        match *self {
            Selection::Simple { from, to } => span_simple(from, to, lines, cols, alt_screen),
            Selection::Semantic { start, end } => span_semantic(term, start, end, alt_screen),
            Selection::Lines { start, end, initial_line } => span_lines(
                start,
                end,
                initial_line,
                lines,
                cols,
                alt_screen,
            ),
        }
    }
}

} // verus!
