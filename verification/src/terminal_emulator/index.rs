//! Lines, columns and points of the grid.

use vstd::prelude::*;

verus! {

/// A line of the screen, counted from the top, starting at 0.
pub type Line = usize;

/// A column of the grid, counted from the left, starting at 0.
pub type Column = usize;

/// A position in a flattened screen: `line * cols + col`.
pub type Linear = usize;

/// The side of a cell that a selection starts or ends on.
#[derive(Clone, Copy, Debug, PartialEq, Eq, Structural)]
pub enum Side {
    Left,
    Right,
}

/// A cell position. On the screen `line` counts from the top; in the buffer, history
/// included, it counts from the bottom line of the screen upwards.
#[derive(Clone, Copy, Debug, PartialEq, Eq, Structural)]
pub struct Point {
    pub line: usize,
    pub col: Column,
}

impl Point {
    pub fn new(line: usize, col: Column) -> (p: Point)
        ensures
            p == (Point { line, col }),
    {
        Point { line, col }
    }

    /// Points are ordered by line, then by column.
    pub open spec fn lt(self, other: Point) -> bool {
        self.line < other.line || (self.line == other.line && self.col < other.col)
    }

    pub fn is_before(&self, other: &Point) -> (r: bool)
        ensures
            r == self.lt(*other),
    {
        self.line < other.line || (self.line == other.line && self.col < other.col)
    }
}

impl Default for Point {
    fn default() -> (p: Point)
        ensures
            p == (Point { line: 0, col: 0 }),
    {
        Point { line: 0, col: 0 }
    }
}

pub open spec fn min(a: int, b: int) -> int {
    if a <= b {
        a
    } else {
        b
    }
}

pub open spec fn max(a: int, b: int) -> int {
    if a >= b {
        a
    } else {
        b
    }
}

pub fn min_of(a: usize, b: usize) -> (m: usize)
    ensures
        m == min(a as int, b as int),
{
    if a <= b {
        a
    } else {
        b
    }
}

pub fn max_of(a: usize, b: usize) -> (m: usize)
    ensures
        m == max(a as int, b as int),
{
    if a >= b {
        a
    } else {
        b
    }
}

/// An inclusive range of flattened positions.
#[derive(Clone, Copy, Debug, PartialEq, Eq, Structural)]
pub struct RangeInclusive {
    pub start: Linear,
    pub end: Linear,
}

impl RangeInclusive {
    pub fn new(start: Linear, end: Linear) -> (r: RangeInclusive)
        ensures
            r == (RangeInclusive { start, end }),
    {
        RangeInclusive { start, end }
    }

    pub open spec fn spec_contains(&self, item: Linear) -> bool {
        self.start <= item <= self.end
    }

    #[verifier::when_used_as_spec(spec_contains)]
    pub fn contains(&self, item: Linear) -> (r: bool)
        ensures
            r == self.spec_contains(item),
    {
        self.start <= item && item <= self.end
    }
}

} // verus!
