//! The cells of the grid.

use crate::terminal_emulator::ansi::Color;
use crate::terminal_emulator::ansi::NamedColor;
use crate::terminal_emulator::index::Column;
use vstd::prelude::*;

verus! {

/// How many zero-width characters a cell can hold besides its own.
pub const MAX_ZEROWIDTH_CHARS: usize = 5;

pub const INVERSE: u16 = 0b00_0000_0001;

pub const BOLD: u16 = 0b00_0000_0010;

pub const ITALIC: u16 = 0b00_0000_0100;

pub const UNDERLINE: u16 = 0b00_0000_1000;

pub const WRAPLINE: u16 = 0b00_0001_0000;

pub const WIDE_CHAR: u16 = 0b00_0010_0000;

pub const WIDE_CHAR_SPACER: u16 = 0b00_0100_0000;

pub const DIM: u16 = 0b00_1000_0000;

pub const DIM_BOLD: u16 = 0b00_1000_0010;

pub const HIDDEN: u16 = 0b01_0000_0000;

pub const STRIKEOUT: u16 = 0b10_0000_0000;

/// The flags of a cell, one bit each.
#[derive(Clone, Copy, Debug, PartialEq, Eq, Structural)]
pub struct Flags {
    pub bits: u16,
}

impl Flags {
    /// The set with the given bits added.
    pub open spec fn with(self, flags: u16) -> Flags {
        Flags { bits: self.bits | flags }
    }

    /// The set with the given bits taken out.
    pub open spec fn without(self, flags: u16) -> Flags {
        Flags { bits: self.bits & !flags }
    }

    pub open spec fn spec_contains(&self, flags: u16) -> bool {
        self.bits & flags == flags
    }

    pub open spec fn spec_intersects(&self, flags: u16) -> bool {
        self.bits & flags != 0
    }

    pub fn empty() -> (f: Flags)
        ensures
            f == (Flags { bits: 0 }),
    {
        Flags { bits: 0 }
    }

    /// Whether every one of the given bits is set.
    #[verifier::when_used_as_spec(spec_contains)]
    pub fn contains(&self, flags: u16) -> (r: bool)
        ensures
            r == self.spec_contains(flags),
    {
        self.bits & flags == flags
    }

    /// Whether any of the given bits is set.
    #[verifier::when_used_as_spec(spec_intersects)]
    pub fn intersects(&self, flags: u16) -> (r: bool)
        ensures
            r == self.spec_intersects(flags),
    {
        self.bits & flags != 0
    }

    pub fn insert(&mut self, flags: u16)
        ensures
            *final(self) == old(self).with(flags),
    {
        self.bits = self.bits | flags;
    }

    pub fn remove(&mut self, flags: u16)
        ensures
            *final(self) == old(self).without(flags),
    {
        self.bits = self.bits & !flags;
    }

    pub fn bits(&self) -> (b: u16)
        ensures
            b == self.bits,
    {
        self.bits
    }
}

/// One cell: its character, its colours, its flags and the zero-width characters that
/// combine with it. An unused place in `extra` holds a space.
#[derive(Clone, Copy, Debug, PartialEq, Eq)]
pub struct Cell {
    pub c: char,
    pub fg: Color,
    pub bg: Color,
    pub flags: Flags,
    pub extra: [char; 5],
}

impl Cell {
    pub open spec fn blank(c: char, fg: Color, bg: Color) -> Cell {
        Cell { c, fg, bg, flags: Flags { bits: 0 }, extra: [' ', ' ', ' ', ' ', ' '] }
    }

    /// A space in the default colours.
    pub open spec fn spec_default() -> Cell {
        Cell::blank(
            ' ',
            Color::Named(NamedColor::Foreground),
            Color::Named(NamedColor::Background),
        )
    }

    pub fn new(c: char, fg: Color, bg: Color) -> (cell: Cell)
        ensures
            cell == Cell::blank(c, fg, bg),
    {
        Cell { c, fg, bg, flags: Flags::empty(), extra: [' ', ' ', ' ', ' ', ' '] }
    }

    /// A cell shows nothing when it holds spaces only, has the default background and
    /// none of the flags that would draw something on a space.
    pub open spec fn spec_is_empty(&self) -> bool {
        &&& (self.c == ' ' || self.c == '\t')
        &&& self.extra[0] == ' '
        &&& self.bg == Color::Named(NamedColor::Background)
        &&& !self.flags.spec_intersects(INVERSE | UNDERLINE | STRIKEOUT)
    }

    #[verifier::when_used_as_spec(spec_is_empty)]
    pub fn is_empty(&self) -> (r: bool)
        ensures
            r == self.spec_is_empty(),
    {
        (self.c == ' ' || self.c == '\t') && self.extra[0] == ' ' && self.bg == Color::Named(
            NamedColor::Background,
        ) && !self.flags.intersects(INVERSE | UNDERLINE | STRIKEOUT)
    }

    /// Makes the cell a copy of the template.
    pub fn reset(&mut self, template: &Cell)
        ensures
            *final(self) == *template,
    {
        *self = *template;
    }

    /// The cell's character followed by its zero-width characters.
    pub open spec fn spec_chars(&self) -> Seq<char> {
        seq![self.c] + self.extra@
    }

    pub fn chars(&self) -> (all: [char; 6])
        ensures
            all@ == self.spec_chars(),
    {
        let all = [
            self.c,
            self.extra[0],
            self.extra[1],
            self.extra[2],
            self.extra[3],
            self.extra[4],
        ];
        assert(all@ =~= self.spec_chars());
        all
    }

    /// The index of the first unused place in `extra`, or 5 when all are used.
    pub open spec fn free_slot(&self, from: int) -> int
        decreases 5 - from,
    {
        if from >= 5 {
            5
        } else if from >= 0 && self.extra[from] == ' ' {
            from
        } else {
            self.free_slot(from + 1)
        }
    }

    /// The cell with a zero-width character in its first unused place; unchanged when
    /// no place is left.
    pub open spec fn with_extra(self, c: char) -> Cell {
        let slot = self.free_slot(0);
        if slot < 5 {
            Cell { extra: vstd::array::spec_array_update(self.extra, slot, c), ..self }
        } else {
            self
        }
    }

    /// Adds a zero-width character to the cell, if there is a place left for it.
    pub fn push_extra(&mut self, c: char)
        ensures
            *final(self) == old(self).with_extra(c),
    {
        let mut i: usize = 0;
        while i < 5
            invariant
                i <= 5,
                *self == *old(self),
                self.free_slot(0) == self.free_slot(i as int),
            decreases 5 - i,
        {
            if self.extra[i] == ' ' {
                self.extra[i] = c;
                return ;
            }
            i += 1;
        }
    }
}

impl Default for Cell {
    fn default() -> (cell: Cell)
        ensures
            cell == Cell::spec_default(),
    {
        Cell::new(
            ' ',
            Color::Named(NamedColor::Foreground),
            Color::Named(NamedColor::Background),
        )
    }
}

/// The length of a row's content: the whole row when its last cell is marked as
/// wrapped, else one past its last cell that is not blank.
pub open spec fn content_length(row: Seq<Cell>) -> int {
    if row.len() > 0 && row.last().flags.spec_contains(WRAPLINE) {
        row.len() as int
    } else {
        content_end(row, row.len() as int)
    }
}

/// One past the last cell before `upto` that holds something other than spaces.
pub open spec fn content_end(row: Seq<Cell>, upto: int) -> int
    decreases upto,
{
    if upto <= 0 {
        0
    } else if upto <= row.len() && (row[upto - 1].c != ' ' || row[upto - 1].extra[0] != ' ') {
        upto
    } else {
        content_end(row, upto - 1)
    }
}

pub fn line_length(row: &Vec<Cell>) -> (length: Column)
    ensures
        length == content_length(row@),
        length <= row@.len(),
{
    let n = row.len();
    if n > 0 && row[n - 1].flags.contains(WRAPLINE) {
        return n;
    }
    let mut upto: usize = n;
    while upto > 0
        invariant
            upto <= n,
            n == row@.len(),
            content_length(row@) == content_end(row@, n as int),
            content_end(row@, n as int) == content_end(row@, upto as int),
        decreases upto,
    {
        if row[upto - 1].c != ' ' || row[upto - 1].extra[0] != ' ' {
            return upto;
        }
        upto -= 1;
    }
    0
}

} // verus!
