//! The terminal: its grids, its cursor and the operations on them.

pub mod cell;
pub mod color;
pub mod editing;
pub mod handler;
pub mod laws;
pub mod modes;
pub mod render;
pub mod resize;
pub mod screens;
pub mod search;
pub mod text;

use crate::terminal_emulator::ansi::CharsetIndex;
use crate::terminal_emulator::ansi::CursorStyle;
use crate::terminal_emulator::ansi::MouseCursor;
use crate::terminal_emulator::ansi::StandardCharset;
use crate::terminal_emulator::grid::Grid;
use crate::terminal_emulator::grid::GridView;
use crate::terminal_emulator::grid::Scroll;
use crate::terminal_emulator::index::min_of;
use crate::terminal_emulator::index::Column;
use crate::terminal_emulator::index::Line;
use crate::terminal_emulator::index::Point;
use crate::terminal_emulator::mode::TermMode;
use crate::terminal_emulator::selection::Selection;
use crate::terminal_emulator::term::cell::Cell;
use core::ops::Range;
use std::time::Duration;
use std::time::Instant;
use vstd::prelude::*;

verus! {

/// `std::time::Instant`, a moment on the machine's steady clock.
#[verifier::external_type_specification]
#[verifier::external_body]
pub struct ExInstant(std::time::Instant);

/// The present moment, from `Instant::now`. Nothing is known of it.
#[verifier::external_body]
fn now() -> Instant {
    Instant::now()
}

/// The time that has passed since `earlier`, from `Instant::elapsed`. Nothing is
/// known of it.
#[verifier::external_body]
fn time_since(earlier: &Instant) -> Duration {
    earlier.elapsed()
}

/// The whole seconds of a span of time, from `Duration::as_secs`. Nothing is stated of
/// the number.
#[verifier::external_body]
fn whole_seconds(span: &Duration) -> u64 {
    span.as_secs()
}

/// The character that a charset shows for `c`. The line-drawing charset replaces the
/// characters from `` ` `` to `~` by the glyphs of the DEC special graphics set.
pub open spec fn charset_glyph(charset: StandardCharset, c: char) -> char {
    match charset {
        StandardCharset::Ascii => c,
        StandardCharset::SpecialCharacterAndLineDrawing => match c {
            '`' => '◆',
            'a' => '▒',
            'b' => '\t',
            'c' => '\u{000c}',
            'd' => '\r',
            'e' => '\n',
            'f' => '°',
            'g' => '±',
            'h' => '\u{2424}',
            'i' => '\u{000b}',
            'j' => '┘',
            'k' => '┐',
            'l' => '┌',
            'm' => '└',
            'n' => '┼',
            'o' => '⎺',
            'p' => '⎻',
            'q' => '─',
            'r' => '⎼',
            's' => '⎽',
            't' => '├',
            'u' => '┤',
            'v' => '┴',
            'w' => '┬',
            'x' => '│',
            'y' => '≤',
            'z' => '≥',
            '{' => 'π',
            '|' => '≠',
            '}' => '£',
            '~' => '·',
            _ => c,
        },
    }
}

impl StandardCharset {
    /// Maps a character to the glyph of this charset.
    pub fn map(&self, c: char) -> (glyph: char)
        ensures
            glyph == charset_glyph(*self, c),
    {
        match *self {
            StandardCharset::Ascii => c,
            StandardCharset::SpecialCharacterAndLineDrawing => match c {
                '`' => '◆',
                'a' => '▒',
                'b' => '\t',
                'c' => '\u{000c}',
                'd' => '\r',
                'e' => '\n',
                'f' => '°',
                'g' => '±',
                'h' => '\u{2424}',
                'i' => '\u{000b}',
                'j' => '┘',
                'k' => '┐',
                'l' => '┌',
                'm' => '└',
                'n' => '┼',
                'o' => '⎺',
                'p' => '⎻',
                'q' => '─',
                'r' => '⎼',
                's' => '⎽',
                't' => '├',
                'u' => '┤',
                'v' => '┴',
                'w' => '┬',
                'x' => '│',
                'y' => '≤',
                'z' => '≥',
                '{' => 'π',
                '|' => '≠',
                '}' => '£',
                '~' => '·',
                _ => c,
            },
        }
    }
}

/// The four charset slots.
#[derive(Clone, Copy, Debug, PartialEq, Eq, Structural)]
pub struct Charsets {
    pub g0: StandardCharset,
    pub g1: StandardCharset,
    pub g2: StandardCharset,
    pub g3: StandardCharset,
}

impl Charsets {
    pub open spec fn spec_get(&self, index: CharsetIndex) -> StandardCharset {
        match index {
            CharsetIndex::G0 => self.g0,
            CharsetIndex::G1 => self.g1,
            CharsetIndex::G2 => self.g2,
            CharsetIndex::G3 => self.g3,
        }
    }

    pub open spec fn with(self, index: CharsetIndex, charset: StandardCharset) -> Charsets {
        match index {
            CharsetIndex::G0 => Charsets { g0: charset, ..self },
            CharsetIndex::G1 => Charsets { g1: charset, ..self },
            CharsetIndex::G2 => Charsets { g2: charset, ..self },
            CharsetIndex::G3 => Charsets { g3: charset, ..self },
        }
    }

    /// The charset in a slot.
    #[verifier::when_used_as_spec(spec_get)]
    pub fn get(&self, index: CharsetIndex) -> (charset: StandardCharset)
        ensures
            charset == self.spec_get(index),
    {
        match index {
            CharsetIndex::G0 => self.g0,
            CharsetIndex::G1 => self.g1,
            CharsetIndex::G2 => self.g2,
            CharsetIndex::G3 => self.g3,
        }
    }

    /// Puts a charset into a slot.
    pub fn set(&mut self, index: CharsetIndex, charset: StandardCharset)
        ensures
            *final(self) == old(self).with(index, charset),
    {
        match index {
            CharsetIndex::G0 => self.g0 = charset,
            CharsetIndex::G1 => self.g1 = charset,
            CharsetIndex::G2 => self.g2 = charset,
            CharsetIndex::G3 => self.g3 = charset,
        }
    }
}

impl Default for Charsets {
    fn default() -> (c: Charsets)
        ensures
            c == Charsets::ascii(),
    {
        Charsets {
            g0: StandardCharset::Ascii,
            g1: StandardCharset::Ascii,
            g2: StandardCharset::Ascii,
            g3: StandardCharset::Ascii,
        }
    }
}

impl Charsets {
    pub open spec fn ascii() -> Charsets {
        Charsets {
            g0: StandardCharset::Ascii,
            g1: StandardCharset::Ascii,
            g2: StandardCharset::Ascii,
            g3: StandardCharset::Ascii,
        }
    }
}

/// The cursor: where it is, the cell that new characters are made from, and the
/// charsets.
#[derive(Clone, Copy, Debug, PartialEq, Eq)]
pub struct Cursor {
    pub point: Point,
    pub template: Cell,
    pub charsets: Charsets,
}

impl Cursor {
    /// The cursor at the top left, with a blank template and ASCII in every slot.
    pub open spec fn spec_default() -> Cursor {
        Cursor {
            point: Point { line: 0, col: 0 },
            template: Cell::spec_default(),
            charsets: Charsets::ascii(),
        }
    }

    pub open spec fn at(self, line: int, col: int) -> Cursor {
        Cursor { point: Point { line: line as usize, col: col as usize }, ..self }
    }

    /// The cursor moved into a grid of the given size.
    pub open spec fn clamped(self, lines: int, cols: int) -> Cursor {
        self.at(
            if self.point.line < lines - 1 {
                self.point.line as int
            } else {
                lines - 1
            },
            if self.point.col < cols - 1 {
                self.point.col as int
            } else {
                cols - 1
            },
        )
    }
}

impl Default for Cursor {
    fn default() -> (c: Cursor)
        ensures
            c == Cursor::spec_default(),
    {
        Cursor { point: Point::default(), template: Cell::default(), charsets: Charsets::default() }
    }
}

/// The visual bell: how long it rings, and when it last started.
pub struct VisualBell {
    /// How many seconds the bell rings.
    pub duration: u64,
    /// When the bell last rang, if it is still ringing.
    pub start_time: Option<Instant>,
}

impl VisualBell {
    /// A bell of one second that is not ringing.
    pub fn new() -> (bell: VisualBell)
        ensures
            bell.duration == 1,
            bell.start_time is None,
    {
        VisualBell { duration: 1, start_time: None }
    }

    /// Rings the bell.
    pub fn ring(&mut self)
        ensures
            final(self).duration == old(self).duration,
            final(self).start_time is Some,
    {
        self.start_time = Some(now());
    }

    /// Whether the bell has stopped ringing. A bell that has rung for its whole
    /// duration is stopped by this call and reported as stopped by the next.
    pub fn completed(&mut self) -> (done: bool)
        ensures
            done == (old(self).start_time is None),
            final(self).duration == old(self).duration,
            old(self).start_time is None ==> final(self).start_time is None,
            final(self).start_time is Some ==> final(self).start_time == old(self).start_time,
    {
        match self.start_time {
            Some(earlier) => {
                let elapsed = whole_seconds(&time_since(&earlier));
                self.completed_after(elapsed)
            },
            None => true,
        }
    }

    /// Whether the bell has stopped ringing, given the whole seconds that have passed
    /// since it last rang. A bell that is ringing stops exactly when those seconds
    /// reach its duration; the call that stops it still reports it as ringing.
    pub fn completed_after(&mut self, elapsed: u64) -> (done: bool)
        ensures
            done == (old(self).start_time is None),
            final(self).duration == old(self).duration,
            final(self).start_time == if elapsed >= old(self).duration {
                None
            } else {
                old(self).start_time
            },
    {
        match self.start_time {
            Some(_) => {
                if elapsed >= self.duration {
                    self.start_time = None;
                }
                false
            },
            None => true,
        }
    }
}

/// The size of the window and of its cells, in whole pixels.
#[derive(Clone, Copy, Debug, PartialEq, Eq, Structural)]
pub struct SizeInfo {
    pub width: usize,
    pub height: usize,
    pub cell_width: usize,
    pub cell_height: usize,
    pub padding_x: usize,
    pub padding_y: usize,
}

/// How many cells of size `cell` fit into `extent` with `padding` on both sides. With
/// cells of no size there is room for any number of them, if there is room at all.
pub open spec fn cells_that_fit(extent: int, padding: int, cell: int) -> int {
    let room = extent - 2 * padding;
    if room <= 0 {
        0
    } else if cell == 0 {
        usize::MAX as int
    } else {
        room / cell
    }
}

fn fit(extent: usize, padding: usize, cell: usize) -> (n: usize)
    ensures
        n == cells_that_fit(extent as int, padding as int, cell as int),
{
    if padding > extent / 2 || extent - 2 * padding == 0 {
        0
    } else if cell == 0 {
        usize::MAX
    } else {
        (extent - 2 * padding) / cell
    }
}

impl SizeInfo {
    pub open spec fn spec_lines(&self) -> int {
        cells_that_fit(self.height as int, self.padding_y as int, self.cell_height as int)
    }

    pub open spec fn spec_cols(&self) -> int {
        cells_that_fit(self.width as int, self.padding_x as int, self.cell_width as int)
    }

    /// How many lines of cells the window holds.
    pub fn lines(&self) -> (n: Line)
        ensures
            n == self.spec_lines(),
    {
        fit(self.height, self.padding_y, self.cell_height)
    }

    /// How many columns of cells the window holds.
    pub fn cols(&self) -> (n: Column)
        ensures
            n == self.spec_cols(),
    {
        fit(self.width, self.padding_x, self.cell_width)
    }

    pub open spec fn spec_contains_point(&self, x: usize, y: usize) -> bool {
        &&& self.padding_x <= x < self.width - self.padding_x
        &&& self.padding_y <= y < self.height - self.padding_y
    }

    /// Whether a pixel lies inside the padding.
    #[verifier::when_used_as_spec(spec_contains_point)]
    pub fn contains_point(&self, x: usize, y: usize) -> (r: bool)
        ensures
            r == self.spec_contains_point(x, y),
    {
        self.padding_x <= self.width && x < self.width - self.padding_x && x >= self.padding_x
            && self.padding_y <= self.height && y < self.height - self.padding_y && y
            >= self.padding_y
    }

    /// The cell of a pixel, moved onto the grid where the pixel lies outside of it.
    pub open spec fn cell_of_pixel(&self, x: usize, y: usize) -> Point {
        let col = (if x > self.padding_x {
            x - self.padding_x
        } else {
            0
        }) / self.cell_width as int;
        let line = (if y > self.padding_y {
            y - self.padding_y
        } else {
            0
        }) / self.cell_height as int;
        let last_line = if self.spec_lines() > 0 {
            self.spec_lines() - 1
        } else {
            0
        };
        let last_col = if self.spec_cols() > 0 {
            self.spec_cols() - 1
        } else {
            0
        };
        Point {
            line: (if line < last_line {
                line
            } else {
                last_line
            }) as usize,
            col: (if col < last_col {
                col
            } else {
                last_col
            }) as usize,
        }
    }

    pub fn pixels_to_coords(&self, x: usize, y: usize) -> (p: Point)
        requires
            self.cell_width > 0,
            self.cell_height > 0,
        ensures
            p == self.cell_of_pixel(x, y),
    {
        let col = (if x > self.padding_x {
            x - self.padding_x
        } else {
            0
        }) / self.cell_width;
        let line = (if y > self.padding_y {
            y - self.padding_y
        } else {
            0
        }) / self.cell_height;
        let lines = self.lines();
        let cols = self.cols();
        let last_line = if lines > 0 {
            lines - 1
        } else {
            0
        };
        let last_col = if cols > 0 {
            cols - 1
        } else {
            0
        };
        Point { line: min_of(line, last_line), col: min_of(col, last_col) }
    }
}

/// The tab stops, one flag for each column.
#[derive(Clone, Debug, PartialEq, Eq)]
pub struct TabStops {
    pub tabs: Vec<bool>,
}

/// A stop at every column that is a multiple of `tabspaces`.
pub open spec fn regular_stops(num_cols: int, tabspaces: int) -> Seq<bool> {
    Seq::new(num_cols as nat, |i: int| i % tabspaces == 0)
}

impl TabStops {
    pub fn new(num_cols: Column, tabspaces: usize) -> (stops: TabStops)
        requires
            tabspaces > 0,
        ensures
            stops.tabs@ == regular_stops(num_cols as int, tabspaces as int),
    {
        let mut tabs: Vec<bool> = Vec::new();
        let mut i: usize = 0;
        while i < num_cols
            invariant
                i <= num_cols,
                tabspaces > 0,
                tabs@ == regular_stops(i as int, tabspaces as int),
            decreases num_cols - i,
        {
            tabs.push(i % tabspaces == 0);
            proof {
                assert(tabs@ =~= regular_stops(i + 1, tabspaces as int));
            }
            i += 1;
        }
        TabStops { tabs }
    }

    /// Removes every stop.
    pub fn clear_all(&mut self)
        ensures
            final(self).tabs@ == Seq::new(old(self).tabs@.len(), |i: int| false),
    {
        let n = self.tabs.len();
        let mut i: usize = 0;
        while i < n
            invariant
                i <= n,
                n == self.tabs@.len(),
                n == old(self).tabs@.len(),
                forall|k: int| 0 <= k < i ==> !self.tabs@[k],
            decreases n - i,
        {
            self.tabs[i] = false;
            i += 1;
        }
        proof {
            assert(self.tabs@ =~= Seq::new(old(self).tabs@.len(), |i: int| false));
        }
    }

    /// Whether there is a stop at a column.
    pub fn is_set(&self, col: Column) -> (r: bool)
        requires
            col < self.tabs@.len(),
        ensures
            r == self.tabs@[col as int],
    {
        self.tabs[col]
    }

    /// Sets or removes the stop at a column.
    pub fn set(&mut self, col: Column, stop: bool)
        requires
            col < old(self).tabs@.len(),
        ensures
            final(self).tabs@ == old(self).tabs@.update(col as int, stop),
    {
        self.tabs[col] = stop;
    }
}

/// The terminal as a value.
pub struct TermView {
    pub grid: GridView,
    pub alt_grid: GridView,
    pub alt: bool,
    pub input_needs_wrap: bool,
    pub next_title: Option<Seq<char>>,
    pub next_mouse_cursor: Option<MouseCursor>,
    pub cursor: Cursor,
    pub active_charset: CharsetIndex,
    pub tabs: Seq<bool>,
    pub mode: TermMode,
    pub scroll_region: Range<Line>,
    pub size_info: SizeInfo,
    pub dirty: bool,
    pub bell_ringing: bool,
    /// How many seconds the visual bell rings.
    pub bell_duration: u64,
    pub next_is_urgent: Option<bool>,
    pub cursor_save: Cursor,
    pub cursor_save_alt: Cursor,
    pub semantic_escape_chars: Seq<char>,
    pub cursor_style: Option<CursorStyle>,
    pub default_cursor_style: CursorStyle,
    pub dynamic_title: bool,
    pub tabspaces: int,
    pub auto_scroll: bool,
    pub should_exit: bool,
}

impl TermView {
    /// Both grids are well formed and of the same size, which is at least one cell;
    /// the cursor and both saved cursors are on the grid; there is a tab flag for each
    /// column; and the scroll region ends on the grid.
    pub open spec fn wf(self) -> bool {
        &&& self.grid.wf()
        &&& self.alt_grid.wf()
        &&& self.grid.lines >= 1
        &&& self.grid.cols >= 1
        &&& self.alt_grid.lines == self.grid.lines
        &&& self.alt_grid.cols == self.grid.cols
        &&& self.cursor.point.line < self.grid.lines
        &&& self.cursor.point.col < self.grid.cols
        &&& self.cursor_save.point.line < self.grid.lines
        &&& self.cursor_save.point.col < self.grid.cols
        &&& self.cursor_save_alt.point.line < self.grid.lines
        &&& self.cursor_save_alt.point.col < self.grid.cols
        &&& self.tabs.len() == self.grid.cols
        &&& self.scroll_region.start <= self.grid.lines
        &&& self.scroll_region.end <= self.grid.lines
        &&& self.tabspaces > 0
    }

    pub open spec fn lines(self) -> int {
        self.grid.lines
    }

    pub open spec fn cols(self) -> int {
        self.grid.cols
    }

    pub open spec fn line(self) -> int {
        self.cursor.point.line as int
    }

    pub open spec fn col(self) -> int {
        self.cursor.point.col as int
    }

    /// The row under the cursor.
    pub open spec fn row(self) -> Seq<Cell> {
        self.grid.row(self.line())
    }

    /// The terminal with the cursor moved; its template and charsets stay.
    pub open spec fn cursor_at(self, line: int, col: int) -> TermView {
        TermView { cursor: self.cursor.at(line, col), ..self }
    }

    /// The terminal with another row under the cursor.
    pub open spec fn with_row(self, row: Seq<Cell>) -> TermView {
        TermView { grid: self.grid.with_row(self.line(), row), ..self }
    }
}

/// The terminal.
pub struct Term {
    /// The grid that is shown.
    pub grid: Grid,
    /// Whether the next character has to wrap to the next line first. It is set when a
    /// character is written into the last column.
    pub input_needs_wrap: bool,
    /// The title that was asked for since it was last taken.
    pub next_title: Option<String>,
    /// The mouse pointer that was asked for since it was last taken.
    pub next_mouse_cursor: Option<MouseCursor>,
    /// The grid that is not shown.
    pub alt_grid: Grid,
    /// Whether the alternate screen is shown.
    pub alt: bool,
    pub cursor: Cursor,
    /// The charset slot in use.
    pub active_charset: CharsetIndex,
    pub tabs: TabStops,
    pub mode: TermMode,
    /// The lines that scrolling acts on: from `start` up to, not including, `end`.
    pub scroll_region: Range<Line>,
    pub size_info: SizeInfo,
    pub dirty: bool,
    pub visual_bell: VisualBell,
    pub next_is_urgent: Option<bool>,
    /// The cursor saved on the primary screen.
    pub cursor_save: Cursor,
    /// The cursor saved on the alternate screen.
    pub cursor_save_alt: Cursor,
    /// The characters that end a word for a semantic selection.
    pub semantic_escape_chars: String,
    pub cursor_style: Option<CursorStyle>,
    pub default_cursor_style: CursorStyle,
    pub dynamic_title: bool,
    /// The distance between the regular tab stops.
    pub tabspaces: usize,
    /// Whether the view goes back to the screen when a character arrives.
    pub auto_scroll: bool,
    pub should_exit: bool,
}

/// The text of an optional string.
pub open spec fn title_text(title: Option<String>) -> Option<Seq<char>> {
    match title {
        Some(t) => Some(t@),
        None => None,
    }
}

impl View for Term {
    type V = TermView;

    open spec fn view(&self) -> TermView {
        TermView {
            grid: self.grid@,
            alt_grid: self.alt_grid@,
            alt: self.alt,
            input_needs_wrap: self.input_needs_wrap,
            next_title: title_text(self.next_title),
            next_mouse_cursor: self.next_mouse_cursor,
            cursor: self.cursor,
            active_charset: self.active_charset,
            tabs: self.tabs.tabs@,
            mode: self.mode,
            scroll_region: self.scroll_region,
            size_info: self.size_info,
            dirty: self.dirty,
            bell_ringing: self.visual_bell.start_time is Some,
            bell_duration: self.visual_bell.duration,
            next_is_urgent: self.next_is_urgent,
            cursor_save: self.cursor_save,
            cursor_save_alt: self.cursor_save_alt,
            semantic_escape_chars: self.semantic_escape_chars@,
            cursor_style: self.cursor_style,
            default_cursor_style: self.default_cursor_style,
            dynamic_title: self.dynamic_title,
            tabspaces: self.tabspaces as int,
            auto_scroll: self.auto_scroll,
            should_exit: self.should_exit,
        }
    }
}

impl Term {
    /// The terminal is well formed, and so are its grids.
    pub open spec fn wf(&self) -> bool {
        &&& self@.wf()
        &&& self.grid.wf()
        &&& self.alt_grid.wf()
    }

    /// A terminal of the size that `size` gives, with 1024 lines of history on the
    /// primary screen, none on the alternate one, and a tab stop every four columns.
    pub fn new(size: SizeInfo) -> (term: Term)
        requires
            1 <= size.spec_lines(),
            size.spec_lines() + 1024 <= isize::MAX,
            1 <= size.spec_cols(),
        ensures
            term.wf(),
            term@.grid == (GridView {
                rows: Seq::new(
                    size.spec_lines() as nat,
                    |i: int|
                        crate::terminal_emulator::grid::blank_row(
                            size.spec_cols(),
                            Cell::spec_default(),
                        ),
                ),
                lines: size.spec_lines(),
                cols: size.spec_cols(),
                display_offset: 0,
                max_scroll_limit: 1024,
                selection: None,
            }),
            term@.alt_grid == (GridView { max_scroll_limit: 0, ..term@.grid }),
            !term@.alt,
            !term@.input_needs_wrap,
            term@.next_title is None,
            term@.next_mouse_cursor is None,
            term@.cursor == Cursor::spec_default(),
            term@.cursor_save == Cursor::spec_default(),
            term@.cursor_save_alt == Cursor::spec_default(),
            term@.active_charset == CharsetIndex::G0,
            term@.tabs == regular_stops(size.spec_cols(), 4),
            term@.mode == (TermMode {
                bits: crate::terminal_emulator::mode::SHOW_CURSOR
                    | crate::terminal_emulator::mode::LINE_WRAP,
            }),
            term@.scroll_region == (Range::<Line> { start: 0, end: size.spec_lines() as usize }),
            term@.size_info == size,
            !term@.dirty,
            !term@.bell_ringing,
            term@.bell_duration == 1,
            term@.next_is_urgent is None,
            term@.semantic_escape_chars == Seq::<char>::empty(),
            term@.cursor_style is None,
            term@.default_cursor_style == CursorStyle::Block,
            term@.dynamic_title,
            term@.tabspaces == 4,
            term@.auto_scroll,
            !term@.should_exit,
    {
        let num_cols = size.cols();
        let num_lines = size.lines();
        let history_size: usize = 1024;
        let grid = Grid::new(num_lines, num_cols, history_size, Cell::default());
        let alt = Grid::new(num_lines, num_cols, 0, Cell::default());
        let tabspaces: usize = 4;
        let tabs = TabStops::new(num_cols, tabspaces);
        let scroll_region = Range::<Line> { start: 0, end: num_lines };
        Term {
            next_title: None,
            next_mouse_cursor: None,
            dirty: false,
            visual_bell: VisualBell::new(),
            next_is_urgent: None,
            input_needs_wrap: false,
            grid,
            alt_grid: alt,
            alt: false,
            active_charset: CharsetIndex::default(),
            cursor: Cursor::default(),
            cursor_save: Cursor::default(),
            cursor_save_alt: Cursor::default(),
            tabs,
            mode: TermMode::default(),
            scroll_region,
            size_info: size,
            semantic_escape_chars: String::new(),
            cursor_style: None,
            default_cursor_style: CursorStyle::Block,
            dynamic_title: true,
            tabspaces,
            auto_scroll: true,
            should_exit: false,
        }
    }

    pub fn selection(&self) -> (selection: &Option<Selection>)
        ensures
            *selection == self@.grid.selection,
    {
        &self.grid.selection
    }

    /// The selection, to be changed in place.
    pub fn selection_mut(&mut self) -> (selection: &mut Option<Selection>)
        ensures
            *selection == old(self).grid.selection,
            *final(self) == (Term {
                grid: Grid { selection: *final(selection), ..old(self).grid },
                ..*old(self)
            }),
    {
        &mut self.grid.selection
    }

    /// The grid that is shown, to be changed in place. The terminal is well formed
    /// afterwards only if the grid is given back well formed and in its size.
    pub fn grid_mut(&mut self) -> (grid: &mut Grid)
        ensures
            *grid == old(self).grid,
            *final(self) == (Term { grid: *final(grid), ..*old(self) }),
    {
        &mut self.grid
    }

    /// Takes the title that was asked for, if any.
    pub fn get_next_title(&mut self) -> (title: Option<String>)
        ensures
            title_text(title) == old(self)@.next_title,
            final(self)@ == (TermView { next_title: None, ..old(self)@ }),
            old(self).wf() ==> final(self).wf(),
    {
        self.next_title.take()
    }

    /// Takes the mouse pointer that was asked for, if any.
    pub fn get_next_mouse_cursor(&mut self) -> (cursor: Option<MouseCursor>)
        ensures
            cursor == old(self)@.next_mouse_cursor,
            final(self)@ == (TermView { next_mouse_cursor: None, ..old(self)@ }),
            old(self).wf() ==> final(self).wf(),
    {
        self.next_mouse_cursor.take()
    }

    /// Moves the view over the scrollback and asks for a redraw.
    pub fn scroll_display(&mut self, scroll: Scroll)
        requires
            old(self).wf(),
        ensures
            final(self)@ == (TermView {
                grid: old(self)@.grid.display_scrolled(scroll),
                dirty: true,
                ..old(self)@
            }),
            final(self).wf(),
    {
        self.grid.scroll_display(scroll);
        self.dirty = true;
    }

    pub fn needs_draw(&self) -> (dirty: bool)
        ensures
            dirty == self@.dirty,
    {
        self.dirty
    }

    /// The cell of a pixel, if the pixel lies inside the padding.
    pub fn pixels_to_coords(&self, x: usize, y: usize) -> (p: Option<Point>)
        requires
            self.size_info.cell_width > 0,
            self.size_info.cell_height > 0,
        ensures
            p == if self@.size_info.spec_contains_point(x, y) {
                Some(self@.size_info.cell_of_pixel(x, y))
            } else {
                None
            },
    {
        if self.size_info.contains_point(x, y) {
            Some(self.size_info.pixels_to_coords(x, y))
        } else {
            None
        }
    }

    pub fn grid(&self) -> (grid: &Grid)
        ensures
            grid == &self.grid,
    {
        &self.grid
    }

    pub fn size_info(&self) -> (size: &SizeInfo)
        ensures
            *size == self@.size_info,
    {
        &self.size_info
    }

    pub fn mode(&self) -> (mode: &TermMode)
        ensures
            *mode == self@.mode,
    {
        &self.mode
    }

    pub fn cursor(&self) -> (cursor: &Cursor)
        ensures
            *cursor == self@.cursor,
    {
        &self.cursor
    }

    /// Asks the owner of the terminal to close it.
    pub fn exit(&mut self)
        ensures
            final(self)@ == (TermView { should_exit: true, ..old(self)@ }),
            old(self).wf() ==> final(self).wf(),
    {
        self.should_exit = true;
    }

    pub fn should_exit(&self) -> (r: bool)
        ensures
            r == self@.should_exit,
    {
        self.should_exit
    }

    /// The number of lines of the screen.
    pub fn lines(&self) -> (n: Line)
        ensures
            n == self@.grid.lines,
    {
        self.grid.num_lines()
    }

    /// The number of columns of the screen.
    pub fn cols(&self) -> (n: Column)
        ensures
            n == self@.grid.cols,
    {
        self.grid.num_cols()
    }

    /// The size of the screen: its number of lines and of columns.
    pub fn dimensions(&self) -> (p: Point)
        ensures
            p == (Point { line: self.grid.lines, col: self.grid.cols }),
    {
        Point { line: self.grid.num_lines(), col: self.grid.num_cols() }
    }
}

} // verus!
