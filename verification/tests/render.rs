use mux::terminal_emulator::ansi::Attr;
use mux::terminal_emulator::ansi::Color;
use mux::terminal_emulator::ansi::CursorStyle;
use mux::terminal_emulator::ansi::Mode;
use mux::terminal_emulator::ansi::NamedColor;
use mux::terminal_emulator::grid::Grid;
use mux::terminal_emulator::grid::Scroll;
use mux::terminal_emulator::grid::ViewportPosition;
use mux::terminal_emulator::index::Point;
use mux::terminal_emulator::index::RangeInclusive;
use mux::terminal_emulator::index::Side;
use mux::terminal_emulator::selection::Selection;
use mux::terminal_emulator::term::cell;
use mux::terminal_emulator::term::cell::Cell;
use mux::terminal_emulator::term::render::RenderableCell;
use mux::terminal_emulator::term::SizeInfo;
use mux::terminal_emulator::term::Term;

fn new_term(cols: usize, lines: usize) -> Term {
    Term::new(SizeInfo {
        width: cols,
        height: lines,
        cell_width: 1,
        cell_height: 1,
        padding_x: 0,
        padding_y: 0,
    })
}

fn cells(term: &Term) -> Vec<RenderableCell> {
    let mut iter = term.renderable_cells();
    let mut out = Vec::new();
    while let Some(cell) = iter.next() {
        out.push(cell);
    }
    out
}

fn type_text(term: &mut Term, text: &str) {
    for c in text.chars() {
        term.input(c);
    }
}

#[test]
fn block_cursor_on_a_blank_screen() {
    let term = new_term(3, 2);
    let drawn = cells(&term);
    assert_eq!(drawn.len(), 2);
    assert_eq!((drawn[0].line, drawn[0].column), (0, 0));
    assert_eq!(drawn[0].chars[0], ' ');
    assert_eq!(drawn[0].fg, Color::Named(NamedColor::Foreground));
    assert_eq!((drawn[1].line, drawn[1].column), (0, 0));
    assert_eq!(drawn[1].fg, Color::Named(NamedColor::CursorText));
    assert_eq!(drawn[1].bg, Color::Named(NamedColor::Cursor));
}

#[test]
fn text_and_cursor_in_reading_order() {
    let mut term = new_term(3, 2);
    type_text(&mut term, "ab");
    term.goto(1, 1);
    type_text(&mut term, "c");
    let drawn = cells(&term);
    let places: Vec<(usize, usize, char)> =
        drawn.iter().map(|c| (c.line, c.column, c.chars[0])).collect();
    assert_eq!(places, vec![(0, 0, 'a'), (0, 1, 'b'), (1, 1, 'c'), (1, 2, ' '), (1, 2, ' ')]);
}

#[test]
fn cursor_styles() {
    let mut term = new_term(2, 1);
    term.set_cursor_style(Some(CursorStyle::Beam));
    assert_eq!(cells(&term)[1].chars[0], '|');
    assert_eq!(cells(&term)[1].fg, Color::Named(NamedColor::Cursor));
    term.set_cursor_style(Some(CursorStyle::Underline));
    assert_eq!(cells(&term)[1].chars[0], '_');
    term.set_cursor_style(Some(CursorStyle::HollowBlock));
    assert_eq!(cells(&term)[1].chars[0], '█');
    term.set_cursor_style(None);
    assert_eq!(cells(&term)[1].chars[0], ' ');
    term.unset_mode(Mode::ShowCursor);
    let drawn = cells(&term);
    assert_eq!(drawn.len(), 1);
    assert_eq!(drawn[0].fg, Color::Named(NamedColor::Foreground));
}

#[test]
fn wide_cursor_takes_two_cells() {
    let mut term = new_term(4, 1);
    term.input('世');
    term.goto(0, 0);
    let drawn = cells(&term);
    let places: Vec<(usize, char)> = drawn.iter().map(|c| (c.column, c.chars[0])).collect();
    assert_eq!(places, vec![(0, '世'), (0, '世'), (1, ' ')]);
    assert_eq!(drawn[2].bg, Color::Named(NamedColor::Cursor));
    term.set_cursor_style(Some(CursorStyle::Underline));
    let drawn = cells(&term);
    assert_eq!(drawn[2].chars[0], '_');
}

#[test]
fn dim_and_bold_change_the_foreground() {
    let mut term = new_term(8, 1);
    term.unset_mode(Mode::ShowCursor);
    term.terminal_attribute(Attr::Dim);
    term.terminal_attribute(Attr::Foreground(Color::Named(NamedColor::Red)));
    term.input('a');
    term.terminal_attribute(Attr::Bold);
    term.terminal_attribute(Attr::Foreground(Color::Named(NamedColor::Foreground)));
    term.input('b');
    term.terminal_attribute(Attr::CancelBoldDim);
    term.terminal_attribute(Attr::Bold);
    term.terminal_attribute(Attr::Foreground(Color::Indexed(3)));
    term.input('c');
    term.terminal_attribute(Attr::Foreground(Color::Indexed(9)));
    term.input('d');
    term.terminal_attribute(Attr::CancelBold);
    term.terminal_attribute(Attr::Dim);
    term.input('e');
    term.terminal_attribute(Attr::Foreground(Color::Named(NamedColor::BrightBlue)));
    term.input('f');
    term.terminal_attribute(Attr::Reset);
    term.terminal_attribute(Attr::Foreground(Color::Named(NamedColor::Green)));
    term.input('g');
    term.goto(0, 7);
    let shown: Vec<Color> = cells(&term).iter().map(|c| c.fg).collect();
    assert_eq!(
        shown,
        vec![
            Color::Named(NamedColor::DimRed),
            Color::Named(NamedColor::DimForeground),
            Color::Indexed(11),
            Color::Indexed(9),
            Color::Indexed(1),
            Color::Named(NamedColor::Blue),
            Color::Named(NamedColor::Green),
            Color::Named(NamedColor::Foreground),
        ]
    );
}

#[test]
fn selected_blank_cells_are_drawn() {
    let mut term = new_term(3, 2);
    term.unset_mode(Mode::ShowCursor);
    let mut selection = Selection::simple(Point { line: 0, col: 0 }, Side::Left);
    selection.update(Point { line: 0, col: 1 }, Side::Right);
    *term.selection_mut() = Some(selection);
    let places: Vec<(usize, usize)> = cells(&term).iter().map(|c| (c.line, c.column)).collect();
    assert_eq!(places, vec![(0, 0), (1, 0), (1, 1)]);
    let iter = term.renderable_cells();
    assert_eq!(iter.selection, Some(RangeInclusive::new(3, 4)));
}

#[test]
fn scrolled_view_shows_the_history() {
    let mut term = new_term(2, 2);
    type_text(&mut term, "abcdef");
    term.scroll_display(Scroll::Top);
    let places: Vec<(usize, usize, char)> =
        cells(&term).iter().map(|c| (c.line, c.column, c.chars[0])).collect();
    assert_eq!(places, vec![(0, 0, 'a'), (0, 1, 'b'), (1, 0, 'c'), (1, 1, 'd')]);
    assert_eq!(term.grid.buffer_line_to_visible(0), ViewportPosition::Below);
    assert_eq!(term.grid.buffer_line_to_visible(1), ViewportPosition::Visible(1));
    assert_eq!(term.grid.buffer_line_to_visible(2), ViewportPosition::Visible(0));
    assert_eq!(term.grid.buffer_line_to_visible(3), ViewportPosition::Above);
}

#[test]
fn display_iterator_walks_every_cell_once() {
    let grid = Grid::new(3, 4, 0, Cell::default());
    let mut iter = grid.display_iter();
    let mut seen = Vec::new();
    while let Some(cell) = iter.next() {
        seen.push((cell.line, cell.column));
    }
    let expected: Vec<(usize, usize)> =
        (0..3).flat_map(|l| (0..4).map(move |c| (l, c))).collect();
    assert_eq!(seen, expected);
    assert!(iter.next().is_none());
}

#[test]
fn grid_iterator_goes_both_ways() {
    let mut grid = Grid::new(2, 2, 0, Cell::default());
    for (i, c) in "abcd".chars().enumerate() {
        let mut cell = *grid.cell(i / 2, i % 2);
        cell.c = c;
        grid.set_cell(i / 2, i % 2, cell);
    }
    let mut iter = grid.iter_from(Point { line: 1, col: 0 });
    assert_eq!(iter.prev().map(|c| c.c), None);
    assert_eq!(iter.next().map(|c| c.c), Some('b'));
    assert_eq!(iter.next().map(|c| c.c), Some('c'));
    assert_eq!(iter.cur, Point { line: 0, col: 0 });
    assert_eq!(iter.next().map(|c| c.c), Some('d'));
    assert_eq!(iter.next().map(|c| c.c), None);
    assert_eq!(iter.prev().map(|c| c.c), Some('c'));
    assert_eq!(iter.prev().map(|c| c.c), Some('b'));
    assert_eq!(grid.buffer_cell(&Point { line: 1, col: 1 }).c, 'b');
    assert_eq!(grid.line(1)[0].c, 'c');
    assert_eq!(grid.buffer_line(0)[1].c, 'd');
    assert_eq!(grid.line_to_offset(0), 1);
    assert!(grid.contains(&Point { line: 1, col: 1 }));
    assert!(!grid.contains(&Point { line: 2, col: 1 }));
    let flagged = Cell { flags: cell::Flags { bits: cell::BOLD }, ..Cell::default() };
    grid.reset_cells(0, 1, 2, &flagged);
    assert_eq!(*grid.cell(0, 1), flagged);
    assert_eq!(grid.cell(0, 0).c, 'a');
}
