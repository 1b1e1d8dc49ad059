use mux::terminal_emulator::ansi::Attr;
use mux::terminal_emulator::ansi::CharsetIndex;
use mux::terminal_emulator::ansi::ClearMode;
use mux::terminal_emulator::ansi::Color;
use mux::terminal_emulator::ansi::CursorStyle;
use mux::terminal_emulator::ansi::LineClearMode;
use mux::terminal_emulator::ansi::Mode;
use mux::terminal_emulator::ansi::MouseCursor;
use mux::terminal_emulator::ansi::NamedColor;
use mux::terminal_emulator::ansi::StandardCharset;
use mux::terminal_emulator::ansi::TabulationClearMode;
use mux::terminal_emulator::grid::Grid;
use mux::terminal_emulator::grid::Scroll;
use mux::terminal_emulator::index::Point;
use mux::terminal_emulator::index::Side;
use mux::terminal_emulator::mode;
use mux::terminal_emulator::selection::Selection;
use mux::terminal_emulator::term::cell;
use mux::terminal_emulator::term::cell::Cell;
use mux::terminal_emulator::term::color::Rgb;
use mux::terminal_emulator::term::search::Search;
use mux::terminal_emulator::term::SizeInfo;
use mux::terminal_emulator::term::Term;
use mux::terminal_emulator::term::VisualBell;
use std::mem;

fn size(width: usize, height: usize, cell_width: usize, cell_height: usize) -> SizeInfo {
    SizeInfo { width, height, cell_width, cell_height, padding_x: 0, padding_y: 0 }
}

fn term(cols: usize, lines: usize) -> Term {
    Term::new(size(cols, lines, 1, 1))
}

fn set_char(grid: &mut Grid, line: usize, col: usize, c: char) {
    let mut cell = *grid.cell(line, col);
    cell.c = c;
    grid.set_cell(line, col, cell);
}

fn set_flag(grid: &mut Grid, line: usize, col: usize, flag: u16) {
    let mut cell = *grid.cell(line, col);
    cell.flags.insert(flag);
    grid.set_cell(line, col, cell);
}

fn feed(term: &mut Term, text: &str) {
    for c in text.chars() {
        term.input(c);
    }
}

fn row_text(term: &Term, line: usize) -> String {
    (0..term.cols()).map(|col| term.grid().cell(line, col).c).collect()
}

fn assert_well_formed(term: &Term) {
    let lines = term.lines();
    let cols = term.cols();
    assert!(term.cursor().point.line < lines);
    assert!(term.cursor().point.col < cols);
    assert!(term.cursor_save.point.line < lines);
    assert!(term.cursor_save.point.col < cols);
    assert!(term.cursor_save_alt.point.line < lines);
    assert!(term.cursor_save_alt.point.col < cols);
    assert_eq!(term.grid.lines, lines);
    assert_eq!(term.grid.cols, cols);
    assert_eq!(term.alt_grid.lines, lines);
    assert_eq!(term.alt_grid.cols, cols);
    for row in term.grid.raw.iter() {
        assert_eq!(row.len(), cols);
    }
    for row in term.alt_grid.raw.iter() {
        assert_eq!(row.len(), cols);
    }
    assert_eq!(term.tabs.tabs.len(), cols);
}

#[test]
fn semantic_selection_works() {
    let size = SizeInfo {
        width: 21,
        height: 51,
        cell_width: 3,
        cell_height: 3,
        padding_x: 0,
        padding_y: 0,
    };
    let mut term = Term::new(size);
    let mut grid: Grid = Grid::new(3, 5, 0, Cell::default());
    for i in 0..5 {
        for j in 0..2 {
            set_char(&mut grid, j, i, 'a');
        }
    }
    set_char(&mut grid, 0, 0, '"');
    set_char(&mut grid, 0, 3, '"');
    set_char(&mut grid, 1, 2, '"');
    set_flag(&mut grid, 0, 4, cell::WRAPLINE);

    let mut escape_chars = String::from("\"");

    mem::swap(&mut term.grid, &mut grid);
    mem::swap(&mut term.semantic_escape_chars, &mut escape_chars);

    {
        *term.selection_mut() = Some(Selection::semantic(Point { line: 2, col: 1 }));
        assert_eq!(term.selection_to_string(), Some(String::from("aa")));
    }

    {
        *term.selection_mut() = Some(Selection::semantic(Point { line: 2, col: 4 }));
        assert_eq!(term.selection_to_string(), Some(String::from("aaa")));
    }

    {
        *term.selection_mut() = Some(Selection::semantic(Point { line: 1, col: 1 }));
        assert_eq!(term.selection_to_string(), Some(String::from("aaa")));
    }
}

#[test]
fn line_selection_works() {
    let size = SizeInfo {
        width: 21,
        height: 51,
        cell_width: 3,
        cell_height: 3,
        padding_x: 0,
        padding_y: 0,
    };
    let mut term = Term::new(size);
    let mut grid: Grid = Grid::new(1, 5, 0, Cell::default());
    for i in 0..5 {
        set_char(&mut grid, 0, i, 'a');
    }
    set_char(&mut grid, 0, 0, '"');
    set_char(&mut grid, 0, 3, '"');

    mem::swap(&mut term.grid, &mut grid);

    *term.selection_mut() = Some(Selection::lines(Point { line: 0, col: 3 }));
    assert_eq!(term.selection_to_string(), Some(String::from("\"aa\"a\n")));
}

#[test]
fn selecting_empty_line() {
    let size = SizeInfo {
        width: 21,
        height: 51,
        cell_width: 3,
        cell_height: 3,
        padding_x: 0,
        padding_y: 0,
    };
    let mut term = Term::new(size);
    let mut grid: Grid = Grid::new(3, 3, 0, Cell::default());
    for l in 0..3 {
        if l != 1 {
            for c in 0..3 {
                set_char(&mut grid, l, c, 'a');
            }
        }
    }

    mem::swap(&mut term.grid, &mut grid);

    let mut selection = Selection::simple(Point { line: 2, col: 0 }, Side::Left);
    selection.update(Point { line: 0, col: 2 }, Side::Right);
    *term.selection_mut() = Some(selection);
    assert_eq!(term.selection_to_string(), Some("aaa\n\naaa\n".into()));
}

#[test]
fn input_line_drawing_character() {
    let size = SizeInfo {
        width: 21,
        height: 51,
        cell_width: 3,
        cell_height: 3,
        padding_x: 0,
        padding_y: 0,
    };
    let mut term = Term::new(size);
    let cursor = Point::new(0, 0);
    term.configure_charset(CharsetIndex::G0, StandardCharset::SpecialCharacterAndLineDrawing);
    term.input('a');

    assert_eq!(term.grid().cell(cursor.line, cursor.col).c, '▒');
}

#[test]
fn clear_saved_lines() {
    let size = SizeInfo {
        width: 21,
        height: 51,
        cell_width: 3,
        cell_height: 3,
        padding_x: 0,
        padding_y: 0,
    };
    let mut term: Term = Term::new(size);

    // Add one line of scrollback
    term.grid.scroll_up(0, 1, 1, &Cell::default());
    assert_eq!(term.grid.scroll_limit(), 1);

    // Clear the history
    term.clear_screen(ClearMode::Saved);

    // Make sure that scrolling does not change the grid
    let mut scrolled_grid = term.grid.clone();
    scrolled_grid.scroll_display(Scroll::Top);
    assert_eq!(term.grid, scrolled_grid);
}

#[test]
fn size_info_counts_cells() {
    let info = size(21, 51, 3, 3);
    assert_eq!(info.cols(), 7);
    assert_eq!(info.lines(), 17);
    let padded =
        SizeInfo { width: 21, height: 51, cell_width: 3, cell_height: 3, padding_x: 3, padding_y: 6 };
    assert_eq!(padded.cols(), 5);
    assert_eq!(padded.lines(), 13);
    assert!(padded.contains_point(3, 6));
    assert!(!padded.contains_point(2, 6));
    assert!(!padded.contains_point(18, 6));
    assert!(padded.contains_point(17, 44));
    assert!(!padded.contains_point(17, 45));
    assert_eq!(padded.pixels_to_coords(10, 20), Point { line: 4, col: 2 });
    assert_eq!(padded.pixels_to_coords(1000, 1000), Point { line: 12, col: 4 });
    assert_eq!(padded.pixels_to_coords(0, 0), Point { line: 0, col: 0 });
    let none = SizeInfo { width: 4, height: 4, cell_width: 1, cell_height: 1, padding_x: 2, padding_y: 3 };
    assert_eq!(none.cols(), 0);
    assert_eq!(none.lines(), 0);
}

#[test]
fn new_terminal_is_blank() {
    let term = term(7, 17);
    assert_eq!(term.lines(), 17);
    assert_eq!(term.cols(), 7);
    assert_eq!(term.dimensions(), Point { line: 17, col: 7 });
    assert_eq!(term.cursor().point, Point { line: 0, col: 0 });
    assert_eq!(*term.mode(), mode::TermMode { bits: mode::SHOW_CURSOR | mode::LINE_WRAP });
    assert_eq!(term.scroll_region, 0..17);
    assert_eq!(term.tabs.tabs, vec![true, false, false, false, true, false, false]);
    assert_eq!(term.grid.max_scroll_limit, 1024);
    assert_eq!(term.alt_grid.max_scroll_limit, 0);
    assert!(!term.needs_draw());
    assert!(!term.should_exit());
    assert!(term.selection().is_none());
    assert_eq!(*term.grid().cell(3, 3), Cell::default());
    assert_well_formed(&term);
}

#[test]
fn wrap_and_linefeed_on_a_small_grid() {
    let mut term = term(4, 3);
    feed(&mut term, "abcd");
    assert_eq!(term.cursor().point, Point { line: 0, col: 3 });
    assert!(term.input_needs_wrap);
    feed(&mut term, "e");
    assert_eq!(row_text(&term, 0), "abcd");
    assert!(term.grid().cell(0, 3).flags.contains(cell::WRAPLINE));
    assert!(!term.grid().cell(0, 2).flags.contains(cell::WRAPLINE));
    assert_eq!(term.grid().cell(1, 0).c, 'e');
    assert_eq!(term.cursor().point, Point { line: 1, col: 1 });
    assert!(!term.input_needs_wrap);
    assert_well_formed(&term);
}

#[test]
fn typing_a_full_line_stops_at_the_margin() {
    for cols in 1..6 {
        let mut term = term(cols, 3);
        term.goto(1, 0);
        for i in 0..cols {
            assert_eq!(term.cursor().point, Point { line: 1, col: i });
            assert!(!term.input_needs_wrap);
            term.input('x');
        }
        assert_eq!(term.cursor().point, Point { line: 1, col: cols - 1 });
        assert!(term.input_needs_wrap);
        term.input('y');
        assert_eq!(term.cursor().point.line, 2);
        assert_eq!(term.grid().cell(2, 0).c, 'y');
        assert!(term.grid().cell(1, cols - 1).flags.contains(cell::WRAPLINE));
        assert_well_formed(&term);
    }
}

#[test]
fn no_wrap_without_line_wrap_mode() {
    let mut term = term(3, 2);
    term.unset_mode(Mode::LineWrap);
    feed(&mut term, "abcd");
    assert_eq!(row_text(&term, 0), "abc");
    assert_eq!(row_text(&term, 1), "   ");
    assert_eq!(term.cursor().point, Point { line: 0, col: 2 });
    assert!(term.input_needs_wrap);
}

#[test]
fn wrap_at_the_bottom_scrolls_into_history() {
    let mut term = term(2, 2);
    feed(&mut term, "abcdef");
    assert_eq!(term.grid.scroll_limit(), 1);
    assert_eq!(row_text(&term, 0), "cd");
    assert_eq!(row_text(&term, 1), "ef");
    let oldest: String = term.grid.raw[0].iter().map(|c| c.c).collect();
    assert_eq!(oldest, "ab");
    assert_eq!(term.cursor().point, Point { line: 1, col: 1 });
    assert!(term.input_needs_wrap);
    assert_well_formed(&term);
}

#[test]
fn history_is_limited() {
    let mut grid = Grid::new(2, 1, 3, Cell::default());
    for i in 0..10u8 {
        set_char(&mut grid, 1, 0, (b'a' + i) as char);
        grid.scroll_up(0, 2, 1, &Cell::default());
    }
    assert_eq!(grid.scroll_limit(), 3);
    assert_eq!(grid.len(), 5);
    let column: String = grid.raw.iter().map(|row| row[0].c).collect();
    assert_eq!(column, "ghij ");
}

#[test]
fn scrolling_keeps_a_scrolled_view_in_place() {
    let mut grid = Grid::new(2, 1, 10, Cell::default());
    grid.scroll_up(0, 2, 2, &Cell::default());
    grid.scroll_display(Scroll::Lines(1));
    assert_eq!(grid.display_offset, 1);
    grid.scroll_up(0, 2, 1, &Cell::default());
    assert_eq!(grid.display_offset, 2);
    grid.scroll_display(Scroll::Lines(100));
    assert_eq!(grid.display_offset, 3);
    grid.scroll_display(Scroll::PageDown);
    assert_eq!(grid.display_offset, 1);
    grid.scroll_display(Scroll::PageUp);
    assert_eq!(grid.display_offset, 3);
    grid.scroll_display(Scroll::Lines(-1));
    assert_eq!(grid.display_offset, 2);
    grid.scroll_display(Scroll::Bottom);
    assert_eq!(grid.display_offset, 0);
    grid.scroll_display(Scroll::Top);
    assert_eq!(grid.display_offset, 3);
    grid.scroll_display(Scroll::Lines(isize::MIN));
    assert_eq!(grid.display_offset, 0);
}

#[test]
fn selection_follows_the_text() {
    let mut grid = Grid::new(3, 2, 10, Cell::default());
    grid.selection = Some(Selection::semantic(Point { line: 1, col: 0 }));
    grid.scroll_up(0, 3, 2, &Cell::default());
    assert_eq!(grid.selection, Some(Selection::semantic(Point { line: 3, col: 0 })));
    grid.scroll_down(0, 3, 1, &Cell::default());
    assert_eq!(grid.selection, Some(Selection::semantic(Point { line: 2, col: 0 })));
    grid.scroll_up(1, 3, 1, &Cell::default());
    assert_eq!(grid.selection, Some(Selection::semantic(Point { line: 2, col: 0 })));
}

#[test]
fn cursor_movement_is_clamped() {
    let mut term = term(10, 5);
    term.goto(100, 100);
    assert_eq!(term.cursor().point, Point { line: 4, col: 9 });
    term.move_up(2);
    assert_eq!(term.cursor().point, Point { line: 2, col: 9 });
    term.move_up(10);
    assert_eq!(term.cursor().point, Point { line: 0, col: 9 });
    term.move_down(3);
    assert_eq!(term.cursor().point, Point { line: 3, col: 9 });
    term.move_down(usize::MAX);
    assert_eq!(term.cursor().point, Point { line: 4, col: 9 });
    term.move_backward(4);
    assert_eq!(term.cursor().point, Point { line: 4, col: 5 });
    term.move_backward(40);
    assert_eq!(term.cursor().point, Point { line: 4, col: 0 });
    term.move_forward(3);
    assert_eq!(term.cursor().point, Point { line: 4, col: 3 });
    term.move_forward(usize::MAX);
    assert_eq!(term.cursor().point, Point { line: 4, col: 9 });
    term.goto_line(1);
    assert_eq!(term.cursor().point, Point { line: 1, col: 9 });
    term.goto_col(2);
    assert_eq!(term.cursor().point, Point { line: 1, col: 2 });
    term.move_down_and_cr(2);
    assert_eq!(term.cursor().point, Point { line: 3, col: 0 });
    term.goto_col(5);
    term.move_up_and_cr(1);
    assert_eq!(term.cursor().point, Point { line: 2, col: 0 });
    term.backspace();
    assert_eq!(term.cursor().point, Point { line: 2, col: 0 });
    term.goto_col(4);
    term.backspace();
    assert_eq!(term.cursor().point, Point { line: 2, col: 3 });
    term.carriage_return();
    assert_eq!(term.cursor().point, Point { line: 2, col: 0 });
    assert_well_formed(&term);
}

#[test]
fn moving_the_cursor_cancels_a_pending_wrap() {
    let mut term = term(2, 2);
    feed(&mut term, "ab");
    assert!(term.input_needs_wrap);
    term.carriage_return();
    assert!(!term.input_needs_wrap);
    feed(&mut term, "cd");
    assert!(term.input_needs_wrap);
    term.goto(0, 1);
    assert!(!term.input_needs_wrap);
    assert_eq!(row_text(&term, 0), "cd");
}

#[test]
fn origin_mode_counts_from_the_scroll_region() {
    let mut term = term(10, 10);
    term.set_scrolling_region(2..6);
    assert_eq!(term.cursor().point, Point { line: 0, col: 0 });
    term.set_mode(Mode::Origin);
    term.goto(0, 0);
    assert_eq!(term.cursor().point, Point { line: 2, col: 0 });
    term.goto(2, 3);
    assert_eq!(term.cursor().point, Point { line: 4, col: 3 });
    term.goto(100, 3);
    assert_eq!(term.cursor().point, Point { line: 5, col: 3 });
    term.unset_mode(Mode::Origin);
    term.goto(100, 3);
    assert_eq!(term.cursor().point, Point { line: 9, col: 3 });
    term.set_scrolling_region(3..100);
    assert_eq!(term.scroll_region, 3..10);
}

#[test]
fn linefeed_scrolls_at_the_end_of_the_region() {
    let mut term = term(1, 4);
    for (line, c) in "abcd".chars().enumerate() {
        set_char(&mut term.grid, line, 0, c);
    }
    term.set_scrolling_region(1..3);
    term.goto(2, 0);
    term.linefeed();
    assert_eq!(term.cursor().point.line, 2);
    let column: String = (0..4).map(|l| term.grid().cell(l, 0).c).collect();
    assert_eq!(column, "ac d");
    assert_eq!(term.grid.scroll_limit(), 0);
    term.goto(3, 0);
    term.linefeed();
    assert_eq!(term.cursor().point.line, 3);
    term.goto(0, 0);
    term.linefeed();
    assert_eq!(term.cursor().point.line, 1);
    term.reverse_index();
    let column: String = (0..4).map(|l| term.grid().cell(l, 0).c).collect();
    assert_eq!(column, "a cd");
    assert_eq!(term.cursor().point.line, 1);
    term.goto(3, 0);
    term.reverse_index();
    assert_eq!(term.cursor().point.line, 2);
    term.goto(0, 0);
    term.reverse_index();
    assert_eq!(term.cursor().point.line, 0);
}

#[test]
fn newline_returns_the_carriage_in_new_line_mode() {
    let mut term = term(4, 3);
    term.goto(0, 2);
    term.newline();
    assert_eq!(term.cursor().point, Point { line: 1, col: 2 });
    term.set_mode(Mode::LineFeedNewLine);
    term.newline();
    assert_eq!(term.cursor().point, Point { line: 2, col: 0 });
}

#[test]
fn inserting_and_deleting_lines() {
    let mut term = term(1, 5);
    for (line, c) in "abcde".chars().enumerate() {
        set_char(&mut term.grid, line, 0, c);
    }
    let column = |term: &Term| -> String { (0..5).map(|l| term.grid().cell(l, 0).c).collect() };
    term.set_scrolling_region(1..4);
    term.goto(2, 0);
    term.insert_blank_lines(1);
    assert_eq!(column(&term), "ab ce");
    term.delete_lines(1);
    assert_eq!(column(&term), "abc e");
    term.insert_blank_lines(100);
    assert_eq!(column(&term), "ab  e");
    term.goto(4, 0);
    term.insert_blank_lines(1);
    term.delete_lines(1);
    assert_eq!(column(&term), "ab  e");
    term.goto(1, 0);
    term.delete_lines(100);
    assert_eq!(column(&term), "a   e");
    term.scroll_down(1);
    term.scroll_up(5);
    assert_eq!(column(&term), "a   e");
    assert_eq!(term.grid.scroll_limit(), 0);
}

#[test]
fn scrolling_the_whole_screen_fills_the_history() {
    let mut term = term(1, 3);
    for (line, c) in "abc".chars().enumerate() {
        set_char(&mut term.grid, line, 0, c);
    }
    term.scroll_up(2);
    let column: String = (0..3).map(|l| term.grid().cell(l, 0).c).collect();
    assert_eq!(column, "c  ");
    assert_eq!(term.grid.scroll_limit(), 2);
    term.scroll_down(1);
    let column: String = (0..3).map(|l| term.grid().cell(l, 0).c).collect();
    assert_eq!(column, " c ");
    assert_eq!(term.grid.scroll_limit(), 2);
    assert_well_formed(&term);
}

#[test]
fn editing_within_a_line() {
    let mut term = term(6, 1);
    feed(&mut term, "abcdef");
    term.goto(0, 1);
    term.insert_blank(2);
    assert_eq!(row_text(&term, 0), "a  bcd");
    term.delete_chars(1);
    assert_eq!(row_text(&term, 0), "a bcd ");
    term.erase_chars(3);
    assert_eq!(row_text(&term, 0), "a   d ");
    term.goto(0, 4);
    term.insert_blank(100);
    assert_eq!(row_text(&term, 0), "a     ");
    feed(&mut term, "xy");
    term.goto(0, 0);
    term.delete_chars(1);
    assert_eq!(row_text(&term, 0), "   xy ");
    term.erase_chars(usize::MAX);
    assert_eq!(row_text(&term, 0), "      ");
}

#[test]
fn insert_mode_shifts_the_line() {
    let mut term = term(5, 1);
    feed(&mut term, "abc");
    term.goto(0, 1);
    term.set_mode(Mode::Insert);
    feed(&mut term, "X");
    assert_eq!(row_text(&term, 0), "aXbc ");
    assert_eq!(term.cursor().point.col, 2);
    term.unset_mode(Mode::Insert);
    feed(&mut term, "Y");
    assert_eq!(row_text(&term, 0), "aXYc ");
}

#[test]
fn wide_and_zero_width_characters() {
    let mut term = term(4, 2);
    term.input('世');
    assert_eq!(term.grid().cell(0, 0).c, '世');
    assert!(term.grid().cell(0, 0).flags.contains(cell::WIDE_CHAR));
    assert!(term.grid().cell(0, 1).flags.contains(cell::WIDE_CHAR_SPACER));
    assert_eq!(term.cursor().point.col, 2);
    term.input('e');
    term.input('\u{301}');
    assert_eq!(term.grid().cell(0, 2).c, 'e');
    assert_eq!(term.grid().cell(0, 2).extra[0], '\u{301}');
    assert_eq!(term.grid().cell(0, 2).chars(), ['e', '\u{301}', ' ', ' ', ' ', ' ']);
    assert_eq!(term.cursor().point.col, 3);
    term.goto(0, 2);
    term.input('\u{301}');
    assert_eq!(term.grid().cell(0, 0).extra[0], '\u{301}');
    for _ in 0..10 {
        term.input_with_width('\u{302}', Some(0));
    }
    assert_eq!(term.grid().cell(0, 0).extra, ['\u{301}', '\u{302}', '\u{302}', '\u{302}', '\u{302}']);
    term.goto(0, 3);
    term.input('世');
    assert!(term.grid().cell(0, 3).flags.contains(cell::WIDE_CHAR));
    assert!(term.input_needs_wrap);
    assert_well_formed(&term);
}

#[test]
fn control_characters_only_move_the_cursor() {
    let mut term = term(4, 1);
    term.input('\u{7}');
    assert_eq!(term.cursor().point.col, 1);
    assert_eq!(row_text(&term, 0), "    ");
    term.input_with_width('x', None);
    assert_eq!(term.cursor().point.col, 2);
    assert_eq!(row_text(&term, 0), "    ");
}

#[test]
fn typing_returns_the_view_to_the_screen() {
    let mut term = term(2, 2);
    feed(&mut term, "abcdef");
    term.scroll_display(Scroll::Top);
    assert_eq!(term.grid.display_offset, 1);
    assert!(term.needs_draw());
    term.input('g');
    assert_eq!(term.grid.display_offset, 0);
}

#[test]
fn tab_stops() {
    let mut term = term(10, 1);
    term.put_tab(1);
    assert_eq!(term.cursor().point.col, 4);
    assert_eq!(term.grid().cell(0, 0).c, '\t');
    term.put_tab(2);
    assert_eq!(term.cursor().point.col, 9);
    term.put_tab(1);
    assert_eq!(term.cursor().point.col, 9);
    term.move_backward_tabs(1);
    assert_eq!(term.cursor().point.col, 8);
    term.move_backward_tabs(2);
    assert_eq!(term.cursor().point.col, 0);
    term.move_backward_tabs(1);
    assert_eq!(term.cursor().point.col, 0);
    term.goto_col(2);
    term.set_horizontal_tabstop();
    term.goto_col(0);
    term.put_tab(1);
    assert_eq!(term.cursor().point.col, 2);
    term.clear_tabs(TabulationClearMode::Current);
    term.goto_col(0);
    term.put_tab(1);
    assert_eq!(term.cursor().point.col, 4);
    term.clear_tabs(TabulationClearMode::All);
    term.goto_col(0);
    term.put_tab(1);
    assert_eq!(term.cursor().point.col, 9);
    term.put_tab(-3);
    term.move_backward_tabs(-3);
    term.move_forward_tabs(3);
    assert_eq!(term.cursor().point.col, 9);
}

#[test]
fn tab_does_not_overwrite_text() {
    let mut term = term(8, 1);
    feed(&mut term, "ab");
    term.goto_col(1);
    term.put_tab(1);
    assert_eq!(term.grid().cell(0, 1).c, 'b');
    assert_eq!(term.cursor().point.col, 4);
}

#[test]
fn clearing_lines_keeps_the_background() {
    let mut term = term(5, 1);
    feed(&mut term, "abcde");
    term.terminal_attribute(Attr::Background(Color::Indexed(4)));
    term.terminal_attribute(Attr::Bold);
    term.goto(0, 2);
    term.clear_line(LineClearMode::Right);
    assert_eq!(row_text(&term, 0), "ab   ");
    assert_eq!(term.grid().cell(0, 2).bg, Color::Indexed(4));
    assert_eq!(term.grid().cell(0, 2).flags, cell::Flags { bits: 0 });
    assert_eq!(term.grid().cell(0, 1).bg, Color::Named(NamedColor::Background));
    feed(&mut term, "xyz");
    term.goto(0, 1);
    term.clear_line(LineClearMode::Left);
    assert_eq!(row_text(&term, 0), "  xyz");
    term.clear_line(LineClearMode::All);
    assert_eq!(row_text(&term, 0), "     ");
}

#[test]
fn clearing_the_screen() {
    let filled = || {
        let mut term = term(3, 4);
        for line in 0..4 {
            for col in 0..3 {
                set_char(&mut term.grid, line, col, 'x');
            }
        }
        term.goto(2, 1);
        *term.selection_mut() = Some(Selection::lines(Point { line: 0, col: 0 }));
        term
    };
    let rows = |term: &Term| -> Vec<String> { (0..4).map(|l| row_text(term, l)).collect() };

    let mut term = filled();
    term.clear_screen(ClearMode::Below);
    assert_eq!(rows(&term), vec!["xxx", "xxx", "x  ", "   "]);
    assert!(term.selection().is_none());

    let mut term = filled();
    term.clear_screen(ClearMode::Above);
    assert_eq!(rows(&term), vec!["   ", "   ", "  x", "xxx"]);

    let mut term = filled();
    term.goto(1, 0);
    term.clear_screen(ClearMode::Above);
    assert_eq!(rows(&term), vec!["xxx", " xx", "xxx", "xxx"]);

    let mut term = filled();
    term.clear_screen(ClearMode::All);
    assert_eq!(rows(&term), vec!["   ", "   ", "   ", "   "]);

    let mut term = filled();
    term.goto(3, 2);
    term.clear_screen(ClearMode::Below);
    assert_eq!(rows(&term), vec!["xxx", "xxx", "xxx", "xx "]);

    let mut term = filled();
    term.dectest();
    assert_eq!(rows(&term), vec!["EEE", "EEE", "EEE", "EEE"]);
}

#[test]
fn attributes_change_the_template() {
    let mut term = term(4, 1);
    term.terminal_attribute(Attr::Foreground(Color::Spec(Rgb { r: 1, g: 2, b: 3 })));
    term.terminal_attribute(Attr::Reverse);
    term.terminal_attribute(Attr::Bold);
    term.terminal_attribute(Attr::Dim);
    term.terminal_attribute(Attr::Italic);
    term.terminal_attribute(Attr::Underscore);
    term.terminal_attribute(Attr::Hidden);
    term.terminal_attribute(Attr::Strike);
    term.terminal_attribute(Attr::BlinkSlow);
    term.input('a');
    let cell = *term.grid().cell(0, 0);
    assert_eq!(cell.fg, Color::Spec(Rgb { r: 1, g: 2, b: 3 }));
    assert_eq!(
        cell.flags.bits(),
        cell::INVERSE | cell::BOLD | cell::DIM | cell::ITALIC | cell::UNDERLINE | cell::HIDDEN
            | cell::STRIKEOUT
    );
    term.terminal_attribute(Attr::CancelBoldDim);
    term.terminal_attribute(Attr::CancelReverse);
    term.input('b');
    assert_eq!(
        term.grid().cell(0, 1).flags.bits(),
        cell::ITALIC | cell::UNDERLINE | cell::HIDDEN | cell::STRIKEOUT
    );
    term.terminal_attribute(Attr::CancelItalic);
    term.terminal_attribute(Attr::CancelUnderline);
    term.terminal_attribute(Attr::CancelHidden);
    term.terminal_attribute(Attr::CancelStrike);
    term.terminal_attribute(Attr::Bold);
    term.terminal_attribute(Attr::CancelBold);
    term.input('c');
    assert_eq!(term.grid().cell(0, 2).flags.bits(), 0);
    term.terminal_attribute(Attr::Bold);
    term.terminal_attribute(Attr::Reset);
    term.input('d');
    assert_eq!(*term.grid().cell(0, 3), Cell { c: 'd', ..Cell::default() });
}

#[test]
fn alternate_screen_round_trip() {
    let mut term = term(3, 2);
    feed(&mut term, "abcdefgh");
    let grid_before = term.grid.clone();
    let cursor_before = *term.cursor();
    term.set_mode(Mode::SwapScreenAndSetRestoreCursor);
    assert!(term.mode().contains(mode::ALT_SCREEN));
    assert!(term.alt);
    assert_eq!(row_text(&term, 0), "   ");
    feed(&mut term, "xyz");
    term.goto(0, 0);
    term.unset_mode(Mode::SwapScreenAndSetRestoreCursor);
    assert!(!term.mode().contains(mode::ALT_SCREEN));
    assert!(!term.alt);
    assert_eq!(term.grid, grid_before);
    assert_eq!(*term.cursor(), cursor_before);
    term.set_mode(Mode::SwapScreenAndSetRestoreCursor);
    assert_eq!(row_text(&term, 0), "   ");
    assert_eq!(row_text(&term, 1), "   ");
    assert_well_formed(&term);
}

#[test]
fn alternate_screen_is_cleared_with_the_template_on_entry() {
    let mut term = term(80, 24);
    feed(&mut term, "primary");
    term.terminal_attribute(Attr::Background(Color::Indexed(1)));
    let cursor_before = *term.cursor();
    let grid_before = term.grid.clone();
    term.set_mode(Mode::SwapScreenAndSetRestoreCursor);
    assert!(term.mode().contains(mode::ALT_SCREEN));
    assert!(term.alt);
    assert_eq!(term.lines(), 24);
    assert_eq!(term.cols(), 80);
    for line in 0..24 {
        for col in 0..80 {
            let cell = term.grid().cell(line, col);
            assert_eq!(cell.c, ' ');
            assert_eq!(cell.bg, Color::Indexed(1));
            assert_eq!(*cell, cursor_before.template);
        }
    }
    assert_eq!(term.cursor_save, cursor_before);
    assert_eq!(*term.cursor(), cursor_before);
    assert_eq!(term.alt_grid, grid_before);
    assert_well_formed(&term);
}

#[test]
fn alternate_screen_forgets_what_it_showed() {
    let mut term = term(4, 2);
    term.set_mode(Mode::SwapScreenAndSetRestoreCursor);
    term.goto(0, 0);
    feed(&mut term, "xy");
    assert_eq!(row_text(&term, 0), "xy  ");
    term.unset_mode(Mode::SwapScreenAndSetRestoreCursor);
    assert_eq!(row_text(&term, 0), "    ");
    term.terminal_attribute(Attr::Background(Color::Indexed(2)));
    term.set_mode(Mode::SwapScreenAndSetRestoreCursor);
    for line in 0..2 {
        for col in 0..4 {
            assert_eq!(term.grid().cell(line, col).c, ' ');
            assert_eq!(term.grid().cell(line, col).bg, Color::Indexed(2));
        }
    }
}

#[test]
fn bell_stops_when_its_seconds_have_passed() {
    let mut bell = VisualBell { duration: 3, start_time: None };
    assert!(bell.completed_after(0));
    assert!(bell.completed_after(100));
    assert!(bell.start_time.is_none());
    bell.ring();
    let rung = bell.start_time;
    assert!(rung.is_some());
    assert!(!bell.completed_after(0));
    assert_eq!(bell.start_time, rung);
    assert!(!bell.completed_after(2));
    assert_eq!(bell.start_time, rung);
    assert!(!bell.completed_after(3));
    assert!(bell.start_time.is_none());
    assert!(bell.completed_after(3));
    assert_eq!(bell.duration, 3);
    bell.ring();
    assert!(!bell.completed_after(4));
    assert!(bell.start_time.is_none());
}

#[test]
fn modes_are_bits() {
    let mut term = term(3, 2);
    let all = [
        (Mode::ShowCursor, mode::SHOW_CURSOR),
        (Mode::CursorKeys, mode::APP_CURSOR),
        (Mode::ReportMouseClicks, mode::MOUSE_REPORT_CLICK),
        (Mode::ReportCellMouseMotion, mode::MOUSE_DRAG),
        (Mode::ReportAllMouseMotion, mode::MOUSE_MOTION),
        (Mode::ReportFocusInOut, mode::FOCUS_IN_OUT),
        (Mode::BracketedPaste, mode::BRACKETED_PASTE),
        (Mode::SgrMouse, mode::SGR_MOUSE),
        (Mode::LineWrap, mode::LINE_WRAP),
        (Mode::LineFeedNewLine, mode::LINE_FEED_NEW_LINE),
        (Mode::Origin, mode::ORIGIN),
        (Mode::Insert, mode::INSERT),
    ];
    for (m, bit) in all.iter() {
        term.set_mode(*m);
        assert!(term.mode().contains(*bit));
        term.unset_mode(*m);
        assert!(!term.mode().contains(*bit));
    }
    assert_eq!(term.mode().bits(), 0);
    term.set_mode(Mode::BlinkingCursor);
    assert_eq!(term.mode().bits(), 0);
    term.set_keypad_application_mode();
    assert_eq!(term.mode().bits(), mode::APP_KEYPAD);
    term.unset_keypad_application_mode();
    assert_eq!(term.mode().bits(), 0);
    term.set_mode(Mode::ReportMouseClicks);
    assert_eq!(term.get_next_mouse_cursor(), Some(MouseCursor::Arrow));
    assert_eq!(term.get_next_mouse_cursor(), None);
    term.unset_mode(Mode::ReportMouseClicks);
    assert_eq!(term.get_next_mouse_cursor(), Some(MouseCursor::Text));
    assert_eq!(mode::TermMode::default().bits(), mode::SHOW_CURSOR | mode::LINE_WRAP);
    assert_eq!(mode::ANY, 0x3fff);
    assert_eq!(mode::NONE, 0);
}

#[test]
fn deccolm_clears_the_screen_and_the_region() {
    let mut term = term(3, 3);
    feed(&mut term, "abcdefg");
    term.set_scrolling_region(1..2);
    term.goto(2, 2);
    term.set_mode(Mode::DECCOLM);
    assert_eq!(term.scroll_region, 0..3);
    assert_eq!(term.cursor().point, Point { line: 0, col: 0 });
    assert_eq!(row_text(&term, 0), "   ");
    assert_eq!(row_text(&term, 2), "   ");
}

#[test]
fn saving_and_restoring_the_cursor() {
    let mut term = term(5, 5);
    term.goto(3, 4);
    term.terminal_attribute(Attr::Bold);
    term.save_cursor_position();
    term.goto(0, 0);
    term.terminal_attribute(Attr::Reset);
    term.restore_cursor_position();
    assert_eq!(term.cursor().point, Point { line: 3, col: 4 });
    term.input('a');
    assert!(term.grid().cell(3, 4).flags.contains(cell::BOLD));
}

#[test]
fn titles_and_pointers_are_taken_once() {
    let mut term = term(5, 5);
    assert_eq!(term.get_next_title(), None);
    term.set_title("one");
    term.set_title("two");
    assert_eq!(term.get_next_title(), Some("two".to_owned()));
    assert_eq!(term.get_next_title(), None);
    term.dynamic_title = false;
    term.set_title("three");
    assert_eq!(term.get_next_title(), None);
    term.set_mouse_cursor(MouseCursor::Arrow);
    assert_eq!(term.get_next_mouse_cursor(), Some(MouseCursor::Arrow));
    term.set_cursor_style(Some(CursorStyle::Beam));
    assert_eq!(term.cursor_style, Some(CursorStyle::Beam));
    term.set_clipboard("ignored");
    term.substitute();
    term.exit();
    assert!(term.should_exit());
}

#[test]
fn reports() {
    let mut term = term(20, 20);
    let mut out = Vec::new();
    term.identify_terminal(&mut out);
    assert_eq!(out, b"\x1b[?6c");
    out.clear();
    term.device_status(&mut out, 5);
    assert_eq!(out, b"\x1b[0n");
    out.clear();
    term.goto(11, 9);
    term.device_status(&mut out, 6);
    assert_eq!(out, b"\x1b[12;10R");
    out.clear();
    term.goto(0, 0);
    term.device_status(&mut out, 6);
    assert_eq!(out, b"\x1b[1;1R");
    out.clear();
    term.device_status(&mut out, 7);
    assert!(out.is_empty());
}

#[test]
fn bell_rings_for_a_while() {
    let mut term = term(2, 2);
    assert!(term.visual_bell.completed());
    term.bell();
    assert_eq!(term.next_is_urgent, Some(true));
    assert!(!term.visual_bell.completed());
    let mut bell = VisualBell::new();
    assert_eq!(bell.duration, 1);
    assert!(bell.completed());
    bell.duration = 0;
    bell.ring();
    assert!(!bell.completed());
    assert!(bell.completed());
}

#[test]
fn reset_state_restores_the_defaults() {
    let mut term = term(3, 2);
    feed(&mut term, "abcdefghi");
    term.terminal_attribute(Attr::Bold);
    term.set_mode(Mode::Insert);
    term.set_active_charset(CharsetIndex::G1);
    term.set_title("t");
    term.save_cursor_position();
    term.reset_state();
    assert_eq!(term.cursor().point, Point { line: 0, col: 0 });
    assert_eq!(term.cursor().template, Cell::default());
    assert_eq!(term.cursor_save.point, Point { line: 0, col: 0 });
    assert_eq!(*term.mode(), mode::TermMode::default());
    assert_eq!(term.active_charset, CharsetIndex::G0);
    assert_eq!(term.get_next_title(), None);
    assert_eq!(term.grid.scroll_limit(), 0);
    assert_eq!(row_text(&term, 0), "   ");
    assert_eq!(row_text(&term, 1), "   ");
    assert!(!term.input_needs_wrap);
    assert_well_formed(&term);
}

#[test]
fn charsets() {
    assert_eq!(StandardCharset::Ascii.map('q'), 'q');
    assert_eq!(StandardCharset::SpecialCharacterAndLineDrawing.map('q'), '─');
    assert_eq!(StandardCharset::SpecialCharacterAndLineDrawing.map('`'), '◆');
    assert_eq!(StandardCharset::SpecialCharacterAndLineDrawing.map('~'), '·');
    assert_eq!(StandardCharset::SpecialCharacterAndLineDrawing.map('A'), 'A');
    let mut term = term(4, 1);
    term.configure_charset(CharsetIndex::G1, StandardCharset::SpecialCharacterAndLineDrawing);
    term.input('x');
    term.set_active_charset(CharsetIndex::G1);
    term.input('x');
    assert_eq!(row_text(&term, 0), "x│  ");
}

#[test]
fn semantic_selection_between_quotes() {
    let mut term = term(7, 17);
    let mut grid = Grid::new(3, 5, 0, Cell::default());
    for col in 0..5 {
        set_char(&mut grid, 0, col, 'a');
    }
    set_char(&mut grid, 0, 0, '"');
    set_char(&mut grid, 0, 3, '"');
    mem::swap(&mut term.grid, &mut grid);
    term.semantic_escape_chars = "\"".to_owned();
    *term.selection_mut() = Some(Selection::semantic(Point { line: 2, col: 2 }));
    assert_eq!(term.selection_to_string(), Some("aa".to_owned()));
}

#[test]
fn semantic_search_stops_at_boundaries() {
    let mut term = term(5, 3);
    feed(&mut term, "ab cd");
    feed(&mut term, "ef");
    term.semantic_escape_chars = " ".to_owned();
    // Buffer lines count from the bottom: the first screen line is line 2.
    let left = term.semantic_search_left(Point { line: 2, col: 4 });
    assert_eq!(left, Point { line: 2, col: 3 });
    assert_eq!(term.semantic_search_left(left), left);
    let right = term.semantic_search_right(Point { line: 2, col: 3 });
    assert_eq!(right, Point { line: 1, col: 1 });
    assert_eq!(term.semantic_search_left(Point { line: 1, col: 1 }), Point { line: 2, col: 3 });
    assert_eq!(term.semantic_search_left(Point { line: 2, col: 1 }), Point { line: 2, col: 0 });
    assert_eq!(term.semantic_search_right(Point { line: 2, col: 0 }), Point { line: 2, col: 1 });
    assert_eq!(term.semantic_search_right(Point { line: 0, col: 4 }), Point { line: 0, col: 4 });
    assert_eq!(term.semantic_search_left(Point { line: 100, col: 0 }), Point { line: 2, col: 0 });
    for line in 0..3 {
        for col in 0..5 {
            let once = term.semantic_search_left(Point { line, col });
            assert_eq!(term.semantic_search_left(once), once);
        }
    }
    assert_eq!(term.url_search(Point { line: 0, col: 0 }), None);
}

#[test]
fn selection_text_skips_spaces_after_a_tab() {
    let mut term = term(8, 1);
    term.put_tab(1);
    feed(&mut term, "x");
    let mut selection = Selection::simple(Point { line: 0, col: 0 }, Side::Left);
    selection.update(Point { line: 0, col: 7 }, Side::Right);
    *term.selection_mut() = Some(selection);
    assert_eq!(term.selection_to_string(), Some("\tx\n".to_owned()));
}

#[test]
fn empty_selection_has_no_text() {
    let mut term = term(4, 2);
    feed(&mut term, "abcd");
    assert_eq!(term.selection_to_string(), None);
    let selection = Selection::simple(Point { line: 1, col: 1 }, Side::Left);
    assert!(selection.is_empty());
    *term.selection_mut() = Some(selection);
    assert_eq!(term.selection_to_string(), None);
    let mut selection = Selection::simple(Point { line: 1, col: 1 }, Side::Right);
    selection.update(Point { line: 1, col: 2 }, Side::Left);
    *term.selection_mut() = Some(selection);
    assert_eq!(term.selection_to_string(), None);
    let mut selection = Selection::simple(Point { line: 1, col: 1 }, Side::Left);
    selection.update(Point { line: 1, col: 2 }, Side::Right);
    assert!(!selection.is_empty());
    *term.selection_mut() = Some(selection);
    assert_eq!(term.selection_to_string(), Some("bc".to_owned()));
}

#[test]
fn resizing() {
    let mut term = term(4, 3);
    feed(&mut term, "abcdefghijk");
    assert_eq!(term.cursor().point, Point { line: 2, col: 3 });
    term.resize(&size(4, 2, 1, 1));
    assert_eq!(term.lines(), 2);
    assert_eq!(term.cols(), 4);
    assert_eq!(term.cursor().point, Point { line: 1, col: 3 });
    assert_eq!(row_text(&term, 0), "efgh");
    assert_eq!(row_text(&term, 1), "ijk ");
    assert_eq!(term.grid.scroll_limit(), 1);
    assert_eq!(term.scroll_region, 0..2);
    assert_well_formed(&term);
    term.resize(&size(6, 4, 1, 1));
    assert_eq!(term.lines(), 4);
    assert_eq!(term.cols(), 6);
    assert_eq!(row_text(&term, 0), "abcd  ");
    assert_eq!(row_text(&term, 1), "efgh  ");
    assert_eq!(row_text(&term, 2), "ijk   ");
    assert_eq!(row_text(&term, 3), "      ");
    assert_eq!(term.cursor().point, Point { line: 2, col: 3 });
    assert_eq!(term.grid.scroll_limit(), 0);
    assert_eq!(term.tabs.tabs, vec![true, false, false, false, true, false]);
    assert_well_formed(&term);
    term.resize(&size(1, 1, 1, 1));
    assert_eq!(term.lines(), 2);
    assert_eq!(term.cols(), 2);
    assert_eq!(term.size_info().width, 1);
    assert_eq!(term.cursor().point, Point { line: 1, col: 1 });
    assert_eq!(row_text(&term, 0), "ef");
    assert_eq!(row_text(&term, 1), "ij");
    assert_well_formed(&term);
    let before = term.grid.clone();
    term.resize(&size(0, 0, 1, 1));
    assert_eq!(term.grid, before);
    assert_eq!(term.size_info().width, 1);
    assert_eq!(term.pixels_to_coords(0, 0), Some(Point { line: 0, col: 0 }));
    assert_eq!(term.pixels_to_coords(5, 0), None);
}

#[test]
fn resizing_keeps_the_saved_cursors_on_the_grid() {
    let mut term = term(10, 6);
    term.goto(5, 9);
    term.save_cursor_position();
    term.set_mode(Mode::SwapScreenAndSetRestoreCursor);
    term.goto(4, 8);
    term.save_cursor_position();
    term.goto(3, 7);
    term.resize(&size(3, 2, 1, 1));
    assert_eq!(term.lines(), 2);
    assert_eq!(term.cols(), 3);
    assert_eq!(term.cursor_save.point, Point { line: 1, col: 2 });
    assert_eq!(term.cursor_save_alt.point, Point { line: 1, col: 2 });
    assert_eq!(term.cursor().point, Point { line: 1, col: 2 });
    assert_well_formed(&term);
    term.resize(&size(40, 20, 1, 1));
    assert_eq!(term.lines(), 20);
    assert_eq!(term.cols(), 40);
    assert_well_formed(&term);
    term.resize(&size(40, 20, 2, 2));
    assert_eq!(term.lines(), 10);
    assert_eq!(term.cols(), 20);
    assert_well_formed(&term);
}

#[test]
fn alternate_screen_keeps_the_primary_one_through_editing() {
    let mut term = term(5, 3);
    feed(&mut term, "one");
    term.linefeed();
    term.carriage_return();
    feed(&mut term, "two");
    let grid_before = term.grid.clone();
    let cursor_before = *term.cursor();
    term.set_mode(Mode::SwapScreenAndSetRestoreCursor);
    feed(&mut term, "alternate screen text that wraps and scrolls");
    term.terminal_attribute(Attr::Background(Color::Indexed(3)));
    term.clear_screen(ClearMode::All);
    term.goto(2, 4);
    term.save_cursor_position();
    term.set_mode(Mode::Insert);
    term.insert_blank(2);
    term.scroll_up(2);
    term.set_mode(Mode::SwapScreenAndSetRestoreCursor);
    term.restore_cursor_position();
    term.unset_mode(Mode::SwapScreenAndSetRestoreCursor);
    assert_eq!(term.grid, grid_before);
    assert_eq!(term.cursor().point, cursor_before.point);
    assert!(!term.alt);
    assert_well_formed(&term);
}

#[test]
fn the_grid_can_be_changed_in_place() {
    let mut term = term(3, 2);
    set_char(term.grid_mut(), 1, 2, 'z');
    assert_eq!(row_text(&term, 1), "  z");
    term.grid_mut().scroll_up(0, 2, 1, &Cell::default());
    assert_eq!(row_text(&term, 0), "  z");
    assert_eq!(term.grid().scroll_limit(), 1);
    assert_well_formed(&term);
}

#[test]
fn cell_basics() {
    let mut cell = Cell::default();
    assert!(cell.is_empty());
    assert_eq!(cell, Cell::new(' ', Color::Named(NamedColor::Foreground), Color::Named(NamedColor::Background)));
    cell.c = 'a';
    assert!(!cell.is_empty());
    cell.c = '\t';
    assert!(cell.is_empty());
    cell.flags.insert(cell::UNDERLINE);
    assert!(!cell.is_empty());
    cell.flags.remove(cell::UNDERLINE);
    cell.flags.insert(cell::BOLD);
    assert!(cell.is_empty());
    assert!(cell.flags.intersects(cell::DIM_BOLD));
    assert!(!cell.flags.contains(cell::DIM_BOLD));
    cell.bg = Color::Indexed(1);
    assert!(!cell.is_empty());
    cell.reset(&Cell::default());
    assert_eq!(cell, Cell::default());
    cell.push_extra('x');
    assert!(!cell.is_empty());
    assert_eq!(cell::MAX_ZEROWIDTH_CHARS, 5);
    let row = vec![Cell { c: 'a', ..Cell::default() }, Cell::default(), Cell::default()];
    assert_eq!(cell::line_length(&row), 1);
    let mut wrapped = row.clone();
    wrapped[2].flags.insert(cell::WRAPLINE);
    assert_eq!(cell::line_length(&wrapped), 3);
    assert_eq!(cell::line_length(&vec![Cell::default(); 4]), 0);
    assert_eq!(cell::line_length(&Vec::new()), 0);
}

#[test]
fn named_colors() {
    assert_eq!(NamedColor::Red.to_dim(), NamedColor::DimRed);
    assert_eq!(NamedColor::BrightRed.to_dim(), NamedColor::Red);
    assert_eq!(NamedColor::Foreground.to_dim(), NamedColor::DimForeground);
    assert_eq!(NamedColor::Cursor.to_dim(), NamedColor::Cursor);
    assert_eq!(NamedColor::Red.to_bright(), NamedColor::BrightRed);
    assert_eq!(NamedColor::DimRed.to_bright(), NamedColor::Red);
    assert_eq!(NamedColor::Foreground.to_bright(), NamedColor::BrightForeground);
    assert_eq!(NamedColor::Background.to_bright(), NamedColor::Background);
    assert_eq!(CharsetIndex::G2.to_index(), 2);
    assert_eq!(CharsetIndex::default(), CharsetIndex::G0);
    assert_eq!(StandardCharset::default(), StandardCharset::Ascii);
}
