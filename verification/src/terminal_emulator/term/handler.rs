//! What escape sequences and printable characters do to the terminal.

use crate::terminal_emulator::ansi::Attr;
use crate::terminal_emulator::ansi::CharsetIndex;
use crate::terminal_emulator::ansi::Color;
use crate::terminal_emulator::ansi::CursorStyle;
use crate::terminal_emulator::ansi::MouseCursor;
use crate::terminal_emulator::ansi::NamedColor;
use crate::terminal_emulator::ansi::StandardCharset;
use crate::terminal_emulator::ansi::TabulationClearMode;
use crate::terminal_emulator::index::max;
use crate::terminal_emulator::index::min;
use crate::terminal_emulator::index::min_of;
use crate::terminal_emulator::index::Column;
use crate::terminal_emulator::index::Line;
use crate::terminal_emulator::mode::APP_KEYPAD;
use crate::terminal_emulator::mode::ORIGIN;
use crate::terminal_emulator::term::cell::Cell;
use crate::terminal_emulator::term::cell::Flags;
use crate::terminal_emulator::term::cell::BOLD;
use crate::terminal_emulator::term::cell::DIM;
use crate::terminal_emulator::term::cell::HIDDEN;
use crate::terminal_emulator::term::cell::INVERSE;
use crate::terminal_emulator::term::cell::ITALIC;
use crate::terminal_emulator::term::cell::STRIKEOUT;
use crate::terminal_emulator::term::cell::UNDERLINE;
use crate::terminal_emulator::term::Cursor;
use crate::terminal_emulator::term::Term;
use crate::terminal_emulator::term::TermView;
use vstd::prelude::*;

verus! {

/// The first column after `col` that has a tab stop, or the last column.
pub open spec fn next_stop(tabs: Seq<bool>, col: int, cols: int) -> int
    decreases cols - col,
{
    if col + 1 >= cols {
        col
    } else if tabs[col + 1] {
        col + 1
    } else {
        next_stop(tabs, col + 1, cols)
    }
}

/// The last column at or before `from` that has a tab stop, or `otherwise`.
pub open spec fn stop_at_or_before(tabs: Seq<bool>, from: int, otherwise: int) -> int
    decreases from + 1,
{
    if from < 0 {
        otherwise
    } else if tabs[from] {
        from
    } else {
        stop_at_or_before(tabs, from - 1, otherwise)
    }
}

/// The template after a graphic-rendition attribute.
pub open spec fn styled(template: Cell, attr: Attr) -> Cell {
    match attr {
        Attr::Foreground(color) => Cell { fg: color, ..template },
        Attr::Background(color) => Cell { bg: color, ..template },
        Attr::Reset => Cell {
            fg: Color::Named(NamedColor::Foreground),
            bg: Color::Named(NamedColor::Background),
            flags: Flags { bits: 0 },
            ..template
        },
        Attr::Reverse => Cell { flags: template.flags.with(INVERSE), ..template },
        Attr::CancelReverse => Cell { flags: template.flags.without(INVERSE), ..template },
        Attr::Bold => Cell { flags: template.flags.with(BOLD), ..template },
        Attr::CancelBold => Cell { flags: template.flags.without(BOLD), ..template },
        Attr::Dim => Cell { flags: template.flags.with(DIM), ..template },
        Attr::CancelBoldDim => Cell { flags: template.flags.without(BOLD | DIM), ..template },
        Attr::Italic => Cell { flags: template.flags.with(ITALIC), ..template },
        Attr::CancelItalic => Cell { flags: template.flags.without(ITALIC), ..template },
        Attr::Underscore => Cell { flags: template.flags.with(UNDERLINE), ..template },
        Attr::CancelUnderline => Cell { flags: template.flags.without(UNDERLINE), ..template },
        Attr::Hidden => Cell { flags: template.flags.with(HIDDEN), ..template },
        Attr::CancelHidden => Cell { flags: template.flags.without(HIDDEN), ..template },
        Attr::Strike => Cell { flags: template.flags.with(STRIKEOUT), ..template },
        Attr::CancelStrike => Cell { flags: template.flags.without(STRIKEOUT), ..template },
        _ => template,
    }
}

fn apply_attribute(template: &mut Cell, attr: Attr)
    ensures
        *final(template) == styled(*old(template), attr),
{
    match attr {
        Attr::Foreground(color) => template.fg = color,
        Attr::Background(color) => template.bg = color,
        Attr::Reset => {
            template.fg = Color::Named(NamedColor::Foreground);
            template.bg = Color::Named(NamedColor::Background);
            template.flags = Flags::empty();
        },
        Attr::Reverse => template.flags.insert(INVERSE),
        Attr::CancelReverse => template.flags.remove(INVERSE),
        Attr::Bold => template.flags.insert(BOLD),
        Attr::CancelBold => template.flags.remove(BOLD),
        Attr::Dim => template.flags.insert(DIM),
        Attr::CancelBoldDim => template.flags.remove(BOLD | DIM),
        Attr::Italic => template.flags.insert(ITALIC),
        Attr::CancelItalic => template.flags.remove(ITALIC),
        Attr::Underscore => template.flags.insert(UNDERLINE),
        Attr::CancelUnderline => template.flags.remove(UNDERLINE),
        Attr::Hidden => template.flags.insert(HIDDEN),
        Attr::CancelHidden => template.flags.remove(HIDDEN),
        Attr::Strike => template.flags.insert(STRIKEOUT),
        Attr::CancelStrike => template.flags.remove(STRIKEOUT),
        _ => {},
    }
}

impl TermView {
    /// A title remembered, unless titles are fixed.
    #[verifier::opaque]
    pub open spec fn titled(self, title: Seq<char>) -> TermView {
        if self.dynamic_title {
            TermView { next_title: Some(title), ..self }
        } else {
            self
        }
    }

    #[verifier::opaque]
    pub open spec fn with_mouse_cursor(self, cursor: MouseCursor) -> TermView {
        TermView { next_mouse_cursor: Some(cursor), ..self }
    }

    #[verifier::opaque]
    pub open spec fn with_cursor_style(self, style: Option<CursorStyle>) -> TermView {
        TermView { cursor_style: style, ..self }
    }

    /// The cursor one column to the left, unless it is in the first.
    #[verifier::opaque]
    pub open spec fn backspace(self) -> TermView {
        if self.col() > 0 {
            TermView { input_needs_wrap: false, ..self.cursor_at(self.line(), self.col() - 1) }
        } else {
            self
        }
    }

    /// The cursor in the first column.
    #[verifier::opaque]
    pub open spec fn carriage_return(self) -> TermView {
        TermView { input_needs_wrap: false, ..self.cursor_at(self.line(), 0) }
    }

    /// The bell ringing and the window marked as urgent.
    #[verifier::opaque]
    pub open spec fn bell(self) -> TermView {
        TermView { bell_ringing: true, next_is_urgent: Some(true), ..self }
    }

    /// A tab stop at the cursor's column, or none.
    #[verifier::opaque]
    pub open spec fn with_tab_stop(self, stop: bool) -> TermView {
        TermView { tabs: self.tabs.update(self.col(), stop), ..self }
    }

    #[verifier::opaque]
    pub open spec fn without_tab_stops(self) -> TermView {
        TermView { tabs: Seq::new(self.tabs.len(), |i: int| false), ..self }
    }

    pub open spec fn clear_tabs(self, mode: TabulationClearMode) -> TermView {
        match mode {
            TabulationClearMode::Current => self.with_tab_stop(false),
            TabulationClearMode::All => self.without_tab_stops(),
        }
    }

    /// The template changed by a graphic-rendition attribute.
    #[verifier::opaque]
    pub open spec fn with_attr(self, attr: Attr) -> TermView {
        TermView {
            cursor: Cursor { template: styled(self.cursor.template, attr), ..self.cursor },
            ..self
        }
    }

    #[verifier::opaque]
    pub open spec fn with_mode(self, flags: u16) -> TermView {
        TermView { mode: self.mode.with(flags), ..self }
    }

    #[verifier::opaque]
    pub open spec fn without_mode(self, flags: u16) -> TermView {
        TermView { mode: self.mode.without(flags), ..self }
    }

    #[verifier::opaque]
    pub open spec fn with_active_charset(self, index: CharsetIndex) -> TermView {
        TermView { active_charset: index, ..self }
    }

    #[verifier::opaque]
    pub open spec fn with_charset(self, index: CharsetIndex, charset: StandardCharset) -> TermView {
        TermView {
            cursor: Cursor { charsets: self.cursor.charsets.with(index, charset), ..self.cursor },
            ..self
        }
    }

    /// The cursor put on a line and a column, both kept on the grid. In origin mode
    /// the line counts from the start of the scroll region and stays within it.
    #[verifier::opaque]
    pub open spec fn goto(self, line: int, col: int) -> TermView {
        let y_offset = if self.mode.spec_contains(ORIGIN) {
            self.scroll_region.start as int
        } else {
            0
        };
        let max_y = if self.mode.spec_contains(ORIGIN) {
            max(self.scroll_region.end - 1, 0)
        } else {
            self.lines() - 1
        };
        TermView {
            input_needs_wrap: false,
            ..self.cursor_at(min(line + y_offset, max_y), min(col, self.cols() - 1))
        }
    }

    #[verifier::opaque]
    pub open spec fn move_up(self, lines: int) -> TermView {
        self.goto(max(self.line() - lines, 0), self.col())
    }

    #[verifier::opaque]
    pub open spec fn move_down(self, lines: int) -> TermView {
        self.goto(self.line() + lines, self.col())
    }

    #[verifier::opaque]
    pub open spec fn move_forward(self, cols: int) -> TermView {
        TermView {
            input_needs_wrap: false,
            ..self.cursor_at(self.line(), min(self.col() + cols, self.cols() - 1))
        }
    }

    #[verifier::opaque]
    pub open spec fn move_backward(self, cols: int) -> TermView {
        TermView {
            input_needs_wrap: false,
            ..self.cursor_at(self.line(), self.col() - min(self.col(), cols))
        }
    }

    /// The cursor moved back by `count` tab stops; it stays where no stop is before it.
    pub open spec fn back_tabbed(self, count: int) -> TermView
        decreases count,
    {
        if count <= 0 {
            self
        } else {
            self.cursor_at(
                self.line(),
                stop_at_or_before(self.tabs, self.col() - 1, self.col()),
            ).back_tabbed(count - 1)
        }
    }

    /// The cursor restored from the slot of the screen that is shown, and kept on the
    /// grid.
    #[verifier::opaque]
    pub open spec fn restore_cursor(self) -> TermView {
        let saved = if self.alt {
            self.cursor_save_alt
        } else {
            self.cursor_save
        };
        TermView { cursor: saved.clamped(self.lines(), self.cols()), ..self }
    }

    /// The cursor saved in the slot of the screen that is shown.
    #[verifier::opaque]
    pub open spec fn save_cursor(self) -> TermView {
        if self.alt {
            TermView { cursor_save_alt: self.cursor, ..self }
        } else {
            TermView { cursor_save: self.cursor, ..self }
        }
    }

    #[verifier::opaque]
    pub open spec fn set_scrolling_region(self, start: int, end: int) -> TermView {
        TermView {
            scroll_region: core::ops::Range::<Line> {
                start: min(start, self.lines()) as usize,
                end: min(end, self.lines()) as usize,
            },
            ..self
        }.goto(0, 0)
    }
}

impl Term {
    /// Remembers a title until it is taken, unless titles are fixed.
    pub fn set_title(&mut self, title: &str)
        ensures
            final(self)@ == old(self)@.titled(title@),
            old(self).wf() ==> final(self).wf(),
    {
        proof {
            reveal(TermView::titled);
        }
        if self.dynamic_title {
            self.next_title = Some(title.to_owned());
        }
    }

    /// Remembers a mouse pointer until it is taken.
    pub fn set_mouse_cursor(&mut self, cursor: MouseCursor)
        ensures
            final(self)@ == old(self)@.with_mouse_cursor(cursor),
            old(self).wf() ==> final(self).wf(),
    {
        proof {
            reveal(TermView::with_mouse_cursor);
        }
        self.next_mouse_cursor = Some(cursor);
    }

    pub fn set_cursor_style(&mut self, style: Option<CursorStyle>)
        ensures
            final(self)@ == old(self)@.with_cursor_style(style),
            old(self).wf() ==> final(self).wf(),
    {
        proof {
            reveal(TermView::with_cursor_style);
        }
        self.cursor_style = style;
    }

    /// Puts the cursor on a line and a column.
    pub fn goto(&mut self, line: Line, col: Column)
        requires
            old(self).wf(),
        ensures
            final(self)@ == old(self)@.goto(line as int, col as int),
            final(self).wf(),
    {
        proof {
            reveal(TermView::goto);
        }
        let origin = self.mode.contains(ORIGIN);
        let y_offset = if origin {
            self.scroll_region.start
        } else {
            0
        };
        let max_y = if origin {
            if self.scroll_region.end > 0 {
                self.scroll_region.end - 1
            } else {
                0
            }
        } else {
            self.grid.num_lines() - 1
        };
        self.cursor.point.line = min_of(line.saturating_add(y_offset), max_y);
        self.cursor.point.col = min_of(col, self.grid.num_cols() - 1);
        self.input_needs_wrap = false;
    }

    pub fn goto_line(&mut self, line: Line)
        requires
            old(self).wf(),
        ensures
            final(self)@ == old(self)@.goto(line as int, old(self)@.col()),
            final(self).wf(),
    {
        proof {
            reveal(TermView::goto);
        }
        let col = self.cursor.point.col;
        self.goto(line, col)
    }

    pub fn goto_col(&mut self, col: Column)
        requires
            old(self).wf(),
        ensures
            final(self)@ == old(self)@.goto(old(self)@.line(), col as int),
            final(self).wf(),
    {
        proof {
            reveal(TermView::goto);
        }
        let line = self.cursor.point.line;
        self.goto(line, col)
    }

    pub fn move_up(&mut self, lines: Line)
        requires
            old(self).wf(),
        ensures
            final(self)@ == old(self)@.move_up(lines as int),
            final(self).wf(),
    {
        proof {
            reveal(TermView::move_up);
        }
        let move_to = self.cursor.point.line.saturating_sub(lines);
        let col = self.cursor.point.col;
        self.goto(move_to, col)
    }

    pub fn move_down(&mut self, lines: Line)
        requires
            old(self).wf(),
        ensures
            final(self)@ == old(self)@.move_down(lines as int),
            final(self).wf(),
    {
        proof {
            reveal(TermView::move_down);
            reveal(TermView::goto);
        }
        let move_to = self.cursor.point.line.saturating_add(lines);
        let col = self.cursor.point.col;
        self.goto(move_to, col)
    }

    pub fn move_forward(&mut self, cols: Column)
        requires
            old(self).wf(),
        ensures
            final(self)@ == old(self)@.move_forward(cols as int),
            final(self).wf(),
    {
        proof {
            reveal(TermView::move_forward);
        }
        self.cursor.point.col = min_of(
            self.cursor.point.col.saturating_add(cols),
            self.grid.num_cols() - 1,
        );
        self.input_needs_wrap = false;
    }

    pub fn move_backward(&mut self, cols: Column)
        requires
            old(self).wf(),
        ensures
            final(self)@ == old(self)@.move_backward(cols as int),
            final(self).wf(),
    {
        proof {
            reveal(TermView::move_backward);
        }
        self.cursor.point.col -= min_of(self.cursor.point.col, cols);
        self.input_needs_wrap = false;
    }

    pub fn move_down_and_cr(&mut self, lines: Line)
        requires
            old(self).wf(),
        ensures
            final(self)@ == old(self)@.goto(old(self)@.line() + lines, 0),
            final(self).wf(),
    {
        proof {
            reveal(TermView::goto);
        }
        let move_to = self.cursor.point.line.saturating_add(lines);
        self.goto(move_to, 0)
    }

    pub fn move_up_and_cr(&mut self, lines: Line)
        requires
            old(self).wf(),
        ensures
            final(self)@ == old(self)@.goto(max(old(self)@.line() - lines, 0), 0),
            final(self).wf(),
    {
        proof {
            reveal(TermView::goto);
        }
        let move_to = self.cursor.point.line.saturating_sub(lines);
        self.goto(move_to, 0)
    }

    /// Moves the cursor one column to the left, unless it is in the first.
    pub fn backspace(&mut self)
        requires
            old(self).wf(),
        ensures
            final(self)@ == old(self)@.backspace(),
            final(self).wf(),
    {
        proof {
            reveal(TermView::backspace);
        }
        if self.cursor.point.col > 0 {
            self.cursor.point.col -= 1;
            self.input_needs_wrap = false;
        }
    }

    /// Moves the cursor to the first column.
    pub fn carriage_return(&mut self)
        requires
            old(self).wf(),
        ensures
            final(self)@ == old(self)@.carriage_return(),
            final(self).wf(),
    {
        proof {
            reveal(TermView::carriage_return);
        }
        self.cursor.point.col = 0;
        self.input_needs_wrap = false;
    }

    /// Rings the bell and marks the window as urgent.
    pub fn bell(&mut self)
        ensures
            final(self)@ == old(self)@.bell(),
            old(self).wf() ==> final(self).wf(),
    {
        proof {
            reveal(TermView::bell);
        }
        self.visual_bell.ring();
        self.next_is_urgent = Some(true);
    }

    /// Does nothing.
    pub fn substitute(&mut self)
        ensures
            *final(self) == *old(self),
    {
    }

    /// Puts a tab stop at the cursor's column.
    pub fn set_horizontal_tabstop(&mut self)
        requires
            old(self).wf(),
        ensures
            final(self)@ == old(self)@.with_tab_stop(true),
            final(self).wf(),
    {
        proof {
            reveal(TermView::with_tab_stop);
        }
        let column = self.cursor.point.col;
        self.tabs.set(column, true);
    }

    /// Moves the cursor back by `count` tab stops.
    pub fn move_backward_tabs(&mut self, count: i64)
        requires
            old(self).wf(),
        ensures
            final(self)@ == old(self)@.back_tabbed(count as int),
            final(self).wf(),
    {
        let mut left: i64 = count;
        while left > 0
            invariant
                self.wf(),
                self@.back_tabbed(left as int) == old(self)@.back_tabbed(count as int),
            decreases left,
        {
            let col = self.cursor.point.col;
            let mut found = col;
            let mut i = col;
            let mut searching = true;
            while i > 0 && searching
                invariant
                    i <= col,
                    found <= col,
                    col == self@.col(),
                    self.wf(),
                    searching ==> found == col && stop_at_or_before(
                        self@.tabs,
                        col - 1,
                        col as int,
                    ) == stop_at_or_before(self@.tabs, i - 1, col as int),
                    !searching ==> found == stop_at_or_before(self@.tabs, col - 1, col as int),
                decreases i,
            {
                i -= 1;
                if self.tabs.is_set(i) {
                    found = i;
                    searching = false;
                }
            }
            self.cursor.point.col = found;
            left -= 1;
        }
    }

    /// Does nothing.
    pub fn move_forward_tabs(&mut self, count: i64)
        ensures
            *final(self) == *old(self),
    {
    }

    /// Saves the cursor in the slot of the screen that is shown.
    pub fn save_cursor_position(&mut self)
        requires
            old(self).wf(),
        ensures
            final(self)@ == old(self)@.save_cursor(),
            final(self).wf(),
    {
        proof {
            reveal(TermView::save_cursor);
        }
        if self.alt {
            self.cursor_save_alt = self.cursor;
        } else {
            self.cursor_save = self.cursor;
        }
    }

    /// Restores the cursor from the slot of the screen that is shown.
    pub fn restore_cursor_position(&mut self)
        requires
            old(self).wf(),
        ensures
            final(self)@ == old(self)@.restore_cursor(),
            final(self).wf(),
    {
        proof {
            reveal(TermView::restore_cursor);
        }
        let source = if self.alt {
            self.cursor_save_alt
        } else {
            self.cursor_save
        };
        self.cursor = source;
        self.cursor.point.line = min_of(self.cursor.point.line, self.grid.num_lines() - 1);
        self.cursor.point.col = min_of(self.cursor.point.col, self.grid.num_cols() - 1);
    }

    /// Removes the tab stop at the cursor's column, or all of them.
    pub fn clear_tabs(&mut self, mode: TabulationClearMode)
        requires
            old(self).wf(),
        ensures
            final(self)@ == old(self)@.clear_tabs(mode),
            final(self).wf(),
    {
        proof {
            reveal(TermView::with_tab_stop);
            reveal(TermView::without_tab_stops);
        }
        match mode {
            TabulationClearMode::Current => {
                let column = self.cursor.point.col;
                self.tabs.set(column, false);
            },
            TabulationClearMode::All => {
                self.tabs.clear_all();
            },
        }
    }

    /// Changes the template that new characters are made from.
    pub fn terminal_attribute(&mut self, attr: Attr)
        ensures
            final(self)@ == old(self)@.with_attr(attr),
            old(self).wf() ==> final(self).wf(),
    {
        proof {
            reveal(TermView::with_attr);
        }
        apply_attribute(&mut self.cursor.template, attr);
    }

    /// Sets the scroll region, cut to the grid, and puts the cursor at its home.
    pub fn set_scrolling_region(&mut self, region: core::ops::Range<Line>)
        requires
            old(self).wf(),
        ensures
            final(self)@ == old(self)@.set_scrolling_region(region.start as int, region.end as int),
            final(self).wf(),
    {
        proof {
            reveal(TermView::set_scrolling_region);
        }
        self.scroll_region.start = min_of(region.start, self.grid.num_lines());
        self.scroll_region.end = min_of(region.end, self.grid.num_lines());
        self.goto(0, 0);
    }

    pub fn set_keypad_application_mode(&mut self)
        ensures
            final(self)@ == old(self)@.with_mode(APP_KEYPAD),
            old(self).wf() ==> final(self).wf(),
    {
        proof {
            reveal(TermView::with_mode);
        }
        self.mode.insert(APP_KEYPAD);
    }

    pub fn unset_keypad_application_mode(&mut self)
        ensures
            final(self)@ == old(self)@.without_mode(APP_KEYPAD),
            old(self).wf() ==> final(self).wf(),
    {
        proof {
            reveal(TermView::without_mode);
        }
        self.mode.remove(APP_KEYPAD);
    }

    /// Chooses the charset slot that printable characters go through.
    pub fn set_active_charset(&mut self, index: CharsetIndex)
        ensures
            final(self)@ == old(self)@.with_active_charset(index),
            old(self).wf() ==> final(self).wf(),
    {
        proof {
            reveal(TermView::with_active_charset);
        }
        self.active_charset = index;
    }

    /// Puts a charset into a slot.
    pub fn configure_charset(&mut self, index: CharsetIndex, charset: StandardCharset)
        ensures
            final(self)@ == old(self)@.with_charset(index, charset),
            old(self).wf() ==> final(self).wf(),
    {
        proof {
            reveal(TermView::with_charset);
        }
        self.cursor.charsets.set(index, charset);
    }

    /// Does nothing.
    pub fn set_clipboard(&mut self, string: &str)
        ensures
            *final(self) == *old(self),
    {
    }
}

} // verus!
