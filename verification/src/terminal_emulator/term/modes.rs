//! Modes, the alternate screen, resets, reports and resizing.

use crate::terminal_emulator::ansi::CharsetIndex;
use crate::terminal_emulator::ansi::Mode;
use crate::terminal_emulator::ansi::MouseCursor;
use crate::terminal_emulator::index::Line;
use crate::terminal_emulator::mode::TermMode;
use crate::terminal_emulator::mode::ALT_SCREEN;
use crate::terminal_emulator::mode::APP_CURSOR;
use crate::terminal_emulator::mode::BRACKETED_PASTE;
use crate::terminal_emulator::mode::FOCUS_IN_OUT;
use crate::terminal_emulator::mode::INSERT;
use crate::terminal_emulator::mode::LINE_FEED_NEW_LINE;
use crate::terminal_emulator::mode::LINE_WRAP;
use crate::terminal_emulator::mode::MOUSE_DRAG;
use crate::terminal_emulator::mode::MOUSE_MOTION;
use crate::terminal_emulator::mode::MOUSE_REPORT_CLICK;
use crate::terminal_emulator::mode::ORIGIN;
use crate::terminal_emulator::mode::SGR_MOUSE;
use crate::terminal_emulator::mode::SHOW_CURSOR;
use crate::terminal_emulator::term::cell::Cell;
use crate::terminal_emulator::term::Cursor;
use crate::terminal_emulator::term::Term;
use crate::terminal_emulator::term::TermView;
use vstd::prelude::*;

verus! {

/// The decimal digits of a number, as ASCII.
pub open spec fn decimal(n: nat) -> Seq<u8>
    decreases n,
{
    if n < 10 {
        seq![(48 + n) as u8]
    } else {
        decimal(n / 10).push((48 + n % 10) as u8)
    }
}

/// Appends the decimal digits of a number.
pub fn push_decimal(out: &mut Vec<u8>, n: usize)
    ensures
        final(out)@ == old(out)@ + decimal(n as nat),
    decreases n,
{
    if n >= 10 {
        push_decimal(out, n / 10);
    }
    out.push(48u8 + (n % 10) as u8);
    proof {
        if n < 10 {
            assert(out@ =~= old(out)@ + decimal(n as nat));
        } else {
            assert(out@ =~= old(out)@ + decimal(n as nat));
        }
    }
}

/// The reply to a request for the terminal's identity: `ESC [ ? 6 c`.
pub open spec fn identity_report() -> Seq<u8> {
    seq![0x1bu8, 0x5bu8, 0x3fu8, 0x36u8, 0x63u8]
}

/// The reply to a status request with argument 5: `ESC [ 0 n`.
pub open spec fn ok_report() -> Seq<u8> {
    seq![0x1bu8, 0x5bu8, 0x30u8, 0x6eu8]
}

/// The reply to a status request with argument 6: `ESC [ line ; column R`, both
/// counted from 1.
pub open spec fn position_report(line: int, col: int) -> Seq<u8> {
    seq![0x1bu8, 0x5bu8] + decimal((line + 1) as nat) + seq![0x3bu8] + decimal((col + 1) as nat)
        + seq![0x52u8]
}

/// The mode bit that a mode stands for, if it is a mere bit.
pub open spec fn mode_bit(mode: Mode) -> Option<u16> {
    match mode {
        Mode::ShowCursor => Some(SHOW_CURSOR),
        Mode::CursorKeys => Some(APP_CURSOR),
        Mode::ReportMouseClicks => Some(MOUSE_REPORT_CLICK),
        Mode::ReportCellMouseMotion => Some(MOUSE_DRAG),
        Mode::ReportAllMouseMotion => Some(MOUSE_MOTION),
        Mode::ReportFocusInOut => Some(FOCUS_IN_OUT),
        Mode::BracketedPaste => Some(BRACKETED_PASTE),
        Mode::SgrMouse => Some(SGR_MOUSE),
        Mode::LineWrap => Some(LINE_WRAP),
        Mode::LineFeedNewLine => Some(LINE_FEED_NEW_LINE),
        Mode::Origin => Some(ORIGIN),
        Mode::Insert => Some(INSERT),
        _ => None,
    }
}

/// Whether a mode reports the mouse, so that the pointer changes with it.
pub open spec fn reports_mouse(mode: Mode) -> bool {
    mode == Mode::ReportMouseClicks || mode == Mode::ReportCellMouseMotion || mode
        == Mode::ReportAllMouseMotion
}

impl TermView {
    /// The other screen shown. The alternate screen is cleared with the template when
    /// it is entered; the primary screen comes back as it was left.
    #[verifier::opaque]
    pub open spec fn swap_alt(self) -> TermView {
        let shown = if self.alt {
            self.alt_grid
        } else {
            self.alt_grid.with_lines_reset(0, self.lines(), self.cursor.template)
        };
        TermView { alt: !self.alt, grid: shown, alt_grid: self.grid, ..self }
    }

    /// The scroll region reset to the whole screen, and the screen cleared with the
    /// template.
    #[verifier::opaque]
    pub open spec fn deccolm(self) -> TermView {
        let home = self.set_scrolling_region(0, self.lines());
        TermView {
            grid: home.grid.with_lines_reset(0, home.lines(), home.cursor.template),
            ..home
        }
    }

    /// The alternate screen entered: the cursor is saved, the screens are swapped
    /// unless the alternate one is shown already, and the cursor is saved again, for
    /// the alternate screen.
    #[verifier::opaque]
    pub open spec fn enter_alt_screen(self) -> TermView {
        let saved = self.with_mode(ALT_SCREEN).save_cursor();
        let swapped = if !saved.alt {
            saved.swap_alt()
        } else {
            saved
        };
        swapped.save_cursor()
    }

    /// The alternate screen left: the cursor is restored, the screens are swapped
    /// back if the alternate one is shown, and the cursor is restored again, for the
    /// primary screen.
    #[verifier::opaque]
    pub open spec fn leave_alt_screen(self) -> TermView {
        let restored = self.without_mode(ALT_SCREEN).restore_cursor();
        let swapped = if restored.alt {
            restored.swap_alt()
        } else {
            restored
        };
        swapped.restore_cursor()
    }

    #[verifier::opaque]
    pub open spec fn set_mode(self, mode: Mode) -> TermView {
        match mode {
            Mode::SwapScreenAndSetRestoreCursor => self.enter_alt_screen(),
            Mode::DECCOLM => self.deccolm(),
            Mode::BlinkingCursor => self,
            _ => if reports_mouse(mode) {
                self.with_mode(mode_bit(mode).unwrap()).with_mouse_cursor(MouseCursor::Arrow)
            } else {
                self.with_mode(mode_bit(mode).unwrap())
            },
        }
    }

    #[verifier::opaque]
    pub open spec fn unset_mode(self, mode: Mode) -> TermView {
        match mode {
            Mode::SwapScreenAndSetRestoreCursor => self.leave_alt_screen(),
            Mode::DECCOLM => self.deccolm(),
            Mode::BlinkingCursor => self,
            _ => if reports_mouse(mode) {
                self.without_mode(mode_bit(mode).unwrap()).with_mouse_cursor(MouseCursor::Text)
            } else {
                self.without_mode(mode_bit(mode).unwrap())
            },
        }
    }

    /// The terminal as it was made, but for its size, its tab stops, its scroll
    /// region and which grid is shown: the cursors, modes and charsets are the
    /// defaults, nothing is pending, and the shown grid is blank and without history.
    #[verifier::opaque]
    pub open spec fn reset_state(self) -> TermView {
        TermView {
            input_needs_wrap: false,
            next_title: None,
            next_mouse_cursor: None,
            alt: false,
            cursor: Cursor::spec_default(),
            active_charset: CharsetIndex::G0,
            mode: TermMode { bits: SHOW_CURSOR | LINE_WRAP },
            next_is_urgent: None,
            cursor_save: Cursor::spec_default(),
            cursor_save_alt: Cursor::spec_default(),
            cursor_style: None,
            grid: self.grid.without_history().with_lines_reset(
                0,
                self.lines(),
                Cell::spec_default(),
            ),
            ..self
        }
    }
}

impl Term {
    /// Writes the terminal's identity to `writer`.
    pub fn identify_terminal(&mut self, writer: &mut Vec<u8>)
        ensures
            *final(self) == *old(self),
            final(writer)@ == old(writer)@ + identity_report(),
    {
        writer.push(0x1b);
        writer.push(0x5b);
        writer.push(0x3f);
        writer.push(0x36);
        writer.push(0x63);
        proof {
            assert(writer@ =~= old(writer)@ + identity_report());
        }
    }

    /// Writes the reply to a status request to `writer`: that the terminal is well
    /// for 5, where the cursor is for 6, and nothing for any other argument.
    pub fn device_status(&mut self, writer: &mut Vec<u8>, arg: usize)
        requires
            old(self).wf(),
        ensures
            *final(self) == *old(self),
            final(writer)@ == old(writer)@ + if arg == 5 {
                ok_report()
            } else if arg == 6 {
                position_report(old(self)@.line(), old(self)@.col())
            } else {
                Seq::<u8>::empty()
            },
    {
        if arg == 5 {
            writer.push(0x1b);
            writer.push(0x5b);
            writer.push(0x30);
            writer.push(0x6e);
            proof {
                assert(writer@ =~= old(writer)@ + ok_report());
            }
        } else if arg == 6 {
            let pos = self.cursor.point;
            writer.push(0x1b);
            writer.push(0x5b);
            push_decimal(writer, pos.line + 1);
            writer.push(0x3b);
            push_decimal(writer, pos.col + 1);
            writer.push(0x52);
            proof {
                assert(writer@ =~= old(writer)@ + position_report(
                    pos.line as int,
                    pos.col as int,
                ));
            }
        } else {
            proof {
                assert(writer@ =~= old(writer)@ + Seq::<u8>::empty());
            }
        }
    }

    /// Shows the other screen.
    pub fn swap_alt(&mut self)
        requires
            old(self).wf(),
        ensures
            final(self)@ == old(self)@.swap_alt(),
            final(self).wf(),
    {
        proof {
            reveal(TermView::swap_alt);
        }
        if self.alt {
            self.alt = false;
            std::mem::swap(&mut self.grid, &mut self.alt_grid);
        } else {
            let template = self.cursor.template;
            let lines = self.alt_grid.num_lines();
            self.alt_grid.reset_lines(0, lines, &template);
            self.alt = true;
            std::mem::swap(&mut self.grid, &mut self.alt_grid);
        }
    }

    fn clear_all(&mut self)
        requires
            old(self).wf(),
        ensures
            final(self)@ == (TermView {
                grid: old(self)@.grid.with_lines_reset(
                    0,
                    old(self)@.lines(),
                    old(self)@.cursor.template,
                ),
                ..old(self)@
            }),
            final(self).wf(),
    {
        let template = self.cursor.template;
        let lines = self.grid.num_lines();
        self.grid.reset_lines(0, lines, &template);
    }

    fn deccolm(&mut self)
        requires
            old(self).wf(),
        ensures
            final(self)@ == old(self)@.deccolm(),
            final(self).wf(),
    {
        proof {
            reveal(TermView::deccolm);
        }
        let lines = self.grid.num_lines();
        self.set_scrolling_region(core::ops::Range::<Line> { start: 0, end: lines });
        self.clear_all();
    }

    fn insert_mode(&mut self, flags: u16)
        ensures
            final(self)@ == old(self)@.with_mode(flags),
            old(self).wf() ==> final(self).wf(),
    {
        proof {
            reveal(TermView::with_mode);
        }
        self.mode.insert(flags);
    }

    fn remove_mode(&mut self, flags: u16)
        ensures
            final(self)@ == old(self)@.without_mode(flags),
            old(self).wf() ==> final(self).wf(),
    {
        proof {
            reveal(TermView::without_mode);
        }
        self.mode.remove(flags);
    }

    fn enter_alt_screen(&mut self)
        requires
            old(self).wf(),
        ensures
            final(self)@ == old(self)@.enter_alt_screen(),
            final(self).wf(),
    {
        proof {
            reveal(TermView::enter_alt_screen);
        }
        self.insert_mode(ALT_SCREEN);
        self.save_cursor_position();
        if !self.alt {
            self.swap_alt();
            self.save_cursor_position();
        } else {
            self.save_cursor_position();
        }
    }

    fn leave_alt_screen(&mut self)
        requires
            old(self).wf(),
        ensures
            final(self)@ == old(self)@.leave_alt_screen(),
            final(self).wf(),
    {
        proof {
            reveal(TermView::leave_alt_screen);
        }
        self.remove_mode(ALT_SCREEN);
        self.restore_cursor_position();
        if self.alt {
            self.swap_alt();
            self.restore_cursor_position();
        } else {
            self.restore_cursor_position();
        }
    }

    fn insert_mouse_mode(&mut self, flags: u16)
        ensures
            final(self)@ == old(self)@.with_mode(flags).with_mouse_cursor(MouseCursor::Arrow),
            old(self).wf() ==> final(self).wf(),
    {
        proof {
            reveal(TermView::with_mode);
            reveal(TermView::with_mouse_cursor);
        }
        self.mode.insert(flags);
        self.next_mouse_cursor = Some(MouseCursor::Arrow);
    }

    fn remove_mouse_mode(&mut self, flags: u16)
        ensures
            final(self)@ == old(self)@.without_mode(flags).with_mouse_cursor(MouseCursor::Text),
            old(self).wf() ==> final(self).wf(),
    {
        proof {
            reveal(TermView::with_mode);
            reveal(TermView::without_mode);
            reveal(TermView::with_mouse_cursor);
        }
        self.mode.remove(flags);
        self.next_mouse_cursor = Some(MouseCursor::Text);
    }

    /// Sets a mode.
    pub fn set_mode(&mut self, mode: Mode)
        requires
            old(self).wf(),
        ensures
            final(self)@ == old(self)@.set_mode(mode),
            final(self).wf(),
    {
        proof {
            reveal(TermView::set_mode);
        }
        match mode {
            Mode::SwapScreenAndSetRestoreCursor => self.enter_alt_screen(),
            Mode::ShowCursor => self.insert_mode(SHOW_CURSOR),
            Mode::CursorKeys => self.insert_mode(APP_CURSOR),
            Mode::ReportMouseClicks => self.insert_mouse_mode(MOUSE_REPORT_CLICK),
            Mode::ReportCellMouseMotion => self.insert_mouse_mode(MOUSE_DRAG),
            Mode::ReportAllMouseMotion => self.insert_mouse_mode(MOUSE_MOTION),
            Mode::ReportFocusInOut => self.insert_mode(FOCUS_IN_OUT),
            Mode::BracketedPaste => self.insert_mode(BRACKETED_PASTE),
            Mode::SgrMouse => self.insert_mode(SGR_MOUSE),
            Mode::LineWrap => self.insert_mode(LINE_WRAP),
            Mode::LineFeedNewLine => self.insert_mode(LINE_FEED_NEW_LINE),
            Mode::Origin => self.insert_mode(ORIGIN),
            Mode::DECCOLM => self.deccolm(),
            Mode::Insert => self.insert_mode(INSERT),
            Mode::BlinkingCursor => {},
        }
    }

    /// Resets a mode.
    pub fn unset_mode(&mut self, mode: Mode)
        requires
            old(self).wf(),
        ensures
            final(self)@ == old(self)@.unset_mode(mode),
            final(self).wf(),
    {
        proof {
            reveal(TermView::unset_mode);
        }
        match mode {
            Mode::SwapScreenAndSetRestoreCursor => self.leave_alt_screen(),
            Mode::ShowCursor => self.remove_mode(SHOW_CURSOR),
            Mode::CursorKeys => self.remove_mode(APP_CURSOR),
            Mode::ReportMouseClicks => self.remove_mouse_mode(MOUSE_REPORT_CLICK),
            Mode::ReportCellMouseMotion => self.remove_mouse_mode(MOUSE_DRAG),
            Mode::ReportAllMouseMotion => self.remove_mouse_mode(MOUSE_MOTION),
            Mode::ReportFocusInOut => self.remove_mode(FOCUS_IN_OUT),
            Mode::BracketedPaste => self.remove_mode(BRACKETED_PASTE),
            Mode::SgrMouse => self.remove_mode(SGR_MOUSE),
            Mode::LineWrap => self.remove_mode(LINE_WRAP),
            Mode::LineFeedNewLine => self.remove_mode(LINE_FEED_NEW_LINE),
            Mode::Origin => self.remove_mode(ORIGIN),
            Mode::DECCOLM => self.deccolm(),
            Mode::Insert => self.remove_mode(INSERT),
            Mode::BlinkingCursor => {},
        }
    }

    /// Puts the terminal back into the state it was made in, but for its size.
    pub fn reset_state(&mut self)
        requires
            old(self).wf(),
        ensures
            final(self)@ == old(self)@.reset_state(),
            final(self).wf(),
    {
        proof {
            reveal(TermView::reset_state);
        }
        self.input_needs_wrap = false;
        self.next_title = None;
        self.next_mouse_cursor = None;
        self.alt = false;
        self.cursor = Cursor::default();
        self.active_charset = CharsetIndex::default();
        self.mode = TermMode::default();
        self.next_is_urgent = None;
        self.cursor_save = Cursor::default();
        self.cursor_save_alt = Cursor::default();
        self.cursor_style = None;
        self.grid.clear_history();
        let lines = self.grid.num_lines();
        let blank = Cell::default();
        self.grid.reset_lines(0, lines, &blank);
    }
}

} // verus!
