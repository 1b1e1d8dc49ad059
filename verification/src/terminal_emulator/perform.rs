//! What the sequences that the parser finds do to the terminal.

use crate::strings::decode_lossy;
use crate::strings::lossy_text;
use crate::terminal_emulator::ansi::Attr;
use crate::terminal_emulator::ansi::CharsetIndex;
use crate::terminal_emulator::ansi::ClearMode;
use crate::terminal_emulator::ansi::Color;
use crate::terminal_emulator::ansi::CursorStyle;
use crate::terminal_emulator::ansi::LineClearMode;
use crate::terminal_emulator::ansi::Mode;
use crate::terminal_emulator::ansi::NamedColor;
use crate::terminal_emulator::ansi::StandardCharset;
use crate::terminal_emulator::ansi::TabulationClearMode;
use crate::terminal_emulator::index::max;
use crate::terminal_emulator::index::Line;
use crate::terminal_emulator::parser::Processor;
use crate::terminal_emulator::parser::ProcessorView;
use crate::terminal_emulator::parser::Sequence;
use crate::terminal_emulator::parser::SequenceView;
use crate::terminal_emulator::term::color::Rgb;
use crate::terminal_emulator::term::editing::char_width;
use crate::terminal_emulator::term::editing::width_known;
use crate::terminal_emulator::term::modes::identity_report;
use crate::terminal_emulator::term::modes::ok_report;
use crate::terminal_emulator::term::modes::position_report;
use crate::terminal_emulator::term::Term;
use crate::terminal_emulator::term::TermView;
use vstd::prelude::*;
use vstd::slice::slice_subrange;

verus! {

/// A parameter of a sequence: the one at `idx`, or the default where there is none
/// or it is zero.
pub open spec fn arg(params: Seq<usize>, idx: int, default: usize) -> usize {
    if 0 <= idx < params.len() && params[idx] != 0 {
        params[idx]
    } else {
        default
    }
}

fn arg_or_default(params: &Vec<usize>, idx: usize, default: usize) -> (value: usize)
    ensures
        value == arg(params@, idx as int, default),
{
    if idx < params.len() && params[idx] != 0 {
        params[idx]
    } else {
        default
    }
}

/// A number as a count of tabs, kept within the range of `i64`.
pub open spec fn count_of(n: usize) -> i64 {
    if n > i64::MAX {
        i64::MAX
    } else {
        n as i64
    }
}

fn to_count(n: usize) -> (count: i64)
    ensures
        count == count_of(n),
{
    let wide = n as u64;
    if wide > 0x7fff_ffff_ffff_ffff {
        i64::MAX
    } else {
        wide as i64
    }
}

/// The attribute that a parameter of a graphic-rendition sequence stands for, if it
/// stands for one by itself.
pub open spec fn attr_of(code: usize) -> Option<Attr> {
    match code {
        0 => Some(Attr::Reset),
        1 => Some(Attr::Bold),
        2 => Some(Attr::Dim),
        3 => Some(Attr::Italic),
        4 => Some(Attr::Underscore),
        5 => Some(Attr::BlinkSlow),
        6 => Some(Attr::BlinkFast),
        7 => Some(Attr::Reverse),
        8 => Some(Attr::Hidden),
        9 => Some(Attr::Strike),
        21 => Some(Attr::CancelBold),
        22 => Some(Attr::CancelBoldDim),
        23 => Some(Attr::CancelItalic),
        24 => Some(Attr::CancelUnderline),
        25 => Some(Attr::CancelBlink),
        27 => Some(Attr::CancelReverse),
        28 => Some(Attr::CancelHidden),
        29 => Some(Attr::CancelStrike),
        30 => Some(Attr::Foreground(Color::Named(NamedColor::Black))),
        31 => Some(Attr::Foreground(Color::Named(NamedColor::Red))),
        32 => Some(Attr::Foreground(Color::Named(NamedColor::Green))),
        33 => Some(Attr::Foreground(Color::Named(NamedColor::Yellow))),
        34 => Some(Attr::Foreground(Color::Named(NamedColor::Blue))),
        35 => Some(Attr::Foreground(Color::Named(NamedColor::Magenta))),
        36 => Some(Attr::Foreground(Color::Named(NamedColor::Cyan))),
        37 => Some(Attr::Foreground(Color::Named(NamedColor::White))),
        39 => Some(Attr::Foreground(Color::Named(NamedColor::Foreground))),
        40 => Some(Attr::Background(Color::Named(NamedColor::Black))),
        41 => Some(Attr::Background(Color::Named(NamedColor::Red))),
        42 => Some(Attr::Background(Color::Named(NamedColor::Green))),
        43 => Some(Attr::Background(Color::Named(NamedColor::Yellow))),
        44 => Some(Attr::Background(Color::Named(NamedColor::Blue))),
        45 => Some(Attr::Background(Color::Named(NamedColor::Magenta))),
        46 => Some(Attr::Background(Color::Named(NamedColor::Cyan))),
        47 => Some(Attr::Background(Color::Named(NamedColor::White))),
        49 => Some(Attr::Background(Color::Named(NamedColor::Background))),
        90 => Some(Attr::Foreground(Color::Named(NamedColor::BrightBlack))),
        91 => Some(Attr::Foreground(Color::Named(NamedColor::BrightRed))),
        92 => Some(Attr::Foreground(Color::Named(NamedColor::BrightGreen))),
        93 => Some(Attr::Foreground(Color::Named(NamedColor::BrightYellow))),
        94 => Some(Attr::Foreground(Color::Named(NamedColor::BrightBlue))),
        95 => Some(Attr::Foreground(Color::Named(NamedColor::BrightMagenta))),
        96 => Some(Attr::Foreground(Color::Named(NamedColor::BrightCyan))),
        97 => Some(Attr::Foreground(Color::Named(NamedColor::BrightWhite))),
        100 => Some(Attr::Background(Color::Named(NamedColor::BrightBlack))),
        101 => Some(Attr::Background(Color::Named(NamedColor::BrightRed))),
        102 => Some(Attr::Background(Color::Named(NamedColor::BrightGreen))),
        103 => Some(Attr::Background(Color::Named(NamedColor::BrightYellow))),
        104 => Some(Attr::Background(Color::Named(NamedColor::BrightBlue))),
        105 => Some(Attr::Background(Color::Named(NamedColor::BrightMagenta))),
        106 => Some(Attr::Background(Color::Named(NamedColor::BrightCyan))),
        107 => Some(Attr::Background(Color::Named(NamedColor::BrightWhite))),
        _ => None,
    }
}

fn attr_from_code(code: usize) -> (attr: Option<Attr>)
    ensures
        attr == attr_of(code),
{
    match code {
        0 => Some(Attr::Reset),
        1 => Some(Attr::Bold),
        2 => Some(Attr::Dim),
        3 => Some(Attr::Italic),
        4 => Some(Attr::Underscore),
        5 => Some(Attr::BlinkSlow),
        6 => Some(Attr::BlinkFast),
        7 => Some(Attr::Reverse),
        8 => Some(Attr::Hidden),
        9 => Some(Attr::Strike),
        21 => Some(Attr::CancelBold),
        22 => Some(Attr::CancelBoldDim),
        23 => Some(Attr::CancelItalic),
        24 => Some(Attr::CancelUnderline),
        25 => Some(Attr::CancelBlink),
        27 => Some(Attr::CancelReverse),
        28 => Some(Attr::CancelHidden),
        29 => Some(Attr::CancelStrike),
        30 => Some(Attr::Foreground(Color::Named(NamedColor::Black))),
        31 => Some(Attr::Foreground(Color::Named(NamedColor::Red))),
        32 => Some(Attr::Foreground(Color::Named(NamedColor::Green))),
        33 => Some(Attr::Foreground(Color::Named(NamedColor::Yellow))),
        34 => Some(Attr::Foreground(Color::Named(NamedColor::Blue))),
        35 => Some(Attr::Foreground(Color::Named(NamedColor::Magenta))),
        36 => Some(Attr::Foreground(Color::Named(NamedColor::Cyan))),
        37 => Some(Attr::Foreground(Color::Named(NamedColor::White))),
        39 => Some(Attr::Foreground(Color::Named(NamedColor::Foreground))),
        40 => Some(Attr::Background(Color::Named(NamedColor::Black))),
        41 => Some(Attr::Background(Color::Named(NamedColor::Red))),
        42 => Some(Attr::Background(Color::Named(NamedColor::Green))),
        43 => Some(Attr::Background(Color::Named(NamedColor::Yellow))),
        44 => Some(Attr::Background(Color::Named(NamedColor::Blue))),
        45 => Some(Attr::Background(Color::Named(NamedColor::Magenta))),
        46 => Some(Attr::Background(Color::Named(NamedColor::Cyan))),
        47 => Some(Attr::Background(Color::Named(NamedColor::White))),
        49 => Some(Attr::Background(Color::Named(NamedColor::Background))),
        90 => Some(Attr::Foreground(Color::Named(NamedColor::BrightBlack))),
        91 => Some(Attr::Foreground(Color::Named(NamedColor::BrightRed))),
        92 => Some(Attr::Foreground(Color::Named(NamedColor::BrightGreen))),
        93 => Some(Attr::Foreground(Color::Named(NamedColor::BrightYellow))),
        94 => Some(Attr::Foreground(Color::Named(NamedColor::BrightBlue))),
        95 => Some(Attr::Foreground(Color::Named(NamedColor::BrightMagenta))),
        96 => Some(Attr::Foreground(Color::Named(NamedColor::BrightCyan))),
        97 => Some(Attr::Foreground(Color::Named(NamedColor::BrightWhite))),
        100 => Some(Attr::Background(Color::Named(NamedColor::BrightBlack))),
        101 => Some(Attr::Background(Color::Named(NamedColor::BrightRed))),
        102 => Some(Attr::Background(Color::Named(NamedColor::BrightGreen))),
        103 => Some(Attr::Background(Color::Named(NamedColor::BrightYellow))),
        104 => Some(Attr::Background(Color::Named(NamedColor::BrightBlue))),
        105 => Some(Attr::Background(Color::Named(NamedColor::BrightMagenta))),
        106 => Some(Attr::Background(Color::Named(NamedColor::BrightCyan))),
        107 => Some(Attr::Background(Color::Named(NamedColor::BrightWhite))),
        _ => None,
    }
}

/// The mode that a number stands for, in a private sequence or a public one.
pub open spec fn mode_of(private: bool, num: usize) -> Option<Mode> {
    if private {
        match num {
            1 => Some(Mode::CursorKeys),
            3 => Some(Mode::DECCOLM),
            6 => Some(Mode::Origin),
            7 => Some(Mode::LineWrap),
            12 => Some(Mode::BlinkingCursor),
            25 => Some(Mode::ShowCursor),
            1000 => Some(Mode::ReportMouseClicks),
            1002 => Some(Mode::ReportCellMouseMotion),
            1003 => Some(Mode::ReportAllMouseMotion),
            1004 => Some(Mode::ReportFocusInOut),
            1006 => Some(Mode::SgrMouse),
            1049 => Some(Mode::SwapScreenAndSetRestoreCursor),
            2004 => Some(Mode::BracketedPaste),
            _ => None,
        }
    } else {
        match num {
            4 => Some(Mode::Insert),
            20 => Some(Mode::LineFeedNewLine),
            _ => None,
        }
    }
}

fn mode_from_primitive(private: bool, num: usize) -> (mode: Option<Mode>)
    ensures
        mode == mode_of(private, num),
{
    if private {
        match num {
            1 => Some(Mode::CursorKeys),
            3 => Some(Mode::DECCOLM),
            6 => Some(Mode::Origin),
            7 => Some(Mode::LineWrap),
            12 => Some(Mode::BlinkingCursor),
            25 => Some(Mode::ShowCursor),
            1000 => Some(Mode::ReportMouseClicks),
            1002 => Some(Mode::ReportCellMouseMotion),
            1003 => Some(Mode::ReportAllMouseMotion),
            1004 => Some(Mode::ReportFocusInOut),
            1006 => Some(Mode::SgrMouse),
            1049 => Some(Mode::SwapScreenAndSetRestoreCursor),
            2004 => Some(Mode::BracketedPaste),
            _ => None,
        }
    } else {
        match num {
            4 => Some(Mode::Insert),
            20 => Some(Mode::LineFeedNewLine),
            _ => None,
        }
    }
}

/// The colour that follows a parameter 38 or 48 at `i`, and how many parameters it
/// takes: an indexed colour after a 5, a colour of red, green and blue after a 2.
/// Where the parameters do not give a colour, none is taken, but for numbers out of
/// range, which are passed over.
pub open spec fn color_at(params: Seq<usize>, i: int) -> (Option<Color>, int) {
    if i + 1 >= params.len() {
        (None, 0)
    } else if params[i + 1] == 2 {
        if i + 4 >= params.len() {
            (None, 0)
        } else if params[i + 2] < 256 && params[i + 3] < 256 && params[i + 4] < 256 {
            (
                Some(
                    Color::Spec(
                        Rgb {
                            r: params[i + 2] as u8,
                            g: params[i + 3] as u8,
                            b: params[i + 4] as u8,
                        },
                    ),
                ),
                4,
            )
        } else {
            (None, 4)
        }
    } else if params[i + 1] == 5 {
        if i + 2 >= params.len() {
            (None, 0)
        } else if params[i + 2] < 256 {
            (Some(Color::Indexed(params[i + 2] as u8)), 2)
        } else {
            (None, 2)
        }
    } else {
        (None, 0)
    }
}

fn parse_color(params: &Vec<usize>, i: usize) -> (r: (Option<Color>, usize))
    requires
        i < params@.len(),
    ensures
        (r.0, r.1 as int) == color_at(params@, i as int),
        r.1 <= 4,
        i + r.1 < params@.len(),
{
    let len = params.len();
    if len - i < 2 {
        (None, 0)
    } else if params[i + 1] == 2 {
        if len - i < 5 {
            (None, 0)
        } else if params[i + 2] < 256 && params[i + 3] < 256 && params[i + 4] < 256 {
            (
                Some(
                    Color::Spec(
                        Rgb {
                            r: params[i + 2] as u8,
                            g: params[i + 3] as u8,
                            b: params[i + 4] as u8,
                        },
                    ),
                ),
                4,
            )
        } else {
            (None, 4)
        }
    } else if params[i + 1] == 5 {
        if len - i < 3 {
            (None, 0)
        } else if params[i + 2] < 256 {
            (Some(Color::Indexed(params[i + 2] as u8)), 2)
        } else {
            (None, 2)
        }
    } else {
        (None, 0)
    }
}

/// The charset slot that an intermediate byte of an escape sequence names.
pub open spec fn charset_slot(intermediate: u8) -> Option<CharsetIndex> {
    match intermediate {
        0x28 => Some(CharsetIndex::G0),
        0x29 => Some(CharsetIndex::G1),
        0x2a => Some(CharsetIndex::G2),
        0x2b => Some(CharsetIndex::G3),
        _ => None,
    }
}

/// The index of the first semicolon of an operating system command at or after
/// `from`, or the length where there is none.
pub open spec fn first_semicolon(data: Seq<u8>, from: int) -> int
    decreases data.len() - from,
{
    if from >= data.len() {
        data.len() as int
    } else if from >= 0 && data[from] == 0x3b {
        from
    } else {
        first_semicolon(data, from + 1)
    }
}

/// The title that an operating system command sets, if it sets one: the commands 0
/// and 2 set the text after their first semicolon.
pub open spec fn title_of(data: Seq<u8>) -> Option<Seq<char>> {
    let at = first_semicolon(data, 0);
    if at == 1 && at < data.len() && (data[0] == 0x30 || data[0] == 0x32) {
        Some(lossy_text(data.subrange(2, data.len() as int)))
    } else {
        None
    }
}

impl TermView {
    pub open spec fn insert_blank_lines(self, lines: int) -> TermView {
        if self.in_region() {
            self.scroll_down_relative(self.line(), lines)
        } else {
            self
        }
    }

    pub open spec fn delete_lines(self, lines: int) -> TermView {
        if self.in_region() {
            self.scroll_up_relative(self.line(), lines)
        } else {
            self
        }
    }

    /// A character put on the screen.
    pub open spec fn input(self, c: char) -> TermView {
        self.input_with_width(c, char_width(c))
    }

    /// The character that was shown last, shown again `n` times; nothing where none
    /// was shown yet.
    pub open spec fn repeated(self, preceding: Option<char>, n: int) -> TermView
        decreases n,
    {
        if n <= 0 || preceding is None {
            self
        } else {
            self.input(preceding.unwrap()).repeated(preceding, n - 1)
        }
    }

    pub open spec fn tabs_cleared(self, which: usize) -> TermView {
        if which == 0 {
            self.clear_tabs(TabulationClearMode::Current)
        } else if which == 3 {
            self.clear_tabs(TabulationClearMode::All)
        } else {
            self
        }
    }

    pub open spec fn screen_cleared(self, which: usize) -> TermView {
        match which {
            0 => self.clear_screen(ClearMode::Below),
            1 => self.clear_screen(ClearMode::Above),
            2 => self.clear_screen(ClearMode::All),
            3 => self.clear_screen(ClearMode::Saved),
            _ => self,
        }
    }

    pub open spec fn line_cleared(self, which: usize) -> TermView {
        match which {
            0 => self.clear_line(LineClearMode::Right),
            1 => self.clear_line(LineClearMode::Left),
            2 => self.clear_line(LineClearMode::All),
            _ => self,
        }
    }

    /// The modes that the parameters from `i` on name, set one after the other.
    pub open spec fn modes_set(self, private: bool, params: Seq<usize>, i: int) -> TermView
        decreases params.len() - i,
    {
        if i < 0 || i >= params.len() {
            self
        } else {
            (match mode_of(private, params[i]) {
                Some(mode) => self.set_mode(mode),
                None => self,
            }).modes_set(private, params, i + 1)
        }
    }

    /// The modes that the parameters from `i` on name, reset one after the other.
    pub open spec fn modes_unset(self, private: bool, params: Seq<usize>, i: int) -> TermView
        decreases params.len() - i,
    {
        if i < 0 || i >= params.len() {
            self
        } else {
            (match mode_of(private, params[i]) {
                Some(mode) => self.unset_mode(mode),
                None => self,
            }).modes_unset(private, params, i + 1)
        }
    }

    /// The attributes that the parameters from `i` on name, applied one after the
    /// other.
    pub open spec fn sgr_from(self, params: Seq<usize>, i: int) -> TermView
        decreases params.len() - i,
    {
        if i < 0 || i >= params.len() {
            self
        } else if params[i] == 38 || params[i] == 48 {
            let (color, used) = color_at(params, i);
            if used < 0 {
                self
            } else {
                (match color {
                    Some(c) => self.with_attr(
                        if params[i] == 38 {
                            Attr::Foreground(c)
                        } else {
                            Attr::Background(c)
                        },
                    ),
                    None => self,
                }).sgr_from(params, i + 1 + used)
            }
        } else {
            (match attr_of(params[i]) {
                Some(attr) => self.with_attr(attr),
                None => self,
            }).sgr_from(params, i + 1)
        }
    }

    /// What a graphic-rendition sequence does: without parameters it resets the
    /// attributes.
    pub open spec fn sgr(self, params: Seq<usize>) -> TermView {
        if params.len() == 0 {
            self.with_attr(Attr::Reset)
        } else {
            self.sgr_from(params, 0)
        }
    }

    pub open spec fn cursor_styled(self, which: usize) -> TermView {
        match which {
            0 => self.with_cursor_style(None),
            1 | 2 => self.with_cursor_style(Some(CursorStyle::Block)),
            3 | 4 => self.with_cursor_style(Some(CursorStyle::Underline)),
            5 | 6 => self.with_cursor_style(Some(CursorStyle::Beam)),
            _ => self,
        }
    }

    /// What a control character does.
    pub open spec fn executed(self, byte: u8) -> TermView {
        match byte {
            0x07 => self.bell(),
            0x08 => self.backspace(),
            0x09 => self.put_tab(1),
            0x0a | 0x0b | 0x0c => self.linefeed(),
            0x0d => self.carriage_return(),
            0x0e => self.with_active_charset(CharsetIndex::G1),
            0x0f => self.with_active_charset(CharsetIndex::G0),
            0x85 => self.newline(),
            0x88 => self.with_tab_stop(true),
            _ => self,
        }
    }

    /// What a control sequence does. One with more than one intermediate byte does
    /// nothing.
    pub open spec fn csi_performed(
        self,
        params: Seq<usize>,
        intermediates: Seq<u8>,
        ignore: bool,
        action: u8,
        preceding: Option<char>,
    ) -> TermView {
        let t = self;
        let n = arg(params, 0, 1);
        if ignore || intermediates.len() > 1 {
            t
        } else if intermediates.len() == 1 {
            if intermediates[0] == 0x3f && action == 0x68 {
                t.modes_set(true, params, 0)
            } else if intermediates[0] == 0x3f && action == 0x6c {
                t.modes_unset(true, params, 0)
            } else if intermediates[0] == 0x20 && action == 0x71 {
                t.cursor_styled(arg(params, 0, 0))
            } else {
                t
            }
        } else {
            match action {
            0x40 => t.insert_blank(n as int),
            0x41 => t.move_up(n as int),
            0x42 | 0x65 => t.move_down(n as int),
            0x43 | 0x61 => t.move_forward(n as int),
            0x44 => t.move_backward(n as int),
            0x45 => t.goto(t.line() + n, 0),
            0x46 => t.goto(max(t.line() - n, 0), 0),
            0x47 | 0x60 => t.goto(t.line(), n - 1),
            0x48 | 0x66 => t.goto(n - 1, arg(params, 1, 1) - 1),
            0x4c => t.insert_blank_lines(n as int),
            0x4d => t.delete_lines(n as int),
            0x50 => t.delete_chars(n as int),
            0x53 => t.scroll_up(n as int),
            0x54 => t.scroll_down(n as int),
            0x58 => t.erase_chars(n as int),
            0x5a => t.back_tabbed(count_of(n) as int),
            0x62 => t.repeated(preceding, n as int),
            0x64 => t.goto(n - 1, t.col()),
            0x67 => t.tabs_cleared(arg(params, 0, 0)),
            0x4a => t.screen_cleared(arg(params, 0, 0)),
            0x4b => t.line_cleared(arg(params, 0, 0)),
            0x68 => t.modes_set(false, params, 0),
            0x6c => t.modes_unset(false, params, 0),
            0x6d => t.sgr(params),
            0x72 => t.set_scrolling_region(n - 1, arg(params, 1, t.lines() as usize) as int),
            0x73 => t.save_cursor(),
            0x75 => t.restore_cursor(),
                _ => t,
            }
        }
    }

    /// What an escape sequence does.
    pub open spec fn esc_performed(self, intermediates: Seq<u8>, ignore: bool, action: u8) -> TermView {
        if ignore || intermediates.len() > 1 {
            self
        } else if intermediates.len() == 1 {
            if action == 0x42 || action == 0x30 {
                match charset_slot(intermediates[0]) {
                    Some(slot) => self.with_charset(
                        slot,
                        if action == 0x30 {
                            StandardCharset::SpecialCharacterAndLineDrawing
                        } else {
                            StandardCharset::Ascii
                        },
                    ),
                    None => self,
                }
            } else if action == 0x38 && intermediates[0] == 0x23 {
                self.dectest()
            } else {
                self
            }
        } else {
            match action {
                0x44 => self.linefeed(),
                0x45 => self.linefeed().carriage_return(),
                0x48 => self.with_tab_stop(true),
                0x4d => self.reverse_index(),
                0x63 => self.reset_state(),
                0x37 => self.save_cursor(),
                0x38 => self.restore_cursor(),
                0x3d => self.with_mode(crate::terminal_emulator::mode::APP_KEYPAD),
                0x3e => self.without_mode(crate::terminal_emulator::mode::APP_KEYPAD),
                _ => self,
            }
        }
    }

    /// What an operating system command does: it sets the title, if it is one that
    /// does and titles are not fixed.
    pub open spec fn osc_performed(self, data: Seq<u8>) -> TermView {
        match title_of(data) {
            Some(title) => self.titled(title),
            None => self,
        }
    }

    /// What a sequence does to the terminal.
    #[verifier::opaque]
    pub open spec fn performed(self, sequence: SequenceView, preceding: Option<char>) -> TermView {
        match sequence {
            SequenceView::Print(c) => self.input(c),
            SequenceView::Execute(byte) => self.executed(byte),
            SequenceView::Csi { params, intermediates, ignore, action } => self.csi_performed(
                params,
                intermediates,
                ignore,
                action,
                preceding,
            ),
            SequenceView::Esc { intermediates, ignore, action } => self.esc_performed(
                intermediates,
                ignore,
                action,
            ),
            SequenceView::Osc { data } => self.osc_performed(data),
        }
    }

    /// What the terminal answers to a sequence: its identity to a request for it, and
    /// its state or the place of the cursor to a status request.
    #[verifier::opaque]
    pub open spec fn reply(self, sequence: SequenceView) -> Seq<u8> {
        match sequence {
            SequenceView::Execute(byte) => if byte == 0x9a {
                identity_report()
            } else {
                Seq::empty()
            },
            SequenceView::Csi { params, intermediates, ignore, action } => if ignore
                || intermediates.len() > 0 {
                Seq::empty()
            } else if action == 0x63 {
                identity_report()
            } else if action == 0x6e && arg(params, 0, 0) == 5 {
                ok_report()
            } else if action == 0x6e && arg(params, 0, 0) == 6 {
                position_report(self.line(), self.col())
            } else {
                Seq::empty()
            },
            SequenceView::Esc { intermediates, ignore, action } => if !ignore
                && intermediates.len() == 0 && action == 0x5a {
                identity_report()
            } else {
                Seq::empty()
            },
            _ => Seq::empty(),
        }
    }
}

fn repeat(term: &mut Term, preceding: Option<char>, n: usize)
    requires
        old(term).wf(),
    ensures
        final(term)@ == old(term)@.repeated(preceding, n as int),
        final(term).wf(),
{
    match preceding {
        Some(c) => {
            let mut left: usize = n;
            while left > 0
                invariant
                    term.wf(),
                    term@.repeated(Some(c), left as int) == old(term)@.repeated(Some(c), n as int),
                decreases left,
            {
                term.input(c);
                left -= 1;
            }
        },
        None => {},
    }
}

fn clear_tabs(term: &mut Term, which: usize)
    requires
        old(term).wf(),
    ensures
        final(term)@ == old(term)@.tabs_cleared(which),
        final(term).wf(),
{
    if which == 0 {
        term.clear_tabs(TabulationClearMode::Current);
    } else if which == 3 {
        term.clear_tabs(TabulationClearMode::All);
    }
}

fn clear_screen(term: &mut Term, which: usize)
    requires
        old(term).wf(),
    ensures
        final(term)@ == old(term)@.screen_cleared(which),
        final(term).wf(),
{
    match which {
        0 => term.clear_screen(ClearMode::Below),
        1 => term.clear_screen(ClearMode::Above),
        2 => term.clear_screen(ClearMode::All),
        3 => term.clear_screen(ClearMode::Saved),
        _ => {},
    }
}

fn clear_line(term: &mut Term, which: usize)
    requires
        old(term).wf(),
    ensures
        final(term)@ == old(term)@.line_cleared(which),
        final(term).wf(),
{
    match which {
        0 => term.clear_line(LineClearMode::Right),
        1 => term.clear_line(LineClearMode::Left),
        2 => term.clear_line(LineClearMode::All),
        _ => {},
    }
}

fn set_one_mode(term: &mut Term, private: bool, num: usize)
    requires
        old(term).wf(),
    ensures
        final(term)@ == (match mode_of(private, num) {
            Some(mode) => old(term)@.set_mode(mode),
            None => old(term)@,
        }),
        final(term).wf(),
{
    match mode_from_primitive(private, num) {
        Some(mode) => term.set_mode(mode),
        None => {},
    }
}

fn unset_one_mode(term: &mut Term, private: bool, num: usize)
    requires
        old(term).wf(),
    ensures
        final(term)@ == (match mode_of(private, num) {
            Some(mode) => old(term)@.unset_mode(mode),
            None => old(term)@,
        }),
        final(term).wf(),
{
    match mode_from_primitive(private, num) {
        Some(mode) => term.unset_mode(mode),
        None => {},
    }
}

fn set_modes(term: &mut Term, private: bool, params: &Vec<usize>)
    requires
        old(term).wf(),
    ensures
        final(term)@ == old(term)@.modes_set(private, params@, 0),
        final(term).wf(),
{
    let mut i: usize = 0;
    while i < params.len()
        invariant
            i <= params@.len(),
            term.wf(),
            term@.modes_set(private, params@, i as int) == old(term)@.modes_set(
                private,
                params@,
                0,
            ),
        decreases params@.len() - i,
    {
        set_one_mode(term, private, params[i]);
        i += 1;
    }
}

fn unset_modes(term: &mut Term, private: bool, params: &Vec<usize>)
    requires
        old(term).wf(),
    ensures
        final(term)@ == old(term)@.modes_unset(private, params@, 0),
        final(term).wf(),
{
    let mut i: usize = 0;
    while i < params.len()
        invariant
            i <= params@.len(),
            term.wf(),
            term@.modes_unset(private, params@, i as int) == old(term)@.modes_unset(
                private,
                params@,
                0,
            ),
        decreases params@.len() - i,
    {
        unset_one_mode(term, private, params[i]);
        i += 1;
    }
}

fn apply_attr(term: &mut Term, attr: Option<Attr>)
    requires
        old(term).wf(),
    ensures
        final(term)@ == (match attr {
            Some(a) => old(term)@.with_attr(a),
            None => old(term)@,
        }),
        final(term).wf(),
{
    match attr {
        Some(a) => term.terminal_attribute(a),
        None => {},
    }
}

/// The attribute that the parameter at `i` names, and how many parameters after it
/// belong to it.
fn attr_at(params: &Vec<usize>, i: usize) -> (r: (Option<Attr>, usize))
    requires
        i < params@.len(),
    ensures
        i + r.1 < params@.len(),
        params@[i as int] == 38 || params@[i as int] == 48 ==> r.1 == color_at(
            params@,
            i as int,
        ).1 && r.0 == (match color_at(params@, i as int).0 {
            Some(c) => Some(
                if params@[i as int] == 38 {
                    Attr::Foreground(c)
                } else {
                    Attr::Background(c)
                },
            ),
            None => None,
        }),
        params@[i as int] != 38 && params@[i as int] != 48 ==> r.1 == 0 && r.0 == attr_of(
            params@[i as int],
        ),
{
    let code = params[i];
    if code == 38 || code == 48 {
        let (color, used) = parse_color(params, i);
        match color {
            Some(c) => if code == 38 {
                (Some(Attr::Foreground(c)), used)
            } else {
                (Some(Attr::Background(c)), used)
            },
            None => (None, used),
        }
    } else {
        (attr_from_code(code), 0)
    }
}

fn set_attributes(term: &mut Term, params: &Vec<usize>)
    requires
        old(term).wf(),
    ensures
        final(term)@ == old(term)@.sgr(params@),
        final(term).wf(),
{
    if params.len() == 0 {
        term.terminal_attribute(Attr::Reset);
        return ;
    }
    let mut i: usize = 0;
    while i < params.len()
        invariant
            i <= params@.len(),
            term.wf(),
            term@.sgr_from(params@, i as int) == old(term)@.sgr_from(params@, 0),
        decreases params@.len() - i,
    {
        let (attr, used) = attr_at(params, i);
        apply_attr(term, attr);
        i = i + 1 + used;
    }
}

fn set_cursor_style(term: &mut Term, which: usize)
    requires
        old(term).wf(),
    ensures
        final(term)@ == old(term)@.cursor_styled(which),
        final(term).wf(),
{
    match which {
        0 => term.set_cursor_style(None),
        1 | 2 => term.set_cursor_style(Some(CursorStyle::Block)),
        3 | 4 => term.set_cursor_style(Some(CursorStyle::Underline)),
        5 | 6 => term.set_cursor_style(Some(CursorStyle::Beam)),
        _ => {},
    }
}

fn execute(term: &mut Term, writer: &mut Vec<u8>, byte: u8)
    requires
        old(term).wf(),
    ensures
        final(term)@ == old(term)@.executed(byte),
        final(term).wf(),
        final(writer)@ == old(writer)@ + old(term)@.reply(SequenceView::Execute(byte)),
{
    proof {
        reveal(TermView::reply);
        assert(writer@ + Seq::<u8>::empty() =~= writer@);
    }
    match byte {
        0x07 => term.bell(),
        0x08 => term.backspace(),
        0x09 => term.put_tab(1),
        0x0a | 0x0b | 0x0c => term.linefeed(),
        0x0d => term.carriage_return(),
        0x0e => term.set_active_charset(CharsetIndex::G1),
        0x0f => term.set_active_charset(CharsetIndex::G0),
        0x85 => term.newline(),
        0x88 => term.set_horizontal_tabstop(),
        0x9a => term.identify_terminal(writer),
        _ => {},
    }
}

fn csi_plain(term: &mut Term, params: &Vec<usize>, action: u8, preceding: Option<char>)
    requires
        old(term).wf(),
        action != 0x63,
        action != 0x6e,
    ensures
        final(term)@ == old(term)@.csi_performed(
            params@,
            Seq::empty(),
            false,
            action,
            preceding,
        ),
        final(term).wf(),
{
    let n = arg_or_default(params, 0, 1);
    match action {
        0x40 => term.insert_blank(n),
        0x41 => term.move_up(n),
        0x42 | 0x65 => term.move_down(n),
        0x43 | 0x61 => term.move_forward(n),
        0x44 => term.move_backward(n),
        0x45 => term.move_down_and_cr(n),
        0x46 => term.move_up_and_cr(n),
        0x47 | 0x60 => term.goto_col(n - 1),
        0x48 | 0x66 => term.goto(n - 1, arg_or_default(params, 1, 1) - 1),
        0x4c => term.insert_blank_lines(n),
        0x4d => term.delete_lines(n),
        0x50 => term.delete_chars(n),
        0x53 => term.scroll_up(n),
        0x54 => term.scroll_down(n),
        0x58 => term.erase_chars(n),
        0x5a => term.move_backward_tabs(to_count(n)),
        0x62 => repeat(term, preceding, n),
        0x64 => term.goto_line(n - 1),
        0x67 => clear_tabs(term, arg_or_default(params, 0, 0)),
        0x4a => clear_screen(term, arg_or_default(params, 0, 0)),
        0x4b => clear_line(term, arg_or_default(params, 0, 0)),
        0x68 => set_modes(term, false, params),
        0x6c => unset_modes(term, false, params),
        0x6d => set_attributes(term, params),
        0x72 => term.set_scrolling_region(
            core::ops::Range::<Line> {
                start: n - 1,
                end: arg_or_default(params, 1, term.grid.num_lines()),
            },
        ),
        0x73 => term.save_cursor_position(),
        0x75 => term.restore_cursor_position(),
        _ => {},
    }
}

fn csi_dispatch(
    term: &mut Term,
    writer: &mut Vec<u8>,
    params: &Vec<usize>,
    intermediates: &Vec<u8>,
    ignore: bool,
    action: u8,
    preceding: Option<char>,
)
    requires
        old(term).wf(),
    ensures
        final(term)@ == old(term)@.csi_performed(
            params@,
            intermediates@,
            ignore,
            action,
            preceding,
        ),
        final(term).wf(),
        final(writer)@ == old(writer)@ + old(term)@.reply(
            SequenceView::Csi { params: params@, intermediates: intermediates@, ignore, action },
        ),
{
    proof {
        reveal(TermView::reply);
        assert(writer@ + Seq::<u8>::empty() =~= writer@);
    }
    if ignore || intermediates.len() > 1 {
        return ;
    }
    if intermediates.len() == 1 {
        let first = intermediates[0];
        if first == 0x3f && action == 0x68 {
            set_modes(term, true, params);
        } else if first == 0x3f && action == 0x6c {
            unset_modes(term, true, params);
        } else if first == 0x20 && action == 0x71 {
            set_cursor_style(term, arg_or_default(params, 0, 0));
        }
        return ;
    }
    proof {
        assert(intermediates@ =~= Seq::<u8>::empty());
    }
    if action == 0x63 {
        term.identify_terminal(writer);
    } else if action == 0x6e {
        term.device_status(writer, arg_or_default(params, 0, 0));
    } else {
        csi_plain(term, params, action, preceding);
    }
}

fn configure(term: &mut Term, intermediate: u8, charset: StandardCharset)
    requires
        old(term).wf(),
    ensures
        final(term)@ == (match charset_slot(intermediate) {
            Some(slot) => old(term)@.with_charset(slot, charset),
            None => old(term)@,
        }),
        final(term).wf(),
{
    match intermediate {
        0x28 => term.configure_charset(CharsetIndex::G0, charset),
        0x29 => term.configure_charset(CharsetIndex::G1, charset),
        0x2a => term.configure_charset(CharsetIndex::G2, charset),
        0x2b => term.configure_charset(CharsetIndex::G3, charset),
        _ => {},
    }
}

fn next_line(term: &mut Term)
    requires
        old(term).wf(),
    ensures
        final(term)@ == old(term)@.linefeed().carriage_return(),
        final(term).wf(),
{
    term.linefeed();
    term.carriage_return();
}

fn esc_dispatch(
    term: &mut Term,
    writer: &mut Vec<u8>,
    intermediates: &Vec<u8>,
    ignore: bool,
    action: u8,
)
    requires
        old(term).wf(),
    ensures
        final(term)@ == old(term)@.esc_performed(intermediates@, ignore, action),
        final(term).wf(),
        final(writer)@ == old(writer)@ + old(term)@.reply(
            SequenceView::Esc { intermediates: intermediates@, ignore, action },
        ),
{
    proof {
        reveal(TermView::reply);
        assert(writer@ + Seq::<u8>::empty() =~= writer@);
    }
    if ignore || intermediates.len() > 1 {
        return ;
    }
    if intermediates.len() == 1 {
        let first = intermediates[0];
        if action == 0x42 {
            configure(term, first, StandardCharset::Ascii);
        } else if action == 0x30 {
            configure(term, first, StandardCharset::SpecialCharacterAndLineDrawing);
        } else if action == 0x38 && first == 0x23 {
            term.dectest();
        }
        return ;
    }
    match action {
        0x44 => term.linefeed(),
        0x45 => next_line(term),
        0x48 => term.set_horizontal_tabstop(),
        0x4d => term.reverse_index(),
        0x5a => term.identify_terminal(writer),
        0x63 => term.reset_state(),
        0x37 => term.save_cursor_position(),
        0x38 => term.restore_cursor_position(),
        0x3d => term.set_keypad_application_mode(),
        0x3e => term.unset_keypad_application_mode(),
        _ => {},
    }
}

fn find_semicolon(data: &Vec<u8>) -> (at: usize)
    ensures
        at == first_semicolon(data@, 0),
        at <= data@.len(),
{
    let mut i: usize = 0;
    while i < data.len()
        invariant
            i <= data@.len(),
            first_semicolon(data@, 0) == first_semicolon(data@, i as int),
        decreases data@.len() - i,
    {
        if data[i] == 0x3b {
            return i;
        }
        i += 1;
    }
    i
}

fn osc_dispatch(term: &mut Term, data: &Vec<u8>)
    requires
        old(term).wf(),
    ensures
        final(term)@ == old(term)@.osc_performed(data@),
        final(term).wf(),
{
    let at = find_semicolon(data);
    if at == 1 && at < data.len() && (data[0] == 0x30 || data[0] == 0x32) {
        let title = decode_lossy(slice_subrange(data.as_slice(), 2, data.len()));
        term.set_title(title.as_str());
    }
}

/// Does to the terminal what a sequence asks for, and writes what the terminal
/// answers to `writer`. `preceding` is the character that was shown last.
pub fn perform(
    term: &mut Term,
    writer: &mut Vec<u8>,
    sequence: &Sequence,
    preceding: Option<char>,
)
    requires
        old(term).wf(),
    ensures
        final(term)@ == old(term)@.performed(sequence@, preceding),
        final(term).wf(),
        final(writer)@ == old(writer)@ + old(term)@.reply(sequence@),
        sequence@ matches SequenceView::Print(c) ==> width_known(c),
{
    proof {
        reveal(TermView::reply);
        reveal(TermView::performed);
    }
    match sequence {
        Sequence::Print(c) => {
            proof {
                assert(writer@ + Seq::<u8>::empty() =~= writer@);
            }
            term.input(*c);
        },
        Sequence::Execute(byte) => execute(term, writer, *byte),
        Sequence::Csi { params, intermediates, ignore, action } => csi_dispatch(
            term,
            writer,
            params,
            intermediates,
            *ignore,
            *action,
            preceding,
        ),
        Sequence::Esc { intermediates, ignore, action } => esc_dispatch(
            term,
            writer,
            intermediates,
            *ignore,
            *action,
        ),
        Sequence::Osc { data } => {
            proof {
                assert(writer@ + Seq::<u8>::empty() =~= writer@);
            }
            osc_dispatch(term, data);
        },
    }
}

/// The character that was shown last after a sequence: the one that the sequence
/// shows, if it shows one.
pub open spec fn shown_last(preceding: Option<char>, sequence: Option<SequenceView>) -> Option<
    char,
> {
    match sequence {
        Some(SequenceView::Print(c)) => Some(c),
        _ => preceding,
    }
}

/// The parser, the terminal and what the terminal has answered, together.
pub struct Session {
    pub parser: ProcessorView,
    pub term: TermView,
    pub answers: Seq<u8>,
}

impl Session {
    /// What a byte of output does: the parser takes it, and what the bytes up to it
    /// amount to is done to the terminal, whose answer is added to the answers.
    pub open spec fn advanced(self, byte: u8) -> Session {
        let (parser, sequence) = self.parser.step(byte);
        Session {
            parser: ProcessorView {
                preceding_char: shown_last(self.parser.preceding_char, sequence),
                ..parser
            },
            term: match sequence {
                Some(s) => self.term.performed(s, self.parser.preceding_char),
                None => self.term,
            },
            answers: match sequence {
                Some(s) => self.answers + self.term.reply(s),
                None => self.answers,
            },
        }
    }

    /// What bytes of output do, one after the other.
    pub open spec fn fed(self, bytes: Seq<u8>) -> Session
        decreases bytes.len(),
    {
        if bytes.len() == 0 {
            self
        } else {
            self.fed(bytes.drop_last()).advanced(bytes.last())
        }
    }
}

impl Processor {
    /// Feeds a byte of output to the parser and does to the terminal what the bytes
    /// up to it amount to. What the terminal answers is added to `writer`.
    pub fn advance(&mut self, term: &mut Term, byte: u8, writer: &mut Vec<u8>)
        requires
            old(self).wf(),
            old(term).wf(),
        ensures
            final(self).wf(),
            final(term).wf(),
            (Session { parser: final(self)@, term: final(term)@, answers: final(writer)@ }) == (Session {
                parser: old(self)@,
                term: old(term)@,
                answers: old(writer)@,
            }).advanced(byte),
    {
        let preceding = self.preceding_char;
        match self.parse(byte) {
            Some(sequence) => {
                perform(term, writer, &sequence, preceding);
                self.note(&sequence);
            },
            None => {},
        }
    }

    /// Remembers the character that a sequence shows.
    fn note(&mut self, sequence: &Sequence)
        ensures
            final(self)@ == (ProcessorView {
                preceding_char: shown_last(old(self)@.preceding_char, Some(sequence@)),
                ..old(self)@
            }),
    {
        match sequence {
            Sequence::Print(c) => {
                self.preceding_char = Some(*c);
            },
            _ => {},
        }
    }

    /// Feeds bytes of output to the parser, one after the other.
    pub fn advance_all(&mut self, term: &mut Term, bytes: &[u8], writer: &mut Vec<u8>)
        requires
            old(self).wf(),
            old(term).wf(),
        ensures
            final(self).wf(),
            final(term).wf(),
            (Session { parser: final(self)@, term: final(term)@, answers: final(writer)@ }) == (Session {
                parser: old(self)@,
                term: old(term)@,
                answers: old(writer)@,
            }).fed(bytes@),
    {
        let ghost start = Session { parser: self@, term: term@, answers: writer@ };
        let mut i: usize = 0;
        proof {
            assert(bytes@.subrange(0, 0) =~= Seq::<u8>::empty());
        }
        while i < bytes.len()
            invariant
                i <= bytes@.len(),
                self.wf(),
                term.wf(),
                (Session { parser: self@, term: term@, answers: writer@ }) == start.fed(
                    bytes@.subrange(0, i as int),
                ),
            decreases bytes@.len() - i,
        {
            proof {
                let next = bytes@.subrange(0, i + 1);
                assert(next.drop_last() =~= bytes@.subrange(0, i as int));
                assert(next.last() == bytes@[i as int]);
            }
            self.advance(term, bytes[i], writer);
            i += 1;
        }
        proof {
            assert(bytes@.subrange(0, bytes@.len() as int) =~= bytes@);
        }
    }
}

} // verus!
