//! What the alternate screen keeps of the primary one.

use crate::terminal_emulator::ansi::Attr;
use crate::terminal_emulator::ansi::ClearMode;
use crate::terminal_emulator::ansi::LineClearMode;
use crate::terminal_emulator::ansi::Mode;
use crate::terminal_emulator::mode::ALT_SCREEN;
use crate::terminal_emulator::parser::SequenceView;
use crate::terminal_emulator::perform::arg;
use crate::terminal_emulator::perform::attr_of;
use crate::terminal_emulator::perform::color_at;
use crate::terminal_emulator::perform::mode_of;
use crate::terminal_emulator::term::TermView;
use vstd::prelude::*;

verus! {

/// Whether two terminals show the same one of their screens and keep the same behind
/// it: the grid that is not shown, and the cursor that is saved for the primary
/// screen.
pub open spec fn same_hidden(a: TermView, b: TermView) -> bool {
    b.alt == a.alt && b.alt_grid == a.alt_grid && b.cursor_save == a.cursor_save
}

/// Whether a sequence leaves the alternate screen or resets the terminal.
pub open spec fn leaves_alt_screen(sequence: SequenceView) -> bool {
    match sequence {
        SequenceView::Csi { params, intermediates, ignore, action } => !ignore
            && intermediates.len() == 1 && intermediates[0] == 0x3f && action == 0x6c
            && exists|i: int| 0 <= i < params.len() && #[trigger] params[i] == 1049,
        SequenceView::Esc { intermediates, ignore, action } => !ignore && intermediates.len() == 0
            && action == 0x63,
        _ => false,
    }
}

/// What a list of sequences does to the terminal, one after the other, each with the
/// character that was shown before it.
pub open spec fn performed_all(t: TermView, sequences: Seq<(SequenceView, Option<char>)>) -> TermView
    decreases sequences.len(),
{
    if sequences.len() == 0 {
        t
    } else {
        performed_all(t, sequences.drop_last()).performed(sequences.last().0, sequences.last().1)
    }
}

proof fn lemma_scrolls_keep_hidden(u: TermView, origin: int, lines: int)
    ensures
        same_hidden(u, u.scroll_up_relative(origin, lines)),
        same_hidden(u, u.scroll_down_relative(origin, lines)),
        same_hidden(u, u.scroll_up(lines)),
        same_hidden(u, u.scroll_down(lines)),
{
    reveal(TermView::scroll_up_relative);
    reveal(TermView::scroll_down_relative);
    reveal(TermView::scroll_up);
    reveal(TermView::scroll_down);
}

proof fn lemma_linefeeds_keep_hidden(u: TermView)
    ensures
        same_hidden(u, u.linefeed()),
        same_hidden(u, u.newline()),
        same_hidden(u, u.reverse_index()),
        same_hidden(u, u.carriage_return()),
        same_hidden(u, u.linefeed().carriage_return()),
{
    reveal(TermView::linefeed);
    reveal(TermView::newline);
    reveal(TermView::reverse_index);
    reveal(TermView::carriage_return);
    lemma_scrolls_keep_hidden(u, 0, 1);
}

proof fn lemma_wrap_keeps_hidden(u: TermView)
    ensures
        same_hidden(u, u.wrap_line()),
        same_hidden(u, u.advance()),
        same_hidden(u, u.follow_input()),
{
    reveal(TermView::wrap_line);
    reveal(TermView::advance);
    reveal(TermView::follow_input);
    let cell = u.row()[u.col()];
    let marked = u.with_row(
        u.row().update(
            u.col(),
            crate::terminal_emulator::term::cell::Cell {
                flags: cell.flags.with(crate::terminal_emulator::term::cell::WRAPLINE),
                ..cell
            },
        ),
    );
    lemma_linefeeds_keep_hidden(marked);
}

proof fn lemma_put_keeps_hidden(u: TermView, c: char, width: int)
    ensures
        same_hidden(u, u.put(c, width)),
{
    reveal(TermView::put);
    reveal(TermView::advance);
}

proof fn lemma_input_keeps_hidden(u: TermView, c: char, width: Option<usize>)
    ensures
        same_hidden(u, u.input_with_width(c, width)),
{
    reveal(TermView::input_with_width);
    let shown = u.follow_input();
    lemma_wrap_keeps_hidden(u);
    lemma_wrap_keeps_hidden(shown);
    let ready = if shown.input_needs_wrap {
        shown.wrap_line()
    } else {
        shown
    };
    lemma_wrap_keeps_hidden(ready);
    match width {
        Some(w) => lemma_put_keeps_hidden(ready, c, w as int),
        None => {},
    }
}

proof fn lemma_repeated_keeps_hidden(u: TermView, preceding: Option<char>, n: int)
    ensures
        same_hidden(u, u.repeated(preceding, n)),
    decreases n,
{
    if n > 0 && preceding is Some {
        let c = preceding.unwrap();
        lemma_input_keeps_hidden(u, c, crate::terminal_emulator::term::editing::char_width(c));
        lemma_repeated_keeps_hidden(u.input(c), preceding, n - 1);
    }
}

proof fn lemma_tabs_keep_hidden(u: TermView, count: int)
    ensures
        same_hidden(u, u.tabbed(count)),
        same_hidden(u, u.put_tab(count)),
    decreases count,
{
    reveal(TermView::put_tab);
    reveal(TermView::tab_once);
    reveal(TermView::tab_marked);
    if count > 0 {
        lemma_tabs_keep_hidden(u.tab_once(), count - 1);
    }
}

proof fn lemma_back_tabs_keep_hidden(u: TermView, count: int)
    ensures
        same_hidden(u, u.back_tabbed(count)),
    decreases count,
{
    if count > 0 {
        lemma_back_tabs_keep_hidden(
            u.cursor_at(
                u.line(),
                crate::terminal_emulator::term::handler::stop_at_or_before(
                    u.tabs,
                    u.col() - 1,
                    u.col(),
                ),
            ),
            count - 1,
        );
    }
}

proof fn lemma_edits_keep_hidden(u: TermView, count: int)
    ensures
        same_hidden(u, u.insert_blank(count)),
        same_hidden(u, u.erase_chars(count)),
        same_hidden(u, u.delete_chars(count)),
        same_hidden(u, u.insert_blank_lines(count)),
        same_hidden(u, u.delete_lines(count)),
        same_hidden(u, u.dectest()),
        forall|mode: LineClearMode| same_hidden(u, #[trigger] u.clear_line(mode)),
        forall|mode: ClearMode| same_hidden(u, #[trigger] u.clear_screen(mode)),
{
    reveal(TermView::insert_blank);
    reveal(TermView::erase_chars);
    reveal(TermView::delete_chars);
    reveal(TermView::dectest);
    reveal(TermView::clear_line);
    reveal(TermView::clear_screen);
    lemma_scrolls_keep_hidden(u, u.line(), count);
}

proof fn lemma_moves_keep_hidden(u: TermView)
    requires
        u.alt,
    ensures
        forall|n: int| same_hidden(u, #[trigger] u.move_up(n)),
        forall|n: int| same_hidden(u, #[trigger] u.move_down(n)),
        forall|n: int| same_hidden(u, #[trigger] u.move_forward(n)),
        forall|n: int| same_hidden(u, #[trigger] u.move_backward(n)),
        forall|line: int, col: int| same_hidden(u, #[trigger] u.goto(line, col)),
        forall|start: int, end: int| same_hidden(u, #[trigger] u.set_scrolling_region(start, end)),
        forall|attr: Attr| same_hidden(u, #[trigger] u.with_attr(attr)),
        forall|flags: u16| same_hidden(u, #[trigger] u.with_mode(flags)),
        forall|flags: u16| same_hidden(u, #[trigger] u.without_mode(flags)),
        forall|stop: bool| same_hidden(u, #[trigger] u.with_tab_stop(stop)),
        same_hidden(u, u.without_tab_stops()),
        same_hidden(u, u.save_cursor()),
        same_hidden(u, u.restore_cursor()),
        same_hidden(u, u.backspace()),
        same_hidden(u, u.bell()),
{
    reveal(TermView::move_up);
    reveal(TermView::move_down);
    reveal(TermView::move_forward);
    reveal(TermView::move_backward);
    reveal(TermView::goto);
    reveal(TermView::set_scrolling_region);
    reveal(TermView::with_attr);
    reveal(TermView::with_mode);
    reveal(TermView::without_mode);
    reveal(TermView::with_tab_stop);
    reveal(TermView::without_tab_stops);
    reveal(TermView::save_cursor);
    reveal(TermView::restore_cursor);
    reveal(TermView::backspace);
    reveal(TermView::bell);
}

proof fn lemma_sgr_keeps_hidden(u: TermView, params: Seq<usize>, i: int)
    requires
        u.alt,
    ensures
        same_hidden(u, u.sgr_from(params, i)),
    decreases params.len() - i,
{
    lemma_moves_keep_hidden(u);
    if 0 <= i < params.len() {
        if params[i] == 38 || params[i] == 48 {
            let (color, used) = color_at(params, i);
            if used >= 0 {
                let next = match color {
                    Some(c) => u.with_attr(
                        if params[i] == 38 {
                            Attr::Foreground(c)
                        } else {
                            Attr::Background(c)
                        },
                    ),
                    None => u,
                };
                lemma_sgr_keeps_hidden(next, params, i + 1 + used);
            }
        } else {
            let next = match attr_of(params[i]) {
                Some(attr) => u.with_attr(attr),
                None => u,
            };
            lemma_sgr_keeps_hidden(next, params, i + 1);
        }
    }
}

proof fn lemma_set_mode_keeps_hidden(u: TermView, mode: Mode)
    requires
        u.alt,
    ensures
        same_hidden(u, u.set_mode(mode)),
{
    reveal(TermView::set_mode);
    reveal(TermView::enter_alt_screen);
    reveal(TermView::deccolm);
    reveal(TermView::with_mouse_cursor);
    lemma_moves_keep_hidden(u);
    lemma_moves_keep_hidden(u.with_mode(crate::terminal_emulator::mode::ALT_SCREEN));
    lemma_moves_keep_hidden(u.with_mode(crate::terminal_emulator::mode::ALT_SCREEN).save_cursor());
}

proof fn lemma_unset_mode_keeps_hidden(u: TermView, mode: Mode)
    requires
        u.alt,
        mode != Mode::SwapScreenAndSetRestoreCursor,
    ensures
        same_hidden(u, u.unset_mode(mode)),
{
    reveal(TermView::unset_mode);
    reveal(TermView::deccolm);
    reveal(TermView::with_mouse_cursor);
    lemma_moves_keep_hidden(u);
}

proof fn lemma_modes_set_keep_hidden(u: TermView, private: bool, params: Seq<usize>, i: int)
    requires
        u.alt,
    ensures
        same_hidden(u, u.modes_set(private, params, i)),
    decreases params.len() - i,
{
    if 0 <= i < params.len() {
        let next = match mode_of(private, params[i]) {
            Some(mode) => {
                lemma_set_mode_keeps_hidden(u, mode);
                u.set_mode(mode)
            },
            None => u,
        };
        lemma_modes_set_keep_hidden(next, private, params, i + 1);
    }
}

proof fn lemma_modes_unset_keep_hidden(u: TermView, private: bool, params: Seq<usize>, i: int)
    requires
        u.alt,
        forall|k: int| 0 <= k < params.len() ==> !private || #[trigger] params[k] != 1049,
    ensures
        same_hidden(u, u.modes_unset(private, params, i)),
    decreases params.len() - i,
{
    if 0 <= i < params.len() {
        assert(!private || params[i] != 1049);
        let next = match mode_of(private, params[i]) {
            Some(mode) => {
                lemma_unset_mode_keeps_hidden(u, mode);
                u.unset_mode(mode)
            },
            None => u,
        };
        lemma_modes_unset_keep_hidden(next, private, params, i + 1);
    }
}

proof fn lemma_executed_keeps_hidden(u: TermView, byte: u8)
    requires
        u.alt,
    ensures
        same_hidden(u, u.executed(byte)),
{
    reveal(TermView::with_active_charset);
    lemma_moves_keep_hidden(u);
    lemma_linefeeds_keep_hidden(u);
    lemma_tabs_keep_hidden(u, 1);
}

proof fn lemma_private_csi_keeps_hidden(u: TermView, params: Seq<usize>, first: u8, action: u8)
    requires
        u.alt,
        first == 0x3f && action == 0x6c ==> forall|k: int|
            0 <= k < params.len() ==> #[trigger] params[k] != 1049,
    ensures
        same_hidden(u, u.csi_performed(params, seq![first], false, action, None)),
{
    reveal(TermView::with_cursor_style);
    lemma_modes_set_keep_hidden(u, true, params, 0);
    if first == 0x3f && action == 0x6c {
        lemma_modes_unset_keep_hidden(u, true, params, 0);
    }
}

proof fn lemma_cursor_csi_keeps_hidden(
    u: TermView,
    params: Seq<usize>,
    action: u8,
    preceding: Option<char>,
)
    requires
        u.alt,
        action < 0x4a,
    ensures
        same_hidden(u, u.csi_performed(params, Seq::empty(), false, action, preceding)),
{
    let n = arg(params, 0, 1);
    lemma_moves_keep_hidden(u);
    lemma_edits_keep_hidden(u, n as int);
}

proof fn lemma_editing_csi_keeps_hidden(
    u: TermView,
    params: Seq<usize>,
    action: u8,
    preceding: Option<char>,
)
    requires
        u.alt,
        0x4a <= action < 0x60,
    ensures
        same_hidden(u, u.csi_performed(params, Seq::empty(), false, action, preceding)),
{
    let n = arg(params, 0, 1);
    lemma_edits_keep_hidden(u, n as int);
    lemma_scrolls_keep_hidden(u, 0, n as int);
    lemma_back_tabs_keep_hidden(u, crate::terminal_emulator::perform::count_of(n) as int);
}

proof fn lemma_state_csi_keeps_hidden(
    u: TermView,
    params: Seq<usize>,
    action: u8,
    preceding: Option<char>,
)
    requires
        u.alt,
        0x60 <= action,
    ensures
        same_hidden(u, u.csi_performed(params, Seq::empty(), false, action, preceding)),
{
    let n = arg(params, 0, 1);
    reveal(TermView::without_tab_stops);
    lemma_moves_keep_hidden(u);
    lemma_repeated_keeps_hidden(u, preceding, n as int);
    lemma_sgr_keeps_hidden(u, params, 0);
    lemma_modes_set_keep_hidden(u, false, params, 0);
    lemma_modes_unset_keep_hidden(u, false, params, 0);
}

proof fn lemma_esc_keeps_hidden(u: TermView, intermediates: Seq<u8>, ignore: bool, action: u8)
    requires
        u.alt,
        !(!ignore && intermediates.len() == 0 && action == 0x63),
    ensures
        same_hidden(u, u.esc_performed(intermediates, ignore, action)),
{
    reveal(TermView::with_charset);
    lemma_moves_keep_hidden(u);
    lemma_linefeeds_keep_hidden(u);
    lemma_edits_keep_hidden(u, 0);
}

/// A sequence that the terminal performs on the alternate screen, unless it leaves
/// that screen or resets the terminal, changes nothing of what is kept behind it.
pub proof fn lemma_performed_keeps_hidden(
    u: TermView,
    sequence: SequenceView,
    preceding: Option<char>,
)
    requires
        u.alt,
        !leaves_alt_screen(sequence),
    ensures
        same_hidden(u, u.performed(sequence, preceding)),
{
    reveal(TermView::performed);
    match sequence {
        SequenceView::Print(c) => {
            lemma_input_keeps_hidden(u, c, crate::terminal_emulator::term::editing::char_width(c));
        },
        SequenceView::Execute(byte) => {
            lemma_executed_keeps_hidden(u, byte);
        },
        SequenceView::Csi { params, intermediates, ignore, action } => {
            if ignore || intermediates.len() > 1 {
            } else if intermediates.len() == 1 {
                assert(intermediates =~= seq![intermediates[0]]);
                lemma_private_csi_keeps_hidden(u, params, intermediates[0], action);
            } else {
                assert(intermediates =~= Seq::<u8>::empty());
                if action < 0x4a {
                    lemma_cursor_csi_keeps_hidden(u, params, action, preceding);
                } else if action < 0x60 {
                    lemma_editing_csi_keeps_hidden(u, params, action, preceding);
                } else {
                    lemma_state_csi_keeps_hidden(u, params, action, preceding);
                }
            }
        },
        SequenceView::Esc { intermediates, ignore, action } => {
            lemma_esc_keeps_hidden(u, intermediates, ignore, action);
        },
        SequenceView::Osc { data } => {
            reveal(TermView::titled);
        },
    }
}

/// Whatever the terminal performs on the alternate screen, short of leaving it or a
/// reset, what is kept behind that screen stays as it is.
pub proof fn lemma_performed_all_keeps_hidden(
    u: TermView,
    sequences: Seq<(SequenceView, Option<char>)>,
)
    requires
        u.alt,
        forall|i: int| 0 <= i < sequences.len() ==> !leaves_alt_screen(#[trigger] sequences[i].0),
    ensures
        same_hidden(u, performed_all(u, sequences)),
    decreases sequences.len(),
{
    if sequences.len() > 0 {
        let before = sequences.drop_last();
        assert forall|i: int| 0 <= i < before.len() implies !leaves_alt_screen(
            #[trigger] before[i].0,
        ) by {
            assert(before[i] == sequences[i]);
        }
        lemma_performed_all_keeps_hidden(u, before);
        lemma_performed_keeps_hidden(
            performed_all(u, before),
            sequences.last().0,
            sequences.last().1,
        );
    }
}

/// The alternate screen keeps the primary one: after the terminal has entered the
/// alternate screen and performed any sequences there, short of leaving it or a
/// reset, leaving it brings back the primary grid, its history included, and the
/// cursor, exactly as they were.
pub proof fn lemma_alt_screen_keeps_primary(
    t: TermView,
    sequences: Seq<(SequenceView, Option<char>)>,
)
    requires
        t.wf(),
        !t.alt,
        forall|i: int| 0 <= i < sequences.len() ==> !leaves_alt_screen(#[trigger] sequences[i].0),
    ensures
        performed_all(t.set_mode(Mode::SwapScreenAndSetRestoreCursor), sequences).unset_mode(
            Mode::SwapScreenAndSetRestoreCursor,
        ).grid == t.grid,
        performed_all(t.set_mode(Mode::SwapScreenAndSetRestoreCursor), sequences).unset_mode(
            Mode::SwapScreenAndSetRestoreCursor,
        ).cursor == t.cursor,
        !performed_all(t.set_mode(Mode::SwapScreenAndSetRestoreCursor), sequences).unset_mode(
            Mode::SwapScreenAndSetRestoreCursor,
        ).alt,
        !performed_all(t.set_mode(Mode::SwapScreenAndSetRestoreCursor), sequences).unset_mode(
            Mode::SwapScreenAndSetRestoreCursor,
        ).mode.spec_contains(ALT_SCREEN),
{
    let entered = t.set_mode(Mode::SwapScreenAndSetRestoreCursor);
    crate::terminal_emulator::term::laws::lemma_alt_screen_starts_blank(t, 0, 0);
    lemma_performed_all_keeps_hidden(entered, sequences);
    let u = performed_all(entered, sequences);
    reveal(TermView::unset_mode);
    reveal(TermView::leave_alt_screen);
    reveal(TermView::without_mode);
    reveal(TermView::restore_cursor);
    reveal(TermView::swap_alt);
    assert(u.alt && u.alt_grid == t.grid && u.cursor_save == t.cursor);
    assert(t.cursor.clamped(t.lines(), t.cols()) == t.cursor);
    let bits = u.mode.bits;
    let flag = ALT_SCREEN;
    assert(flag != 0 ==> (bits & !flag) & flag != flag) by (bit_vector);
}

} // verus!
