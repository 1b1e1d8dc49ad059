//! The tabbed view: what it shows of each process, and how events change it.

pub mod layout;
pub mod style;
pub mod vertical_tabs;

use crate::strings::push_char;
use crate::strings::string_from_chars;
use crate::terminal_emulator::parser::Processor;
use crate::terminal_emulator::perform::Session;
use crate::terminal_emulator::term::render::RenderableCell;
use crate::terminal_emulator::term::SizeInfo;
use crate::terminal_emulator::term::Term;
use crate::ui::layout::contains_point;
use crate::ui::layout::event_cell;
use crate::ui::layout::mouse_event_coords;
use crate::ui::layout::plus;
use crate::ui::layout::side_by_side;
use crate::ui::layout::stacked;
use crate::ui::layout::InputEvent;
use crate::ui::layout::MouseEvent;
use crate::ui::layout::Rect;
use crate::ui::style::convert_color;
use crate::ui::style::convert_flags;
use crate::ui::style::surface_color;
use crate::ui::style::surface_modifier;
use crate::ui::style::Color;
use crate::ui::style::Modifier;
use crate::ui::style::Style;
use crate::ui::style::BOLD;
use crate::ui::style::DIM;
use crate::ui::vertical_tabs::lemma_right_border_frames;
use crate::ui::vertical_tabs::Block;
use crate::ui::vertical_tabs::tab_action;
use crate::ui::vertical_tabs::MouseAction;
use crate::ui::vertical_tabs::Symbol;
use crate::ui::vertical_tabs::Title;
use crate::ui::vertical_tabs::VerticalTabs;
use crate::ui::vertical_tabs::BORDER_RIGHT;
use crate::ui::vertical_tabs::UNDERLINED_BOLD;
use tui::layout::Constraint;
use vstd::prelude::*;

verus! {

/// How a process ended: with an exit code, or without one when a signal ended it.
#[derive(Clone, Copy, Debug, PartialEq, Eq, Structural)]
pub struct ExitStatus {
    pub code: Option<i32>,
    /// The signal that ended the process, where one did and its number is known.
    pub signal: Option<i32>,
}

impl ExitStatus {
    pub open spec fn spec_success(&self) -> bool {
        self.code == Some(0i32)
    }

    /// Whether the process ended with the code zero.
    #[verifier::when_used_as_spec(spec_success)]
    pub fn success(&self) -> (r: bool)
        ensures
            r == self.spec_success(),
    {
        match self.code {
            Some(code) => code == 0,
            None => false,
        }
    }

    pub fn code(&self) -> (code: Option<i32>)
        ensures
            code == self.code,
    {
        self.code
    }
}

/// What happened: the user did something, the user's input ended, a process wrote
/// something, a process ended, or the window changed its size.
#[derive(Clone, Debug, PartialEq, Eq)]
pub enum Event {
    UserInput(InputEvent, Vec<u8>),
    EndOfUserInput,
    ProcessOutput(usize, Vec<u8>),
    ProcessExit(usize, ExitStatus),
    Resized,
}

impl Event {
    pub open spec fn spec_ends_input(&self) -> bool {
        *self is EndOfUserInput
    }

    /// Whether the event is the end of the user's input, after which no event is
    /// handled any more.
    #[verifier::when_used_as_spec(spec_ends_input)]
    pub fn ends_input(&self) -> (r: bool)
        ensures
            r == self.spec_ends_input(),
    {
        match self {
            Event::EndOfUserInput => true,
            _ => false,
        }
    }
}

/// What is to be done: bytes sent to one process or to all, or the terminal of a
/// process resized.
#[derive(Clone, Debug, PartialEq, Eq)]
pub enum Action {
    ProcessInput { index: usize, data: Vec<u8> },
    ProcessInputAll { data: Vec<u8> },
    ProcessTermResize { index: usize, width: u16, height: u16 },
}

/// An action as a value.
pub enum ActionView {
    ProcessInput { index: usize, data: Seq<u8> },
    ProcessInputAll { data: Seq<u8> },
    ProcessTermResize { index: usize, width: u16, height: u16 },
}

impl View for Action {
    type V = ActionView;

    open spec fn view(&self) -> ActionView {
        match *self {
            Action::ProcessInput { index, data } => ActionView::ProcessInput { index, data: data@ },
            Action::ProcessInputAll { data } => ActionView::ProcessInputAll { data: data@ },
            Action::ProcessTermResize { index, width, height } => ActionView::ProcessTermResize {
                index,
                width,
                height,
            },
        }
    }
}

/// The actions as values.
pub open spec fn action_views(actions: Seq<Action>) -> Seq<ActionView> {
    actions.map_values(|a: Action| a@)
}

/// The answers of terminals as actions: each goes to its process.
pub open spec fn as_actions(inputs: Seq<(usize, Seq<u8>)>) -> Seq<ActionView> {
    inputs.map_values(|p: (usize, Seq<u8>)| ActionView::ProcessInput { index: p.0, data: p.1 })
}

/// The action that sends bytes to all processes, if there are bytes to send.
pub open spec fn lead_actions(unhandled: Option<Vec<u8>>) -> Seq<ActionView> {
    match unhandled {
        Some(data) => seq![ActionView::ProcessInputAll { data: data@ }],
        None => Seq::empty(),
    }
}

/// The bytes that a user's event sends to all processes when the view does not take
/// it.
pub open spec fn broadcast(event: Event) -> Seq<ActionView> {
    match event {
        Event::UserInput(_, raw) => seq![ActionView::ProcessInputAll { data: raw@ }],
        _ => Seq::empty(),
    }
}

/// What a process has to be sent after an event: what its terminal had answered
/// before, and, if the event is output of the process, what it answers to that.
pub open spec fn answers_after(process: ProcessState, index: int, event: Event) -> Seq<u8> {
    match event {
        Event::ProcessOutput(i, data) => if i == index {
            process.session().fed(data@).answers
        } else {
            process.input@
        },
        _ => process.input@,
    }
}

/// The answers of the first `upto` processes that have one after an event, each with
/// the index of its process.
pub open spec fn pending_after(processes: Seq<ProcessState>, event: Event, upto: int) -> Seq<
    (usize, Seq<u8>),
>
    decreases upto,
{
    if upto <= 0 {
        Seq::empty()
    } else {
        let before = pending_after(processes, event, upto - 1);
        let answers = answers_after(processes[upto - 1], upto - 1, event);
        if answers.len() > 0 {
            before.push(((upto - 1) as usize, answers))
        } else {
            before
        }
    }
}

/// Whether the processes that an event names exist.
pub open spec fn event_fits(event: Event, processes: int) -> bool {
    match event {
        Event::ProcessOutput(i, _) => i < processes,
        Event::ProcessExit(i, _) => i < processes,
        _ => true,
    }
}

impl Action {
    pub open spec fn spec_matches_index(&self, other_index: usize) -> bool {
        match *self {
            Action::ProcessInput { index, .. } => index == other_index,
            Action::ProcessInputAll { .. } => true,
            Action::ProcessTermResize { index, .. } => index == other_index,
        }
    }

    /// Whether the action concerns the process with the given index.
    #[verifier::when_used_as_spec(spec_matches_index)]
    pub fn matches_index(&self, other_index: usize) -> (r: bool)
        ensures
            r == self.spec_matches_index(other_index),
    {
        match self {
            Action::ProcessInput { index, .. } => *index == other_index,
            Action::ProcessInputAll { .. } => true,
            Action::ProcessTermResize { index, .. } => *index == other_index,
        }
    }

    /// The bytes that the action sends to the process with the given index, if any.
    pub open spec fn bytes_for(&self, index: usize) -> Option<Seq<u8>> {
        match *self {
            Action::ProcessInput { index: to, data } => if to == index {
                Some(data@)
            } else {
                None
            },
            Action::ProcessInputAll { data } => Some(data@),
            Action::ProcessTermResize { .. } => None,
        }
    }

    pub fn input_for(&self, index: usize) -> (bytes: Option<&Vec<u8>>)
        ensures
            match bytes {
                Some(data) => self.bytes_for(index) == Some(data@),
                None => self.bytes_for(index) is None,
            },
    {
        if !self.matches_index(index) {
            return None;
        }
        match self {
            Action::ProcessInput { data, .. } => Some(data),
            Action::ProcessInputAll { data } => Some(data),
            Action::ProcessTermResize { .. } => None,
        }
    }
}

pub struct ProcessSettings {
    pub initial_title: String,
}

/// The title that a process starts with: the placeholder, an equals sign, and the
/// token that the process was started for. Without a configured placeholder it is
/// `{}`.
pub open spec fn initial_title_text(replace: Option<Seq<char>>, token: Seq<char>) -> Seq<char> {
    (match replace {
        Some(placeholder) => placeholder,
        None => "{}"@,
    }).push('=') + token
}

impl ProcessSettings {
    /// The settings of the process that is started for a token.
    pub fn for_token(replace: &Option<String>, token: &str) -> (settings: ProcessSettings)
        ensures
            settings.initial_title@ == initial_title_text(
                crate::args::replace_text(*replace),
                token@,
            ),
    {
        let mut title = match replace {
            Some(placeholder) => placeholder.clone(),
            None => "{}".to_owned(),
        };
        push_char(&mut title, '=');
        title.append(token);
        ProcessSettings { initial_title: title }
    }
}

/// The decimal digits of a number, as characters.
pub open spec fn digits(n: nat) -> Seq<char>
    decreases n,
{
    if n < 10 {
        seq![(48 + n) as char]
    } else {
        digits(n / 10).push((48 + n % 10) as char)
    }
}

/// The text of a number.
pub open spec fn number_text(n: int) -> Seq<char> {
    if n < 0 {
        seq!['-'] + digits((-n) as nat)
    } else {
        digits(n as nat)
    }
}

/// The symbol of a process that has ended: a cross and the exit code, or a lightning
/// for a process without one.
pub open spec fn exit_symbol_text(code: Option<i32>) -> Seq<char> {
    match code {
        Some(code) => seq!['🗙', ' '] + number_text(code as int),
        None => seq!['☇'],
    }
}

/// The text of the banner of a process that has ended: its exit code, or the signal
/// that ended it.
pub open spec fn banner_text(status: ExitStatus) -> Seq<char> {
    match status.code {
        Some(code) => "exited with exit code: "@ + number_text(code as int),
        None => match status.signal {
            Some(signal) => "exited with signal: "@ + number_text(signal as int),
            None => "exited"@,
        },
    }
}

fn digit_char(d: u64) -> (c: char)
    requires
        d < 10,
    ensures
        c == (48 + d) as char,
{
    if d == 0 {
        '0'
    } else if d == 1 {
        '1'
    } else if d == 2 {
        '2'
    } else if d == 3 {
        '3'
    } else if d == 4 {
        '4'
    } else if d == 5 {
        '5'
    } else if d == 6 {
        '6'
    } else if d == 7 {
        '7'
    } else if d == 8 {
        '8'
    } else {
        '9'
    }
}

fn push_digits(out: &mut Vec<char>, n: u64)
    ensures
        final(out)@ == old(out)@ + digits(n as nat),
    decreases n,
{
    if n >= 10 {
        push_digits(out, n / 10);
    }
    out.push(digit_char(n % 10));
    proof {
        assert(out@ =~= old(out)@ + digits(n as nat));
    }
}

fn number(n: i32) -> (text: String)
    ensures
        text@ == number_text(n as int),
{
    let mut chars: Vec<char> = Vec::new();
    if n < 0 {
        chars.push('-');
        push_digits(&mut chars, (-(n as i64)) as u64);
    } else {
        push_digits(&mut chars, n as u64);
    }
    proof {
        assert(chars@ =~= number_text(n as int));
    }
    string_from_chars(&chars)
}

fn exit_symbol(code: Option<i32>) -> (text: String)
    ensures
        text@ == exit_symbol_text(code),
{
    let mut chars: Vec<char> = Vec::new();
    match code {
        Some(code) => {
            chars.push('🗙');
            chars.push(' ');
            if code < 0 {
                chars.push('-');
                push_digits(&mut chars, (-(code as i64)) as u64);
            } else {
                push_digits(&mut chars, code as u64);
            }
            proof {
                assert(chars@ =~= exit_symbol_text(Some(code)));
            }
        },
        None => {
            chars.push('☇');
            proof {
                assert(chars@ =~= exit_symbol_text(None));
            }
        },
    }
    string_from_chars(&chars)
}

/// The style of the symbol and of the banner of a process that has ended: green for
/// success, red for failure.
pub open spec fn verdict_color(status: ExitStatus) -> Color {
    if status.spec_success() {
        Color::Green
    } else {
        Color::Red
    }
}

/// A cell of the drawing surface, as a process pane fills it.
#[derive(Clone, Copy, Debug, PartialEq, Eq, Structural)]
pub struct DrawCell {
    pub x: u16,
    pub y: u16,
    pub c: char,
    pub fg: Color,
    pub bg: Color,
    pub modifier: Modifier,
}

/// Where and how a cell of the terminal is drawn in an area: at its column and line
/// within the area, with its first character. A cell outside the area is not drawn.
pub open spec fn drawn(cell: RenderableCell, area: Rect) -> Option<DrawCell> {
    let x = (cell.column % 0x1_0000) as u16;
    let y = (cell.line % 0x1_0000) as u16;
    if x < area.width && y < area.height {
        Some(
            DrawCell {
                x: plus(area.x, x),
                y: plus(area.y, y),
                c: cell.chars[0],
                fg: surface_color(cell.fg),
                bg: surface_color(cell.bg),
                modifier: Modifier { bits: surface_modifier(cell.flags) },
            },
        )
    } else {
        None
    }
}

pub fn draw_cell(cell: &RenderableCell, area: Rect) -> (draw: Option<DrawCell>)
    ensures
        draw == drawn(*cell, area),
{
    let x = (cell.column % 0x1_0000) as u16;
    let y = (cell.line % 0x1_0000) as u16;
    if x < area.width && y < area.height {
        Some(
            DrawCell {
                x: area.x.saturating_add(x),
                y: area.y.saturating_add(y),
                c: cell.chars[0],
                fg: convert_color(cell.fg),
                bg: convert_color(cell.bg),
                modifier: convert_flags(cell.flags),
            },
        )
    } else {
        None
    }
}

/// Splits an area into two columns with `tui::layout::Layout::split`: one that should
/// be `length` cells wide, and one that should take `percentage` per cent of the
/// width. How wide each column is, the solver behind the call settles, in an order
/// that can change from call to call: of that nothing is claimed. What is claimed is
/// what `split` demands of the solver as requirements, which the solver meets or
/// fails on, and what it sets itself afterwards: the first column starts where the
/// area starts, both have the line and the height of the area, the second starts
/// where the first ends, and `split` stretches the second to the right edge. The
/// numbers are whole and below 65536, so that the solver's arithmetic and the
/// conversion of its results lose nothing. The area has to end within the range of
/// `u16`, and the percentage of its width has to fit into a `u16`, or the arithmetic
/// of the call overflows.
#[verifier::external_body]
fn split_columns(area: Rect, length: u16, percentage: u16) -> (parts: (Rect, Rect))
    requires
        area.fits(),
        percentage * area.width <= u16::MAX,
    ensures
        side_by_side(area, parts.0, parts.1),
{
    let parts = tui::layout::Layout::default()
        .direction(tui::layout::Direction::Horizontal)
        .constraints(vec![Constraint::Length(length), Constraint::Percentage(percentage)])
        .split(tui::layout::Rect { x: area.x, y: area.y, width: area.width, height: area.height });
    (
        Rect { x: parts[0].x, y: parts[0].y, width: parts[0].width, height: parts[0].height },
        Rect { x: parts[1].x, y: parts[1].y, width: parts[1].width, height: parts[1].height },
    )
}

/// Splits an area into two rows with `tui::layout::Layout::split`: one that should
/// be at least `least` lines high, and below it one that should be `length` lines
/// high. How high each row is, the solver settles: of that nothing is claimed. What
/// is claimed is what `split` demands of the solver as requirements and what it sets
/// itself afterwards: the first row starts where the area starts, both have the
/// column and the width of the area, the second starts where the first ends, and
/// `split` stretches the second to the lower edge. The area has to end within the
/// range of `u16`.
#[verifier::external_body]
fn split_rows(area: Rect, least: u16, length: u16) -> (parts: (Rect, Rect))
    requires
        area.fits(),
    ensures
        stacked(area, parts.0, parts.1),
{
    let parts = tui::layout::Layout::default()
        .direction(tui::layout::Direction::Vertical)
        .constraints(vec![Constraint::Min(least), Constraint::Length(length)])
        .split(tui::layout::Rect { x: area.x, y: area.y, width: area.width, height: area.height });
    (
        Rect { x: parts[0].x, y: parts[0].y, width: parts[0].width, height: parts[0].height },
        Rect { x: parts[1].x, y: parts[1].y, width: parts[1].width, height: parts[1].height },
    )
}

/// The width of the column of the tabs.
pub const TABS_WIDTH: u16 = 40;

/// Whether an area can be split into columns: it ends within the range of `u16`, and
/// a hundred times its width fits into a `u16`.
pub open spec fn can_split(area: Rect) -> bool {
    area.fits() && area.width <= 655
}

/// Whether a title is the title of the tab of a process: the title of its terminal
/// in the plain style, and for a process that has ended the symbol of how it ended,
/// bold in green or red.
pub open spec fn is_tab_title(title: Title, process: ProcessState) -> bool {
    &&& title.text@ == process.title@
    &&& title.style == Style::plain()
    &&& match process.exit_status {
        None => title.symbols@.len() == 0,
        Some(status) => title.symbols@.len() == 1 && title.symbols@[0].text@ == exit_symbol_text(
            status.code,
        ) && title.symbols@[0].style == (Style {
            fg: verdict_color(status),
            bg: Color::Reset,
            modifier: Modifier { bits: BOLD },
        }),
    }
}

/// Whether a process is as it was, but for the answers of its terminal.
pub open spec fn same_but_answers(before: ProcessState, after: ProcessState) -> bool {
    &&& after.terminal_emulator == before.terminal_emulator
    &&& after.processor == before.processor
    &&& after.title == before.title
    &&& after.exit_status == before.exit_status
}

/// Whether a process is as output makes it, but for the answers of its terminal: the
/// output has gone through the parser to the terminal, and a title that it has set
/// has been taken over.
pub open spec fn fed_with(before: ProcessState, after: ProcessState, data: Seq<u8>) -> bool {
    let fed = before.session().fed(data);
    &&& after.exit_status == before.exit_status
    &&& after.processor@ == fed.parser
    &&& after.terminal_emulator@ == (crate::terminal_emulator::term::TermView {
        next_title: None,
        ..fed.term
    })
    &&& after.title@ == match fed.term.next_title {
        Some(title) => title,
        None => before.title@,
    }
}

/// Whether a process is as an event makes it, but for the answers of its terminal:
/// output of the process is fed to it, its exit is remembered, and no other event
/// changes it.
pub open spec fn process_after(
    before: ProcessState,
    after: ProcessState,
    index: int,
    event: Event,
) -> bool {
    match event {
        Event::ProcessOutput(i, data) => if i == index {
            fed_with(before, after, data@)
        } else {
            same_but_answers(before, after)
        },
        Event::ProcessExit(i, status) => if i == index {
            &&& after.exit_status == Some(status)
            &&& after.terminal_emulator == before.terminal_emulator
            &&& after.processor == before.processor
            &&& after.title == before.title
        } else {
            same_but_answers(before, after)
        },
        _ => same_but_answers(before, after),
    }
}

/// What the view knows of one process.
pub struct ProcessState {
    pub terminal_emulator: Term,
    pub processor: Processor,
    pub title: String,
    pub exit_status: Option<ExitStatus>,
    /// The bytes that the terminal has answered and that the process has not got yet.
    pub input: Vec<u8>,
}

impl ProcessState {
    /// The state of a process that has just been started: a terminal of 80 columns
    /// and 24 lines that shows nothing, with the initial title.
    pub fn from_settings(settings: ProcessSettings) -> (state: ProcessState)
        ensures
            state.wf(),
            state.processor@ == crate::terminal_emulator::parser::ProcessorView::fresh(),
            state.terminal_emulator@.lines() == 24,
            state.terminal_emulator@.cols() == 80,
            state.terminal_emulator@.next_title == Some(settings.initial_title@),
            state.title@ == settings.initial_title@,
            state.exit_status is None,
            state.input@.len() == 0,
    {
        let mut terminal_emulator = Term::new(
            SizeInfo {
                width: 80,
                height: 24,
                cell_width: 1,
                cell_height: 1,
                padding_x: 0,
                padding_y: 0,
            },
        );
        terminal_emulator.set_title(settings.initial_title.as_str());
        proof {
            reveal(crate::terminal_emulator::term::TermView::titled);
        }
        ProcessState {
            terminal_emulator,
            processor: Processor::new(),
            title: settings.initial_title,
            exit_status: None,
            input: Vec::new(),
        }
    }

    /// The terminal and the parser are well formed.
    pub open spec fn wf(&self) -> bool {
        self.terminal_emulator.wf() && self.processor.wf()
    }

    /// The parser, the terminal and the pending answers of the process, together.
    pub open spec fn session(&self) -> Session {
        Session {
            parser: self.processor@,
            term: self.terminal_emulator@,
            answers: self.input@,
        }
    }

    /// Takes output of the process: feeds it to the terminal byte by byte, keeps what
    /// the terminal answers for the process, and takes over the title if the output
    /// has set one.
    pub fn on_data(&mut self, data: &[u8])
        requires
            old(self).wf(),
        ensures
            final(self).wf(),
            fed_with(*old(self), *final(self), data@),
            final(self).input@ == old(self).session().fed(data@).answers,
    {
        self.processor.advance_all(&mut self.terminal_emulator, data, &mut self.input);
        self.adopt_title();
    }

    /// Takes over the title that the terminal has been given, if it has been given
    /// one.
    fn adopt_title(&mut self)
        requires
            old(self).wf(),
        ensures
            final(self).wf(),
            final(self).processor == old(self).processor,
            final(self).exit_status == old(self).exit_status,
            final(self).input == old(self).input,
            final(self).terminal_emulator@ == (crate::terminal_emulator::term::TermView {
                next_title: None,
                ..old(self).terminal_emulator@
            }),
            final(self).title@ == match old(self).terminal_emulator@.next_title {
                Some(title) => title,
                None => old(self).title@,
            },
    {
        match self.terminal_emulator.get_next_title() {
            Some(title) => {
                self.title = title;
            },
            None => {},
        }
    }

    /// Remembers how the process ended.
    pub fn on_exit(&mut self, status: ExitStatus)
        ensures
            final(self).exit_status == Some(status),
            final(self).terminal_emulator == old(self).terminal_emulator,
            final(self).processor == old(self).processor,
            final(self).title == old(self).title,
            final(self).input == old(self).input,
    {
        self.exit_status = Some(status);
    }

    /// A mouse event on the pane of the process is taken and does nothing.
    pub fn on_user_input(&mut self, area: Rect, event: &InputEvent) -> (handled: bool)
        ensures
            handled,
            *final(self) == *old(self),
    {
        true
    }

    /// Takes the bytes that the terminal has answered, if there are any.
    pub fn take_process_input(&mut self) -> (bytes: Option<Vec<u8>>)
        ensures
            final(self).input@.len() == 0,
            final(self).terminal_emulator == old(self).terminal_emulator,
            final(self).processor == old(self).processor,
            final(self).title == old(self).title,
            final(self).exit_status == old(self).exit_status,
            old(self).input@.len() == 0 ==> bytes is None,
            old(self).input@.len() > 0 ==> bytes is Some && bytes.unwrap()@ == old(self).input@,
    {
        if self.input.is_empty() {
            None
        } else {
            let mut taken: Vec<u8> = Vec::new();
            std::mem::swap(&mut self.input, &mut taken);
            Some(taken)
        }
    }

    /// The title of the tab: the title of the terminal, and for a process that has
    /// ended the symbol of how it ended, bold in green or red.
    pub fn tab_title(&self) -> (title: Title)
        ensures
            is_tab_title(title, *self),
    {
        let title = Title::new().text(self.title.clone()).style(Style::default());
        match self.exit_status {
            Some(status) => {
                let color = if status.success() {
                    Color::Green
                } else {
                    Color::Red
                };
                let style = Style::default().fg(color).modifier(BOLD);
                let mut symbols: Vec<Symbol> = Vec::new();
                symbols.push(Symbol { text: exit_symbol(status.code), style });
                title.symbols(symbols)
            },
            None => title,
        }
    }

    /// The pane of the terminal and the banner below it within an area, or none for an
    /// area that does not end within the range of `u16`. The two are the rows of the
    /// area: each as wide as it, the banner right below the pane, and together as
    /// high as it.
    pub fn layout(&self, area: Rect) -> (parts: Option<(Rect, Rect)>)
        ensures
            parts is Some <==> area.fits(),
            parts matches Some((pane, banner)) ==> stacked(area, pane, banner),
    {
        if area.x as u32 + area.width as u32 <= 0xffff && area.y as u32 + area.height as u32
            <= 0xffff {
            Some(split_rows(area, 0, self.banner_height()))
        } else {
            None
        }
    }

    /// How many lines the banner of the process takes: one when it has ended.
    pub fn banner_height(&self) -> (height: u16)
        ensures
            height == if self.exit_status is None {
                0u16
            } else {
                1u16
            },
    {
        if self.exit_status.is_none() {
            0
        } else {
            1
        }
    }

    /// The style of the banner of a process that has ended: black on green or red,
    /// bold and dim.
    pub fn banner_style(&self) -> (style: Option<Style>)
        ensures
            style == match self.exit_status {
                Some(status) => Some(
                    Style {
                        fg: Color::Black,
                        bg: verdict_color(status),
                        modifier: Modifier { bits: BOLD | DIM },
                    },
                ),
                None => None,
            },
    {
        match self.exit_status {
            Some(status) => {
                let color = if status.success() {
                    Color::Green
                } else {
                    Color::Red
                };
                Some(Style::default().fg(Color::Black).bg(color).modifier(BOLD | DIM))
            },
            None => None,
        }
    }

    /// The text of the banner of a process that has ended.
    pub fn banner_text(&self) -> (text: Option<String>)
        ensures
            match self.exit_status {
                Some(status) => text is Some && text.unwrap()@ == banner_text(status),
                None => text is None,
            },
    {
        match self.exit_status {
            Some(status) => match status.code {
                Some(code) => {
                    let mut text = "exited with exit code: ".to_owned();
                    text.append(number(code).as_str());
                    Some(text)
                },
                None => match status.signal {
                    Some(signal) => {
                        let mut text = "exited with signal: ".to_owned();
                        text.append(number(signal).as_str());
                        Some(text)
                    },
                    None => Some("exited".to_owned()),
                },
            },
            None => None,
        }
    }
}

/// The view: the processes, which of them is shown, and how far the tabs are
/// scrolled.
pub struct State {
    pub processes: Vec<ProcessState>,
    pub selected: usize,
    pub scroll: usize,
}

/// The scroll position after scrolling down once: one further, but not past the
/// point where the last tab would leave the bottom of an area of the given height,
/// and not above the top.
pub open spec fn scrolled_down(scroll: usize, tabs: int, height: int) -> int {
    let limit = tabs - height + 2;
    let next = if limit < scroll {
        limit + 1
    } else {
        scroll + 1
    };
    if next < 0 {
        0
    } else if next > usize::MAX {
        usize::MAX as int
    } else {
        next
    }
}

impl State {
    pub fn new(processes: Vec<ProcessState>) -> (state: State)
        ensures
            state.processes == processes,
            state.selected == 0,
            state.scroll == 0,
    {
        State { processes, selected: 0, scroll: 0 }
    }

    /// Every process is well formed.
    pub open spec fn wf(&self) -> bool {
        forall|i: int| 0 <= i < self.processes@.len() ==> (#[trigger] self.processes@[i]).wf()
    }

    /// Takes output of a process.
    pub fn on_data(&mut self, index: usize, data: &[u8])
        requires
            old(self).wf(),
            index < old(self).processes@.len(),
        ensures
            final(self).wf(),
            final(self).selected == old(self).selected,
            final(self).scroll == old(self).scroll,
            final(self).processes@.len() == old(self).processes@.len(),
            fed_with(
                old(self).processes@[index as int],
                final(self).processes@[index as int],
                data@,
            ),
            final(self).processes@[index as int].input@
                == old(self).processes@[index as int].session().fed(data@).answers,
            forall|i: int|
                0 <= i < final(self).processes@.len() && i != index ==> final(self).processes@[i]
                    == old(self).processes@[i],
    {
        proof {
            assert(self.processes@[index as int].wf());
        }
        self.processes[index].on_data(data);
        proof {
            assert forall|i: int| 0 <= i < self.processes@.len() implies (
            #[trigger] self.processes@[i]).wf() by {
                if i != index {
                    assert(self.processes@[i] == old(self).processes@[i]);
                }
            }
        }
    }

    /// Remembers how a process ended.
    pub fn on_exit(&mut self, index: usize, status: ExitStatus)
        requires
            index < old(self).processes@.len(),
        ensures
            final(self).selected == old(self).selected,
            final(self).scroll == old(self).scroll,
            final(self).processes@.len() == old(self).processes@.len(),
            final(self).processes@[index as int].exit_status == Some(status),
            final(self).processes@[index as int].title == old(self).processes@[index as int].title,
            final(self).processes@[index as int].input == old(self).processes@[index as int].input,
            final(self).processes@[index as int].terminal_emulator
                == old(self).processes@[index as int].terminal_emulator,
            final(self).processes@[index as int].processor
                == old(self).processes@[index as int].processor,
            forall|i: int|
                0 <= i < final(self).processes@.len() && i != index ==> final(self).processes@[i]
                    == old(self).processes@[i],
    {
        self.processes[index].on_exit(status);
    }

    /// The state after an action on the tabs: another tab selected, or the tabs
    /// scrolled by one, within an area of the given height.
    pub open spec fn after_action(self, action: Option<MouseAction>, height: u16) -> State {
        match action {
            Some(MouseAction::Select(selected)) => State { selected, ..self },
            Some(MouseAction::ScrollUp) => State {
                scroll: if self.scroll > 0 {
                    (self.scroll - 1) as usize
                } else {
                    0
                },
                ..self
            },
            Some(MouseAction::ScrollDown) => State {
                scroll: scrolled_down(
                    self.scroll,
                    self.processes@.len() as int,
                    height as int,
                ) as usize,
                ..self
            },
            None => self,
        }
    }

    /// Applies an action on the tabs.
    pub fn apply(&mut self, action: Option<MouseAction>, height: u16)
        ensures
            *final(self) == old(self).after_action(action, height),
    {
        match action {
            Some(MouseAction::Select(selected)) => {
                self.selected = selected;
            },
            Some(MouseAction::ScrollUp) => {
                self.scroll = self.scroll.saturating_sub(1);
            },
            Some(MouseAction::ScrollDown) => {
                let tabs = self.processes.len() as i128;
                let limit: i128 = tabs - height as i128 + 2;
                let next: i128 = if limit < self.scroll as i128 {
                    limit + 1
                } else {
                    self.scroll as i128 + 1
                };
                self.scroll = if next < 0 {
                    0
                } else if next > usize::MAX as i128 {
                    usize::MAX
                } else {
                    next as usize
                };
            },
            None => {},
        }
    }

    /// The tabs of the view: one for each process, with a border at the right, the
    /// selected one bold and underlined.
    pub fn tabs(&self) -> (tabs: VerticalTabs)
        ensures
            tabs.block == Some(Block { borders: BORDER_RIGHT }),
            tabs.titles@.len() == self.processes@.len(),
            forall|i: int|
                0 <= i < tabs.titles@.len() ==> is_tab_title(
                    #[trigger] tabs.titles@[i],
                    self.processes@[i],
                ),
            tabs.selected == self.selected,
            tabs.scroll == self.scroll,
            tabs.style == Style::plain(),
            tabs.highlight_style == (Style {
                modifier: Modifier { bits: UNDERLINED_BOLD },
                ..Style::plain()
            }),
    {
        let mut titles: Vec<Title> = Vec::new();
        let mut i: usize = 0;
        while i < self.processes.len()
            invariant
                i <= self.processes@.len(),
                titles@.len() == i,
                forall|k: int| 0 <= k < i ==> is_tab_title(#[trigger] titles@[k], self.processes@[k]),
            decreases self.processes@.len() - i,
        {
            titles.push(self.processes[i].tab_title());
            i += 1;
        }
        VerticalTabs::new().titles(titles).block(
            Block { borders: 0 }.borders(BORDER_RIGHT),
        ).style(Style::default()).highlight_style(
            Style::default().modifier(UNDERLINED_BOLD),
        ).select(self.selected).scroll(self.scroll)
    }

    /// What a mouse event on the tabs asks for.
    pub open spec fn tab_action(&self, tabs_area: Rect, event: MouseEvent) -> Option<
        MouseAction,
    > {
        tab_action(
            Some(Block { borders: BORDER_RIGHT }),
            self.processes@.len() as int,
            self.scroll,
            tabs_area,
            event,
        )
    }

    /// Handles a user's event, given the columns of the tabs and of the shown process
    /// and the height of the whole area. A key is not taken. A mouse event on the tabs
    /// selects or scrolls and is taken; one on the pane of the shown process is taken
    /// and does nothing; any other is not taken. An event that was not taken is meant
    /// for the processes.
    pub fn on_user_input_in(
        &mut self,
        tabs_area: Rect,
        process_area: Rect,
        height: u16,
        event: &InputEvent,
    ) -> (handled: bool)
        ensures
            final(self).processes@ == old(self).processes@,
            match *event {
                InputEvent::Mouse(m) => {
                    let (x, y) = event_cell(m);
                    if tabs_area.holds(x, y) {
                        let after = old(self).after_action(
                            old(self).tab_action(tabs_area, m),
                            height,
                        );
                        handled && final(self).selected == after.selected && final(self).scroll
                            == after.scroll
                    } else {
                        final(self).selected == old(self).selected
                            && final(self).scroll == old(self).scroll
                            && handled == (process_area.holds(x, y)
                            && old(self).selected < old(self).processes@.len())
                    }
                },
                _ => !handled && final(self).selected == old(self).selected && final(self).scroll
                    == old(self).scroll,
            },
    {
        match event {
            InputEvent::Key => false,
            InputEvent::Mouse(m) => {
                let (x, y) = mouse_event_coords(m);
                if contains_point(tabs_area, x, y) {
                    let tabs = self.tabs();
                    proof {
                        lemma_right_border_frames(tabs_area);
                    }
                    let action = tabs.on_mouse_event(tabs_area, m);
                    self.apply(action, height);
                    true
                } else if contains_point(process_area, x, y) && self.selected
                    < self.processes.len() {
                    let selected = self.selected;
                    let handled = self.processes[selected].on_user_input(process_area, event);
                    proof {
                        assert(self.processes@ =~= old(self).processes@);
                    }
                    handled
                } else {
                    false
                }
            },
            InputEvent::Unsupported => false,
        }
    }

    /// The column of the tabs and the column of the shown process within an area, or
    /// none for an area that cannot be split. The two are the columns of the area:
    /// each as high as it, the process right of the tabs, and together as wide as it.
    pub fn layout(&self, area: Rect) -> (parts: Option<(Rect, Rect)>)
        ensures
            parts is Some <==> can_split(area),
            parts matches Some((tabs_area, process_area)) ==> side_by_side(
                area,
                tabs_area,
                process_area,
            ),
    {
        if area.x as u32 + area.width as u32 <= 0xffff && area.y as u32 + area.height as u32
            <= 0xffff && area.width <= 655 {
            Some(split_columns(area, TABS_WIDTH, 100))
        } else {
            None
        }
    }

    /// Handles a user's event within an area. A key is not taken, and no event is
    /// taken in an area that cannot be split. For a mouse event the area is split into
    /// the column of the tabs and the column of the shown process, and the event is
    /// handled within them.
    pub fn on_user_input(&mut self, area: Rect, event: &InputEvent) -> (handled: bool)
        ensures
            final(self).processes@ == old(self).processes@,
            !can_split(area) || !(*event is Mouse) ==> !handled
                && final(self).selected == old(self).selected
                && final(self).scroll == old(self).scroll,
            can_split(area) && *event is Mouse ==> exists|tabs_area: Rect, process_area: Rect|
                side_by_side(area, tabs_area, process_area) && #[trigger] old(self).input_outcome(
                    *final(self),
                    handled,
                    tabs_area,
                    process_area,
                    area.height,
                    *event,
                ),
    {
        match event {
            InputEvent::Mouse(_) => match self.layout(area) {
                Some((tabs_area, process_area)) => {
                    let handled = self.on_user_input_in(
                        tabs_area,
                        process_area,
                        area.height,
                        event,
                    );
                    proof {
                        assert(old(self).input_outcome(
                            *self,
                            handled,
                            tabs_area,
                            process_area,
                            area.height,
                            *event,
                        ));
                    }
                    handled
                },
                None => false,
            },
            _ => false,
        }
    }

    /// Whether `after` and `handled` are what a user's event makes of the view, given
    /// the columns of the tabs and of the shown process and the height of the whole
    /// area. The processes stay as they are. A mouse event in the column of the tabs
    /// is taken and selects or scrolls; one in the column of the shown process is
    /// taken, if there is such a process, and changes nothing; no other event is taken
    /// or changes anything.
    pub open spec fn input_outcome(
        self,
        after: State,
        handled: bool,
        tabs_area: Rect,
        process_area: Rect,
        height: u16,
        event: InputEvent,
    ) -> bool {
        &&& after.processes@ == self.processes@
        &&& match event {
            InputEvent::Mouse(m) => {
                let (x, y) = event_cell(m);
                if tabs_area.holds(x, y) {
                    let selected = self.after_action(self.tab_action(tabs_area, m), height);
                    handled && after.selected == selected.selected && after.scroll
                        == selected.scroll
                } else {
                    after.selected == self.selected && after.scroll == self.scroll && handled == (
                    process_area.holds(x, y) && self.selected < self.processes@.len())
                }
            },
            _ => !handled && after.selected == self.selected && after.scroll == self.scroll,
        }
    }

    /// Whether a selection, a scroll offset and `handled` are what a user's event
    /// makes of the view, given the columns of the tabs and of the shown process and
    /// the height of the whole area.
    pub open spec fn view_outcome(
        self,
        selected: usize,
        scroll: usize,
        handled: bool,
        tabs_area: Rect,
        process_area: Rect,
        height: u16,
        event: InputEvent,
    ) -> bool {
        match event {
            InputEvent::Mouse(m) => {
                let (x, y) = event_cell(m);
                if tabs_area.holds(x, y) {
                    let after = self.after_action(self.tab_action(tabs_area, m), height);
                    handled && selected == after.selected && scroll == after.scroll
                } else {
                    selected == self.selected && scroll == self.scroll && handled == (
                    process_area.holds(x, y) && self.selected < self.processes@.len())
                }
            },
            _ => !handled && selected == self.selected && scroll == self.scroll,
        }
    }

    /// Takes the bytes that the terminals have answered, each with the index of its
    /// process, in the order of the processes.
    pub fn take_process_inputs(&mut self) -> (inputs: Vec<(usize, Vec<u8>)>)
        ensures
            final(self).selected == old(self).selected,
            final(self).scroll == old(self).scroll,
            final(self).processes@.len() == old(self).processes@.len(),
            forall|i: int|
                0 <= i < final(self).processes@.len()
                    ==> (#[trigger] final(self).processes@[i]).input@.len() == 0,
            inputs@.map_values(|p: (usize, Vec<u8>)| (p.0, p.1@)) == pending_inputs(
                old(self).processes@,
                old(self).processes@.len() as int,
            ),
    {
        let mut inputs: Vec<(usize, Vec<u8>)> = Vec::new();
        let n = self.processes.len();
        let mut i: usize = 0;
        proof {
            assert(inputs@.map_values(|p: (usize, Vec<u8>)| (p.0, p.1@)) =~= pending_inputs(
                old(self).processes@,
                0,
            ));
        }
        while i < n
            invariant
                i <= n,
                n == self.processes@.len(),
                n == old(self).processes@.len(),
                self.selected == old(self).selected,
                self.scroll == old(self).scroll,
                forall|k: int| 0 <= k < i ==> (#[trigger] self.processes@[k]).input@.len() == 0,
                forall|k: int| i <= k < n ==> self.processes@[k] == old(self).processes@[k],
                inputs@.map_values(|p: (usize, Vec<u8>)| (p.0, p.1@)) == pending_inputs(
                    old(self).processes@,
                    i as int,
                ),
            decreases n - i,
        {
            let ghost before = inputs@;
            match self.processes[i].take_process_input() {
                Some(data) => {
                    inputs.push((i, data));
                    proof {
                        assert(inputs@.map_values(|p: (usize, Vec<u8>)| (p.0, p.1@))
                            =~= before.map_values(|p: (usize, Vec<u8>)| (p.0, p.1@)).push(
                            (i, data@),
                        ));
                    }
                },
                None => {},
            }
            i += 1;
        }
        inputs
    }

    /// Handles an event: output goes to the terminal of its process, an exit is
    /// remembered, and a user's event is handled within the area. Returns the bytes of
    /// a user's event that the view did not take: they are meant for all processes.
    /// A key, and any event in an area that cannot be split, is never taken and leaves
    /// the selection and the scroll offset alone; a mouse event is taken, and selects
    /// or scrolls, as it lies in the two columns that the area is split into.
    pub fn handle(&mut self, area: Rect, event: &Event) -> (unhandled: Option<Vec<u8>>)
        requires
            old(self).wf(),
            event_fits(*event, old(self).processes@.len() as int),
        ensures
            final(self).wf(),
            final(self).processes@.len() == old(self).processes@.len(),
            forall|i: int|
                0 <= i < final(self).processes@.len()
                    ==> (#[trigger] final(self).processes@[i]).input@
                    == answers_after(old(self).processes@[i], i, *event),
            forall|i: int|
                0 <= i < final(self).processes@.len() ==> process_after(
                    old(self).processes@[i],
                    #[trigger] final(self).processes@[i],
                    i,
                    *event,
                ),
            match *event {
                Event::UserInput(input, raw) => {
                    &&& unhandled is Some ==> unhandled.unwrap()@ == raw@
                    &&& !can_split(area) || !(input is Mouse) ==> unhandled is Some
                        && final(self).selected == old(self).selected && final(self).scroll
                        == old(self).scroll
                    &&& can_split(area) && input is Mouse ==> exists|
                        tabs_area: Rect,
                        process_area: Rect,
                    |
                        side_by_side(area, tabs_area, process_area) && #[trigger] old(self).view_outcome(
                            final(self).selected,
                            final(self).scroll,
                            unhandled is None,
                            tabs_area,
                            process_area,
                            area.height,
                            input,
                        )
                },
                _ => unhandled is None && final(self).selected == old(self).selected
                    && final(self).scroll == old(self).scroll,
            },
    {
        match event {
            Event::ProcessOutput(index, data) => {
                self.on_data(*index, data.as_slice());
                None
            },
            Event::ProcessExit(index, status) => {
                self.on_exit(*index, *status);
                proof {
                    assert forall|i: int| 0 <= i < self.processes@.len() implies (
                    #[trigger] self.processes@[i]).wf() by {
                        assert(old(self).processes@[i].wf());
                    }
                }
                None
            },
            Event::UserInput(input, raw) => {
                let handled = self.on_user_input(area, input);
                let unhandled = if handled {
                    None
                } else {
                    Some(raw.clone())
                };
                proof {
                    if can_split(area) && *input is Mouse {
                        let (tabs_area, process_area) = choose|tabs_area: Rect, process_area: Rect|
                            side_by_side(area, tabs_area, process_area) && #[trigger] old(self).input_outcome(
                                *self,
                                handled,
                                tabs_area,
                                process_area,
                                area.height,
                                *input,
                            );
                        assert(old(self).view_outcome(
                            self.selected,
                            self.scroll,
                            unhandled is None,
                            tabs_area,
                            process_area,
                            area.height,
                            *input,
                        ));
                    }
                }
                unhandled
            },
            _ => None,
        }
    }

    /// The actions that follow from an event that has been handled: the bytes that the
    /// view did not take go to all processes, and what the terminals have answered goes
    /// to their processes, in the order of the processes. The answers are taken.
    pub fn collect_actions(&mut self, unhandled: Option<Vec<u8>>) -> (actions: Vec<Action>)
        ensures
            final(self).selected == old(self).selected,
            final(self).scroll == old(self).scroll,
            final(self).processes@.len() == old(self).processes@.len(),
            forall|i: int|
                0 <= i < final(self).processes@.len()
                    ==> (#[trigger] final(self).processes@[i]).input@.len() == 0,
            forall|i: int|
                0 <= i < final(self).processes@.len() ==> same_but_answers(
                    old(self).processes@[i],
                    #[trigger] final(self).processes@[i],
                ),
            action_views(actions@) == lead_actions(unhandled) + as_actions(
                pending_inputs(old(self).processes@, old(self).processes@.len() as int),
            ),
    {
        let mut actions: Vec<Action> = Vec::new();
        let ghost lead: Seq<ActionView> = lead_actions(unhandled);
        match unhandled {
            Some(data) => {
                actions.push(Action::ProcessInputAll { data });
            },
            None => {},
        }
        let n = self.processes.len();
        let mut i: usize = 0;
        proof {
            assert(action_views(actions@) =~= lead + as_actions(
                pending_inputs(old(self).processes@, 0),
            ));
        }
        while i < n
            invariant
                i <= n,
                n == self.processes@.len(),
                n == old(self).processes@.len(),
                self.selected == old(self).selected,
                self.scroll == old(self).scroll,
                forall|k: int| 0 <= k < i ==> (#[trigger] self.processes@[k]).input@.len() == 0,
                forall|k: int|
                    0 <= k < n ==> same_but_answers(
                        old(self).processes@[k],
                        #[trigger] self.processes@[k],
                    ),
                forall|k: int| i <= k < n ==> self.processes@[k] == old(self).processes@[k],
                action_views(actions@) == lead + as_actions(
                    pending_inputs(old(self).processes@, i as int),
                ),
            decreases n - i,
        {
            let ghost before = actions@;
            let ghost pending = pending_inputs(old(self).processes@, i as int);
            match self.processes[i].take_process_input() {
                Some(data) => {
                    actions.push(Action::ProcessInput { index: i, data });
                    proof {
                        assert(action_views(actions@) =~= action_views(before).push(
                            ActionView::ProcessInput { index: i, data: data@ },
                        ));
                        assert(as_actions(pending.push((i, data@))) =~= as_actions(pending).push(
                            ActionView::ProcessInput { index: i, data: data@ },
                        ));
                        assert(action_views(actions@) =~= lead + as_actions(
                            pending_inputs(old(self).processes@, i + 1),
                        ));
                    }
                },
                None => {},
            }
            i += 1;
        }
        actions
    }

    /// Handles an event and tells what follows from it: the bytes of a user's event
    /// that the view did not take go to all processes, and what the terminals have
    /// answered goes to their processes, in the order of the processes. Only a mouse
    /// event in an area that can be split changes the selection or the scroll offset,
    /// and only such an event can be taken by the view.
    pub fn on_event(&mut self, area: Rect, event: &Event) -> (actions: Vec<Action>)
        requires
            old(self).wf(),
            event_fits(*event, old(self).processes@.len() as int),
        ensures
            final(self).wf(),
            final(self).processes@.len() == old(self).processes@.len(),
            forall|i: int|
                0 <= i < final(self).processes@.len()
                    ==> (#[trigger] final(self).processes@[i]).input@.len() == 0,
            forall|i: int|
                0 <= i < final(self).processes@.len() ==> process_after(
                    old(self).processes@[i],
                    #[trigger] final(self).processes@[i],
                    i,
                    *event,
                ),
            !(*event is UserInput) ==> final(self).selected == old(self).selected
                && final(self).scroll == old(self).scroll,
            action_views(actions@) == as_actions(
                pending_after(old(self).processes@, *event, old(self).processes@.len() as int),
            ) || action_views(actions@) == broadcast(*event) + as_actions(
                pending_after(old(self).processes@, *event, old(self).processes@.len() as int),
            ),
            !(*event is UserInput) ==> action_views(actions@) == as_actions(
                pending_after(old(self).processes@, *event, old(self).processes@.len() as int),
            ),
            (*event matches Event::UserInput(input, _) && (!can_split(area) || !(input is Mouse)))
                ==> final(self).selected == old(self).selected && final(self).scroll
                == old(self).scroll && action_views(actions@) == broadcast(*event) + as_actions(
                pending_after(old(self).processes@, *event, old(self).processes@.len() as int),
            ),
            match *event {
                Event::UserInput(input, _) => can_split(area) && input is Mouse ==> exists|
                    tabs_area: Rect,
                    process_area: Rect,
                    handled: bool,
                |
                    side_by_side(area, tabs_area, process_area) && #[trigger] old(self).view_outcome(
                        final(self).selected,
                        final(self).scroll,
                        handled,
                        tabs_area,
                        process_area,
                        area.height,
                        input,
                    ) && action_views(actions@) == (if handled {
                        Seq::<ActionView>::empty()
                    } else {
                        broadcast(*event)
                    }) + as_actions(
                        pending_after(
                            old(self).processes@,
                            *event,
                            old(self).processes@.len() as int,
                        ),
                    ),
                _ => true,
            },
    {
        let unhandled = self.handle(area, event);
        let ghost mid = self.processes@;
        let ghost taken = unhandled is None;
        proof {
            if let Event::UserInput(input, _) = *event {
                if can_split(area) && input is Mouse {
                    let (tabs_area, process_area) = choose|tabs_area: Rect, process_area: Rect|
                        side_by_side(area, tabs_area, process_area) && #[trigger] old(self).view_outcome(
                            self.selected,
                            self.scroll,
                            taken,
                            tabs_area,
                            process_area,
                            area.height,
                            input,
                        );
                    assert(old(self).view_outcome(
                        self.selected,
                        self.scroll,
                        taken,
                        tabs_area,
                        process_area,
                        area.height,
                        input,
                    ));
                }
            }
        }
        proof {
            lemma_pending_after(old(self).processes@, mid, *event, mid.len() as int);
            assert(Seq::<ActionView>::empty() + as_actions(
                pending_inputs(mid, mid.len() as int),
            ) =~= as_actions(pending_inputs(mid, mid.len() as int)));
        }
        let actions = self.collect_actions(unhandled);
        proof {
            assert forall|i: int| 0 <= i < self.processes@.len() implies (
            #[trigger] self.processes@[i]).wf() by {
                assert(mid[i].wf());
            }
            assert forall|i: int| 0 <= i < self.processes@.len() implies process_after(
                old(self).processes@[i],
                #[trigger] self.processes@[i],
                i,
                *event,
            ) by {
                assert(process_after(old(self).processes@[i], mid[i], i, *event));
                assert(same_but_answers(mid[i], self.processes@[i]));
            }
        }
        actions
    }

    /// Whether every process has ended: then nothing is left to wait for.
    pub fn all_exited(&self) -> (all: bool)
        ensures
            all == forall|i: int|
                0 <= i < self.processes@.len() ==> (#[trigger] self.processes@[i]).exit_status
                    is Some,
    {
        let mut i: usize = 0;
        while i < self.processes.len()
            invariant
                i <= self.processes@.len(),
                forall|k: int| 0 <= k < i ==> (#[trigger] self.processes@[k]).exit_status is Some,
            decreases self.processes@.len() - i,
        {
            if self.processes[i].exit_status.is_none() {
                return false;
            }
            i += 1;
        }
        true
    }

    /// The index of the first process that has ended without success, if any has.
    pub fn first_failure(&self) -> (index: Option<usize>)
        ensures
            match index {
                Some(i) => i < self.processes@.len() && failed(self.processes@[i as int])
                    && forall|k: int| 0 <= k < i ==> !failed(#[trigger] self.processes@[k]),
                None => forall|k: int|
                    0 <= k < self.processes@.len() ==> !failed(#[trigger] self.processes@[k]),
            },
    {
        let mut i: usize = 0;
        while i < self.processes.len()
            invariant
                i <= self.processes@.len(),
                forall|k: int| 0 <= k < i ==> !failed(#[trigger] self.processes@[k]),
            decreases self.processes@.len() - i,
        {
            match self.processes[i].exit_status {
                Some(status) => {
                    if !status.success() {
                        return Some(i);
                    }
                },
                None => {},
            }
            i += 1;
        }
        None
    }
}

/// Whether a process has ended without success.
pub open spec fn failed(process: ProcessState) -> bool {
    match process.exit_status {
        Some(status) => !status.spec_success(),
        None => false,
    }
}

/// The answers of the first `upto` processes that have one, each with the index of
/// its process.
pub open spec fn pending_inputs(processes: Seq<ProcessState>, upto: int) -> Seq<(usize, Seq<u8>)>
    decreases upto,
{
    if upto <= 0 {
        Seq::empty()
    } else {
        let before = pending_inputs(processes, upto - 1);
        if processes[upto - 1].input@.len() > 0 {
            before.push(((upto - 1) as usize, processes[upto - 1].input@))
        } else {
            before
        }
    }
}

proof fn lemma_pending_after(
    before: Seq<ProcessState>,
    after: Seq<ProcessState>,
    event: Event,
    upto: int,
)
    requires
        0 <= upto <= after.len(),
        before.len() == after.len(),
        forall|i: int|
            0 <= i < after.len() ==> (#[trigger] after[i]).input@ == answers_after(
                before[i],
                i,
                event,
            ),
    ensures
        pending_inputs(after, upto) == pending_after(before, event, upto),
    decreases upto,
{
    if upto > 0 {
        lemma_pending_after(before, after, event, upto - 1);
        assert(after[upto - 1].input@ == answers_after(before[upto - 1], upto - 1, event));
    }
}

/// Whether the window has another size than when it was last looked at; the size is
/// remembered.
pub fn check_resized(last_size: &mut Rect, size: Rect) -> (changed: bool)
    ensures
        changed == (size != *old(last_size)),
        *final(last_size) == size,
{
    let result = size.x != last_size.x || size.y != last_size.y || size.width != last_size.width
        || size.height != last_size.height;
    *last_size = size;
    result
}

} // verus!
