use mux::terminal_emulator::ansi;
use mux::terminal_emulator::ansi::NamedColor;
use mux::terminal_emulator::config::default_background;
use mux::terminal_emulator::config::default_bright_colors;
use mux::terminal_emulator::config::default_foreground;
use mux::terminal_emulator::config::default_normal_colors;
use mux::terminal_emulator::config::Colors;
use mux::terminal_emulator::config::Config;
use mux::terminal_emulator::config::CursorColors;
use mux::terminal_emulator::config::PrimaryColors;
use mux::terminal_emulator::term::cell;
use mux::terminal_emulator::term::color::Rgb;
use mux::terminal_emulator::term::render::RenderableCell;
use mux::ui::check_resized;
use mux::ui::draw_cell;
use mux::ui::layout::contains_point;
use mux::ui::layout::mouse_event_coords;
use mux::ui::layout::InputEvent;
use mux::ui::layout::MouseButton;
use mux::ui::layout::MouseEvent;
use mux::ui::layout::Rect;
use mux::ui::style;
use mux::ui::style::convert_color;
use mux::ui::style::convert_flags;
use mux::ui::style::Color;
use mux::ui::style::Modifier;
use mux::ui::style::Style;
use mux::ui::vertical_tabs::Block;
use mux::ui::vertical_tabs::MouseAction;
use mux::ui::vertical_tabs::Symbol;
use mux::ui::vertical_tabs::TabRow;
use mux::ui::vertical_tabs::Title;
use mux::ui::vertical_tabs::TitleLayout;
use mux::ui::vertical_tabs::VerticalTabs;
use mux::ui::vertical_tabs::BORDER_BOTTOM;
use mux::ui::vertical_tabs::BORDER_LEFT;
use mux::ui::vertical_tabs::BORDER_RIGHT;
use mux::ui::vertical_tabs::BORDER_TOP;
use mux::ui::Action;
use mux::ui::DrawCell;
use mux::ui::ExitStatus;
use mux::ui::ProcessSettings;
use mux::ui::ProcessState;
use mux::ui::State;

fn rect(x: u16, y: u16, width: u16, height: u16) -> Rect {
    Rect { x, y, width, height }
}

fn process(title: &str) -> ProcessState {
    ProcessState::from_settings(ProcessSettings { initial_title: title.to_owned() })
}

fn state(n: usize) -> State {
    State::new((0..n).map(|i| process(&format!("{{}}={}", i))).collect())
}

fn tabs(n: usize, scroll: usize) -> VerticalTabs {
    VerticalTabs::new()
        .titles((0..n).map(|i| Title::new().text(format!("tab {}", i))).collect())
        .block(Block::default().borders(BORDER_RIGHT))
        .scroll(scroll)
}

fn click(x: u16, y: u16) -> MouseEvent {
    MouseEvent::Press(MouseButton::Left, x, y)
}

#[test]
fn actions_match_their_process() {
    let one = Action::ProcessInput { index: 1, data: vec![1] };
    let all = Action::ProcessInputAll { data: vec![2] };
    let resize = Action::ProcessTermResize { index: 2, width: 80, height: 24 };
    assert!(one.matches_index(1));
    assert!(!one.matches_index(0));
    assert!(all.matches_index(0));
    assert!(all.matches_index(7));
    assert!(resize.matches_index(2));
    assert!(!resize.matches_index(1));
    assert_eq!(one.input_for(1), Some(&vec![1]));
    assert_eq!(one.input_for(2), None);
    assert_eq!(all.input_for(5), Some(&vec![2]));
    assert_eq!(resize.input_for(2), None);
}

#[test]
fn points_in_rectangles() {
    let r = rect(2, 3, 4, 5);
    assert!(contains_point(r, 2, 3));
    assert!(contains_point(r, 5, 7));
    assert!(!contains_point(r, 6, 7));
    assert!(!contains_point(r, 5, 8));
    assert!(!contains_point(r, 1, 3));
    assert!(!contains_point(r, 2, 2));
    assert!(!contains_point(rect(0, 0, 0, 0), 0, 0));
    assert!(contains_point(rect(65535, 65535, 1, 1), 65535, 65535));
}

#[test]
fn mouse_coordinates_count_from_one() {
    assert_eq!(mouse_event_coords(&click(1, 1)), (0, 0));
    assert_eq!(mouse_event_coords(&MouseEvent::Release(5, 9)), (4, 8));
    assert_eq!(mouse_event_coords(&MouseEvent::Hold(10, 2)), (9, 1));
    assert_eq!(mouse_event_coords(&click(0, 0)), (0, 0));
}

#[test]
fn block_inner_area() {
    let area = rect(0, 0, 40, 10);
    assert_eq!(Block::default().inner(area), area);
    assert_eq!(Block::default().borders(BORDER_RIGHT).inner(area), rect(0, 0, 39, 10));
    assert_eq!(
        Block::default().borders(BORDER_LEFT | BORDER_TOP).inner(area),
        rect(1, 1, 39, 9)
    );
    assert_eq!(Block::default().borders(BORDER_BOTTOM).inner(area), rect(0, 0, 40, 9));
    let all = BORDER_TOP | BORDER_RIGHT | BORDER_BOTTOM | BORDER_LEFT;
    assert_eq!(Block::default().borders(all).inner(rect(3, 4, 2, 2)), rect(4, 5, 0, 0));
    assert_eq!(Block::default().borders(all).inner(rect(3, 4, 10, 6)), rect(4, 5, 8, 4));
    assert_eq!(Block::default().borders(BORDER_RIGHT).inner(rect(5, 5, 1, 10)), rect(0, 0, 0, 0));
    assert_eq!(
        Block::default().borders(BORDER_RIGHT).inner(rect(65535, 65535, 2, 2)),
        rect(65535, 65535, 1, 2)
    );
}

#[test]
fn block_frames_what_can_move_inwards() {
    let all = Block::default().borders(BORDER_TOP | BORDER_RIGHT | BORDER_BOTTOM | BORDER_LEFT);
    assert!(all.can_frame(rect(0, 0, 40, 10)));
    assert!(all.can_frame(rect(65534, 65534, 2, 2)));
    assert!(!all.can_frame(rect(65535, 0, 2, 2)));
    assert!(!all.can_frame(rect(0, 65535, 2, 2)));
    assert!(all.can_frame(rect(65535, 65535, 1, 2)));
    assert!(Block::default().borders(BORDER_RIGHT | BORDER_BOTTOM).can_frame(rect(65535, 65535, 2, 2)));
    let bare = VerticalTabs::new();
    assert!(bare.can_frame(rect(65535, 65535, 9, 9)));
    assert!(!bare.block(all).can_frame(rect(65535, 65535, 9, 9)));
}

#[test]
fn all_have_exited_when_each_has() {
    let mut state = State::new(vec![
        ProcessState::from_settings(ProcessSettings { initial_title: "a".to_owned() }),
        ProcessState::from_settings(ProcessSettings { initial_title: "b".to_owned() }),
    ]);
    assert!(!state.all_exited());
    state.on_exit(1, ExitStatus { code: Some(2), signal: None });
    assert!(!state.all_exited());
    assert_eq!(state.first_failure(), Some(1));
    state.on_exit(0, ExitStatus { code: None, signal: Some(15) });
    assert!(state.all_exited());
    assert_eq!(state.first_failure(), Some(0));
    assert!(State::new(Vec::new()).all_exited());
}

#[test]
fn banner_text_tells_how_a_process_ended() {
    let mut process = ProcessState::from_settings(ProcessSettings { initial_title: "a".to_owned() });
    assert_eq!(process.banner_text(), None);
    process.on_exit(ExitStatus { code: Some(0), signal: None });
    assert_eq!(process.banner_text(), Some("exited with exit code: 0".to_owned()));
    process.on_exit(ExitStatus { code: Some(-17), signal: None });
    assert_eq!(process.banner_text(), Some("exited with exit code: -17".to_owned()));
    process.on_exit(ExitStatus { code: None, signal: Some(9) });
    assert_eq!(process.banner_text(), Some("exited with signal: 9".to_owned()));
    process.on_exit(ExitStatus { code: None, signal: None });
    assert_eq!(process.banner_text(), Some("exited".to_owned()));
}

#[test]
fn tabs_layout_without_scrolling() {
    let tabs = tabs(3, 0);
    let area = rect(0, 0, 40, 10);
    assert!(!tabs.has_scroll_up(area));
    assert!(!tabs.has_scroll_down(area));
    let layout = tabs.layout(area);
    assert_eq!(layout.scroll_up_area, rect(0, 0, 39, 0));
    assert_eq!(layout.select_area, rect(0, 0, 39, 10));
    assert_eq!(layout.scroll_down_area, rect(0, 10, 39, 0));
}

#[test]
fn tabs_layout_with_scrolling() {
    let tabs = tabs(20, 2);
    let area = rect(0, 0, 40, 10);
    assert!(tabs.has_scroll_up(area));
    assert!(tabs.has_scroll_down(area));
    assert!(tabs.has_scroll_down(rect(0, 0, 40, 19)));
    assert!(!tabs.has_scroll_down(rect(0, 0, 40, 20)));
    let layout = tabs.layout(area);
    assert_eq!(layout.scroll_up_area, rect(0, 0, 39, 1));
    assert_eq!(layout.select_area, rect(0, 1, 39, 8));
    assert_eq!(layout.scroll_down_area, rect(0, 9, 39, 1));
    let tiny = tabs.layout(rect(0, 0, 1, 1));
    assert_eq!(tiny.select_area.height, 0);
}

#[test]
fn tabs_mouse_events() {
    let tabs = tabs(20, 2);
    let area = rect(0, 0, 40, 10);
    assert_eq!(tabs.on_mouse_event(area, &click(1, 1)), Some(MouseAction::ScrollUp));
    assert_eq!(tabs.on_mouse_event(area, &click(5, 10)), Some(MouseAction::ScrollDown));
    assert_eq!(tabs.on_mouse_event(area, &click(5, 2)), Some(MouseAction::Select(2)));
    assert_eq!(tabs.on_mouse_event(area, &click(39, 9)), Some(MouseAction::Select(9)));
    assert_eq!(tabs.on_mouse_event(area, &click(40, 9)), None);
    assert_eq!(tabs.on_mouse_event(area, &click(5, 11)), None);
    let few = self::tabs(2, 0);
    assert_eq!(few.on_mouse_event(area, &click(1, 1)), Some(MouseAction::Select(0)));
    assert_eq!(few.on_mouse_event(area, &click(1, 2)), Some(MouseAction::Select(1)));
    assert_eq!(few.on_mouse_event(area, &click(1, 9)), Some(MouseAction::Select(1)));
    let none = self::tabs(0, 0);
    assert_eq!(none.on_mouse_event(area, &click(1, 1)), None);
}

#[test]
fn tabs_builder() {
    let bold = Style::default().modifier(style::BOLD);
    let tabs = VerticalTabs::new().select(3).scroll(1).style(bold).highlight_style(
        Style::default().fg(Color::Red).bg(Color::Blue),
    );
    assert_eq!(tabs.selected, 3);
    assert_eq!(tabs.scroll, 1);
    assert_eq!(tabs.style.modifier, Modifier { bits: 1 });
    assert_eq!(tabs.highlight_style.fg, Color::Red);
    assert_eq!(tabs.highlight_style.bg, Color::Blue);
    assert!(tabs.block.is_none());
    let title = Title::new().text("t".to_owned()).style(bold).symbols(Vec::new());
    assert_eq!(title.text, "t");
    assert_eq!(title.style, bold);
    assert_eq!(Style::default(), Style { fg: Color::Reset, bg: Color::Reset, modifier: Modifier { bits: 0 } });
}

#[test]
fn keys_are_not_taken() {
    let mut state = state(3);
    let area = rect(0, 0, 100, 30);
    assert!(!state.on_user_input(area, &InputEvent::Key));
    assert!(!state.on_user_input(area, &InputEvent::Unsupported));
    assert!(!state.on_user_input_in(rect(0, 0, 40, 30), rect(40, 0, 60, 30), 30, &InputEvent::Key));
    assert_eq!(state.selected, 0);
    assert_eq!(state.scroll, 0);
}

#[test]
fn mouse_on_the_tabs_selects_and_scrolls() {
    let mut state = state(40);
    let tabs_area = rect(0, 0, 40, 30);
    let pane = rect(40, 0, 60, 30);
    let on = |state: &mut State, x: u16, y: u16| {
        state.on_user_input_in(tabs_area, pane, 30, &InputEvent::Mouse(click(x, y)))
    };
    assert!(on(&mut state, 3, 5));
    assert_eq!(state.selected, 4);
    assert!(on(&mut state, 3, 30));
    assert_eq!(state.scroll, 1);
    assert!(on(&mut state, 3, 30));
    assert_eq!(state.scroll, 2);
    assert!(on(&mut state, 3, 2));
    assert_eq!(state.selected, 2);
    assert!(on(&mut state, 3, 1));
    assert_eq!(state.scroll, 1);
    assert!(on(&mut state, 3, 1));
    assert_eq!(state.scroll, 0);
    assert!(on(&mut state, 3, 1));
    assert_eq!(state.selected, 0);
    assert!(on(&mut state, 50, 5));
    assert_eq!(state.selected, 0);
    assert!(!on(&mut state, 150, 5));
    assert!(!on(&mut state, 50, 31));
    let tabs = state.tabs();
    assert_eq!(tabs.titles.len(), 40);
    assert_eq!(tabs.titles[7].text, "{}=7");
    assert_eq!(tabs.block, Some(Block { borders: BORDER_RIGHT }));
    assert_eq!(tabs.highlight_style.modifier.bits, style::BOLD | style::UNDERLINED);
}

#[test]
fn mouse_within_the_whole_area() {
    let mut state = state(3);
    let area = rect(0, 0, 100, 30);
    let parts = state.layout(area).unwrap();
    assert_eq!(parts.0, rect(0, 0, 40, 30));
    assert_eq!(parts.1, rect(40, 0, 60, 30));
    assert!(state.on_user_input(area, &InputEvent::Mouse(click(2, 2))));
    assert_eq!(state.selected, 1);
    assert!(state.on_user_input(area, &InputEvent::Mouse(click(60, 2))));
    assert_eq!(state.selected, 1);
    assert!(!state.on_user_input(rect(0, 0, 700, 30), &InputEvent::Mouse(click(2, 2))));
    assert!(state.layout(rect(65535, 0, 10, 10)).is_none());
    assert!(state.layout(rect(0, 0, 656, 10)).is_none());
}

#[test]
fn initial_titles() {
    assert_eq!(ProcessSettings::for_token(&None, "a b").initial_title, "{}=a b");
    assert_eq!(ProcessSettings::for_token(&Some("X".to_owned()), "").initial_title, "X=");
    assert_eq!(ProcessSettings::for_token(&Some(String::new()), "ü").initial_title, "=ü");
}

#[test]
fn process_state_starts_blank() {
    let state = process("{}=a");
    assert_eq!(state.title, "{}=a");
    assert_eq!(state.terminal_emulator.lines(), 24);
    assert_eq!(state.terminal_emulator.cols(), 80);
    assert_eq!(state.exit_status, None);
    assert!(state.input.is_empty());
    assert_eq!(state.banner_height(), 0);
    assert_eq!(state.banner_style(), None);
    let title = state.tab_title();
    assert_eq!(title.text, "{}=a");
    assert!(title.symbols.is_empty());
    let panes = state.layout(rect(40, 0, 60, 30)).unwrap();
    assert_eq!(panes.0, rect(40, 0, 60, 30));
    assert_eq!(panes.1.height, 0);
}

#[test]
fn exited_processes_show_how_they_ended() {
    let mut state = state(3);
    assert_eq!(state.first_failure(), None);
    state.on_exit(0, ExitStatus { code: Some(0), signal: None });
    assert_eq!(state.first_failure(), None);
    state.on_exit(2, ExitStatus { code: None, signal: None });
    state.on_exit(1, ExitStatus { code: Some(-3), signal: None });
    assert_eq!(state.first_failure(), Some(1));
    assert!(ExitStatus { code: Some(0), signal: None }.success());
    assert!(!ExitStatus { code: Some(1), signal: None }.success());
    assert!(!ExitStatus { code: None, signal: None }.success());
    assert_eq!(ExitStatus { code: Some(4), signal: None }.code(), Some(4));

    let ok = state.processes[0].tab_title();
    assert_eq!(ok.symbols.len(), 1);
    assert_eq!(ok.symbols[0].text, "🗙 0");
    assert_eq!(ok.symbols[0].style, Style::default().fg(Color::Green).modifier(style::BOLD));
    let failed = state.processes[1].tab_title();
    assert_eq!(failed.symbols[0].text, "🗙 -3");
    assert_eq!(failed.symbols[0].style.fg, Color::Red);
    let killed = state.processes[2].tab_title();
    assert_eq!(killed.symbols[0].text, "☇");
    assert_eq!(killed.symbols[0].style.fg, Color::Red);
    state.on_exit(1, ExitStatus { code: Some(i32::MIN), signal: None });
    assert_eq!(state.processes[1].tab_title().symbols[0].text, "🗙 -2147483648");
    state.on_exit(1, ExitStatus { code: Some(1207), signal: None });
    assert_eq!(state.processes[1].tab_title().symbols[0].text, "🗙 1207");

    assert_eq!(state.processes[0].banner_height(), 1);
    assert_eq!(
        state.processes[0].banner_style(),
        Some(Style { fg: Color::Black, bg: Color::Green, modifier: Modifier { bits: 3 } })
    );
    assert_eq!(state.processes[1].banner_style().unwrap().bg, Color::Red);
    let panes = state.processes[0].layout(rect(40, 0, 60, 30)).unwrap();
    assert_eq!(panes.0, rect(40, 0, 60, 29));
    assert_eq!(panes.1, rect(40, 29, 60, 1));
}

#[test]
fn answers_of_the_terminals_are_taken_once() {
    let mut state = state(3);
    assert!(state.take_process_inputs().is_empty());
    state.processes[2].input.extend_from_slice(b"\x1b[0n");
    state.processes[0].input.extend_from_slice(b"x");
    assert_eq!(state.take_process_inputs(), vec![(0, b"x".to_vec()), (2, b"\x1b[0n".to_vec())]);
    assert!(state.take_process_inputs().is_empty());
    assert_eq!(state.processes[1].take_process_input(), None);
    state.processes[1].input.push(7);
    assert_eq!(state.processes[1].take_process_input(), Some(vec![7]));
    assert!(state.processes[1].on_user_input(rect(0, 0, 1, 1), &InputEvent::Key));
}

#[test]
fn colors_are_converted() {
    let named = |c: NamedColor| convert_color(ansi::Color::Named(c));
    assert_eq!(named(NamedColor::Black), Color::Black);
    assert_eq!(named(NamedColor::White), Color::White);
    assert_eq!(named(NamedColor::BrightBlack), Color::DarkGray);
    assert_eq!(named(NamedColor::BrightRed), Color::LightRed);
    assert_eq!(named(NamedColor::BrightWhite), Color::Gray);
    assert_eq!(named(NamedColor::Foreground), Color::Reset);
    assert_eq!(named(NamedColor::Background), Color::Reset);
    assert_eq!(named(NamedColor::CursorText), Color::Black);
    assert_eq!(named(NamedColor::Cursor), Color::Gray);
    assert_eq!(named(NamedColor::DimCyan), Color::Cyan);
    assert_eq!(named(NamedColor::BrightForeground), Color::Reset);
    assert_eq!(named(NamedColor::DimForeground), Color::Reset);
    assert_eq!(convert_color(ansi::Color::Spec(Rgb { r: 1, g: 2, b: 3 })), Color::Rgb(1, 2, 3));
    assert_eq!(convert_color(ansi::Color::Indexed(200)), Color::Indexed(200));
}

#[test]
fn flags_are_converted() {
    let convert = |bits: u16| convert_flags(cell::Flags { bits }).bits;
    assert_eq!(convert(0), 0);
    assert_eq!(convert(cell::INVERSE), style::REVERSED);
    assert_eq!(convert(cell::BOLD), style::BOLD);
    assert_eq!(convert(cell::ITALIC), style::ITALIC);
    assert_eq!(convert(cell::UNDERLINE), style::UNDERLINED);
    assert_eq!(convert(cell::DIM), style::DIM);
    assert_eq!(convert(cell::HIDDEN), style::HIDDEN);
    assert_eq!(convert(cell::STRIKEOUT), style::CROSSED_OUT);
    assert_eq!(convert(cell::WRAPLINE | cell::WIDE_CHAR | cell::WIDE_CHAR_SPACER), 0);
    assert_eq!(convert(cell::DIM_BOLD | cell::WRAPLINE), style::BOLD | style::DIM);
    assert_eq!(convert(0x3ff), 0b1_1100_1111);
}

#[test]
fn cells_are_drawn_within_their_pane() {
    let cell = RenderableCell {
        line: 2,
        column: 5,
        chars: ['x', '\u{301}', ' ', ' ', ' ', ' '],
        fg: ansi::Color::Named(NamedColor::Red),
        bg: ansi::Color::Indexed(7),
        flags: cell::Flags { bits: cell::BOLD },
    };
    assert_eq!(
        draw_cell(&cell, rect(40, 1, 10, 3)),
        Some(DrawCell {
            x: 45,
            y: 3,
            c: 'x',
            fg: Color::Red,
            bg: Color::Indexed(7),
            modifier: Modifier { bits: style::BOLD },
        })
    );
    assert_eq!(draw_cell(&cell, rect(40, 1, 5, 3)), None);
    assert_eq!(draw_cell(&cell, rect(40, 1, 6, 2)), None);
    let far = RenderableCell { column: 65536 + 5, ..cell };
    assert_eq!(draw_cell(&far, rect(0, 0, 10, 3)).map(|d| d.x), Some(5));
}

#[test]
fn resize_is_noticed_once() {
    let mut last = rect(0, 0, 80, 24);
    assert!(!check_resized(&mut last, rect(0, 0, 80, 24)));
    assert!(check_resized(&mut last, rect(0, 0, 100, 24)));
    assert_eq!(last, rect(0, 0, 100, 24));
    assert!(!check_resized(&mut last, rect(0, 0, 100, 24)));
}

#[test]
fn default_palette() {
    assert_eq!(default_background(), Rgb { r: 0, g: 0, b: 0 });
    assert_eq!(default_foreground(), Rgb { r: 0xea, g: 0xea, b: 0xea });
    let normal = default_normal_colors();
    assert_eq!(normal.black, Rgb { r: 0, g: 0, b: 0 });
    assert_eq!(normal.red, Rgb { r: 0xd5, g: 0x4e, b: 0x53 });
    assert_eq!(normal.green, Rgb { r: 0xb9, g: 0xca, b: 0x4a });
    assert_eq!(normal.yellow, Rgb { r: 0xe6, g: 0xc5, b: 0x47 });
    assert_eq!(normal.blue, Rgb { r: 0x7a, g: 0xa6, b: 0xda });
    assert_eq!(normal.magenta, Rgb { r: 0xc3, g: 0x97, b: 0xd8 });
    assert_eq!(normal.cyan, Rgb { r: 0x70, g: 0xc0, b: 0xba });
    assert_eq!(normal.white, Rgb { r: 0xea, g: 0xea, b: 0xea });
    let bright = default_bright_colors();
    assert_eq!(bright.black, Rgb { r: 0x66, g: 0x66, b: 0x66 });
    assert_eq!(bright.red, Rgb { r: 0xff, g: 0x33, b: 0x34 });
    assert_eq!(bright.green, Rgb { r: 0x9e, g: 0xc4, b: 0x00 });
    assert_eq!(bright.yellow, Rgb { r: 0xe7, g: 0xc5, b: 0x47 });
    assert_eq!(bright.blue, Rgb { r: 0x7a, g: 0xa6, b: 0xda });
    assert_eq!(bright.magenta, Rgb { r: 0xb7, g: 0x7e, b: 0xe0 });
    assert_eq!(bright.cyan, Rgb { r: 0x54, g: 0xce, b: 0xd6 });
    assert_eq!(bright.white, Rgb { r: 0xff, g: 0xff, b: 0xff });
    let config = Config::default();
    let colors: &Colors = config.colors();
    assert_eq!(colors.normal, normal);
    assert_eq!(colors.bright, bright);
    assert_eq!(colors.primary, PrimaryColors::default());
    assert_eq!(colors.primary.background, default_background());
    assert_eq!(colors.primary.foreground, default_foreground());
    assert_eq!(colors.primary.bright_foreground, None);
    assert_eq!(colors.cursor, CursorColors { text: None, cursor: None });
    assert_eq!(colors.dim, None);
    assert!(colors.indexed_colors.is_empty());
    assert_eq!(*colors, Colors::default());
}

#[test]
fn title_layout() {
    let symbol = |text: &str| Symbol { text: text.to_owned(), style: Style::default() };
    let title = Title::new().text("hello world".to_owned()).symbols(vec![symbol("🗙 1")]);
    assert_eq!(
        title.layout(rect(0, 0, 10, 1)),
        TitleLayout { symbols: vec![Some(7)], text_width: 5, ellipsis: Some(5) }
    );
    let short = Title::new().text("hi".to_owned());
    assert_eq!(
        short.layout(rect(2, 0, 10, 1)),
        TitleLayout { symbols: vec![], text_width: 10, ellipsis: None }
    );
    let cramped = Title::new().text("a".to_owned()).symbols(vec![symbol("abc"), symbol("d")]);
    assert_eq!(
        cramped.layout(rect(4, 0, 2, 1)),
        TitleLayout { symbols: vec![None, None], text_width: 0, ellipsis: Some(3) }
    );
    let combined = Title::new().text("e\u{301}".to_owned());
    assert_eq!(
        combined.layout(rect(0, 0, 1, 1)),
        TitleLayout { symbols: vec![], text_width: 1, ellipsis: None }
    );
    let exact = Title::new().text("abcd".to_owned()).symbols(vec![symbol("☇")]);
    assert_eq!(
        exact.layout(rect(0, 3, 6, 1)),
        TitleLayout { symbols: vec![Some(5)], text_width: 4, ellipsis: None }
    );
}

#[test]
fn tabs_plan() {
    let highlight = Style::default().modifier(style::BOLD);
    let tabs = tabs(5, 1).select(2).highlight_style(highlight);
    let plan = tabs.plan(rect(0, 0, 40, 4));
    assert_eq!(plan.up_arrow, Some((19, 0)));
    assert_eq!(plan.down_arrow, Some((19, 3)));
    assert_eq!(plan.select_area, rect(0, 1, 39, 2));
    assert_eq!(
        plan.rows,
        vec![
            TabRow { index: 0, area: rect(0, 1, 39, 1), style: Style::default() },
            TabRow { index: 1, area: rect(0, 1, 39, 1), style: Style::default() },
            TabRow { index: 2, area: rect(0, 2, 39, 1), style: highlight },
        ]
    );
    let all = self::tabs(2, 0).plan(rect(0, 0, 40, 10));
    assert_eq!(all.up_arrow, None);
    assert_eq!(all.down_arrow, None);
    assert_eq!(all.rows.len(), 2);
    assert_eq!(all.rows[1].area, rect(0, 1, 39, 1));
    let empty = self::tabs(3, 0).plan(rect(0, 0, 1, 1));
    assert!(empty.rows.is_empty());
    assert_eq!(empty.up_arrow, None);
}

fn side_by_side(area: Rect, left: Rect, right: Rect) -> bool {
    left.x == area.x
        && left.y == area.y
        && left.height == area.height
        && right.y == area.y
        && right.height == area.height
        && right.x as u32 == left.x as u32 + left.width as u32
        && left.width as u32 + right.width as u32 == area.width as u32
}

fn stacked(area: Rect, top: Rect, bottom: Rect) -> bool {
    top.x == area.x
        && top.y == area.y
        && top.width == area.width
        && bottom.x == area.x
        && bottom.width == area.width
        && bottom.y as u32 == top.y as u32 + top.height as u32
        && top.height as u32 + bottom.height as u32 == area.height as u32
}

#[test]
fn the_columns_lie_side_by_side_in_every_area() {
    let state = State::new(Vec::new());
    let corners: [(u16, u16, u16); 7] = [
        (0, 0, 0),
        (0, 0, 1),
        (0, 0, 24),
        (3, 7, 50),
        (1000, 2000, 300),
        (64880, 65535, 0),
        (64880, 65000, 535),
    ];
    for width in 0..=655u16 {
        for &(x, y, height) in corners.iter() {
            let area = rect(x, y, width, height);
            let (tabs, pane) = state.layout(area).unwrap();
            assert!(side_by_side(area, tabs, pane), "{:?}: {:?} {:?}", area, tabs, pane);
        }
    }
}

#[test]
fn the_pane_and_the_banner_are_stacked_in_every_area() {
    let running = ProcessState::from_settings(ProcessSettings { initial_title: "a".to_owned() });
    let mut ended = ProcessState::from_settings(ProcessSettings { initial_title: "b".to_owned() });
    ended.on_exit(ExitStatus { code: Some(1), signal: None });
    let corners: [(u16, u16, u16); 6] =
        [(0, 0, 0), (0, 0, 1), (0, 0, 80), (40, 3, 615), (65535, 0, 0), (60000, 65000, 5535)];
    let heights = (0..=300u16).chain([535u16, 1000, 4096, 30000, 65535].iter().cloned());
    for height in heights {
        for &(x, y, width) in corners.iter() {
            if y as u32 + height as u32 > 65535 {
                continue;
            }
            let area = rect(x, y, width, height);
            let (pane, banner) = running.layout(area).unwrap();
            assert!(stacked(area, pane, banner), "{:?}: {:?} {:?}", area, pane, banner);
            let (pane, banner) = ended.layout(area).unwrap();
            assert!(stacked(area, pane, banner), "{:?}: {:?} {:?}", area, pane, banner);
        }
    }
}
