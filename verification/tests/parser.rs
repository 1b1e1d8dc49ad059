use mux::terminal_emulator::ansi::CharsetIndex;
use mux::terminal_emulator::ansi::Color;
use mux::terminal_emulator::ansi::CursorStyle;
use mux::terminal_emulator::ansi::NamedColor;
use mux::terminal_emulator::ansi::StandardCharset;
use mux::terminal_emulator::index::Point;
use mux::terminal_emulator::mode;
use mux::terminal_emulator::parser::Processor;
use mux::terminal_emulator::parser::Sequence;
use mux::terminal_emulator::parser::State;
use mux::terminal_emulator::perform::perform;
use mux::terminal_emulator::term::cell;
use mux::terminal_emulator::term::color::Rgb;
use mux::terminal_emulator::term::SizeInfo;
use mux::terminal_emulator::term::Term;
use mux::ui::layout::InputEvent;
use mux::ui::layout::MouseButton;
use mux::ui::layout::MouseEvent;
use mux::ui::layout::Rect;
use mux::ui::Action;
use mux::ui::Event;
use mux::ui::ExitStatus;
use mux::ui::ProcessSettings;
use mux::ui::ProcessState;

fn screen(cols: usize, lines: usize) -> Term {
    Term::new(SizeInfo {
        width: cols,
        height: lines,
        cell_width: 1,
        cell_height: 1,
        padding_x: 0,
        padding_y: 0,
    })
}

fn run(term: &mut Term, bytes: &[u8]) -> Vec<u8> {
    let mut parser = Processor::new();
    let mut out = Vec::new();
    parser.advance_all(term, bytes, &mut out);
    out
}

fn text(term: &Term, line: usize) -> String {
    (0..term.cols()).map(|col| term.grid().cell(line, col).c).collect()
}

fn parse_all(bytes: &[u8]) -> Vec<Sequence> {
    let mut parser = Processor::new();
    bytes.iter().filter_map(|b| parser.parse(*b)).collect()
}

#[test]
fn plain_text_and_controls() {
    let mut term = screen(8, 3);
    run(&mut term, b"ab\r\ncd\x08e\tf");
    assert_eq!(text(&term, 0), "ab      ");
    assert_eq!(text(&term, 1), "ce\t f   ");
    assert_eq!(term.cursor().point, Point { line: 1, col: 5 });
    run(&mut term, b"\x07");
    assert_eq!(term.next_is_urgent, Some(true));
    run(&mut term, b"\x0e");
    assert_eq!(term.active_charset, CharsetIndex::G1);
    run(&mut term, b"\x0f");
    assert_eq!(term.active_charset, CharsetIndex::G0);
    run(&mut term, b"\x0b\x0c");
    assert_eq!(term.cursor().point.line, 2);
}

#[test]
fn sequences_are_recognised() {
    assert_eq!(
        parse_all(b"a\x1b[1;23;m\x1b[?25l\x1b(0\x1b]0;t\x07\x1bM\n"),
        vec![
            Sequence::Print('a'),
            Sequence::Csi { params: vec![1, 23], intermediates: vec![], ignore: false, action: b'm' },
            Sequence::Csi { params: vec![25], intermediates: vec![b'?'], ignore: false, action: b'l' },
            Sequence::Esc { intermediates: vec![b'('], ignore: false, action: b'0' },
            Sequence::Osc { data: b"0;t".to_vec() },
            Sequence::Esc { intermediates: vec![], ignore: false, action: b'M' },
            Sequence::Execute(b'\n'),
        ]
    );
    assert_eq!(
        parse_all(b"\x1b[;5H\x1b[H"),
        vec![
            Sequence::Csi { params: vec![0, 5], intermediates: vec![], ignore: false, action: b'H' },
            Sequence::Csi { params: vec![], intermediates: vec![], ignore: false, action: b'H' },
        ]
    );
    assert_eq!(
        parse_all(b"\x1b[1\n2A"),
        vec![
            Sequence::Execute(b'\n'),
            Sequence::Csi { params: vec![12], intermediates: vec![], ignore: false, action: b'A' },
        ]
    );
    assert_eq!(parse_all(b"\x1b[1:2m"), vec![]);
    assert_eq!(parse_all(b"\x1b[1 !#q"), vec![Sequence::Csi {
        params: vec![1],
        intermediates: vec![b' ', b'!'],
        ignore: true,
        action: b'q'
    }]);
    assert_eq!(parse_all(b"\x1b[1\x182A"), vec![
        Sequence::Execute(0x18),
        Sequence::Print('2'),
        Sequence::Print('A')
    ]);
    assert_eq!(parse_all(b"\x1bPignored\x1b\\x"), vec![
        Sequence::Esc { intermediates: vec![], ignore: false, action: b'\\' },
        Sequence::Print('x')
    ]);
    assert_eq!(parse_all(b"\x1b]2;a;b\x1b\\"), vec![
        Sequence::Osc { data: b"2;a;b".to_vec() },
        Sequence::Esc { intermediates: vec![], ignore: false, action: b'\\' },
    ]);
    let huge = parse_all(b"\x1b[99999999999999999999999999999A");
    assert_eq!(huge, vec![Sequence::Csi {
        params: vec![usize::MAX],
        intermediates: vec![],
        ignore: false,
        action: b'A'
    }]);
    let many = parse_all(b"\x1b[1;2;3;4;5;6;7;8;9;10;11;12;13;14;15;16;17;18m");
    match &many[0] {
        Sequence::Csi { params, .. } => {
            assert_eq!(params.len(), 16);
            assert_eq!(params[14], 15);
            assert_eq!(params[15], 161718);
        }
        other => panic!("unexpected {:?}", other),
    }
    let mut parser = Processor::new();
    assert_eq!(parser.parse(0x1b), None);
    assert_eq!(parser.state, State::Escape);
    assert_eq!(parser.parse(b'['), None);
    assert_eq!(parser.state, State::CsiEntry);
    assert_eq!(parser.parse(b'5'), None);
    assert_eq!(parser.state, State::CsiParam);
    assert!(parser.parse(b'C').is_some());
    assert_eq!(parser.state, State::Ground);
}

#[test]
fn utf8_is_decoded() {
    assert_eq!(
        parse_all("é世🦀".as_bytes()),
        vec![Sequence::Print('é'), Sequence::Print('世'), Sequence::Print('🦀')]
    );
    assert_eq!(parse_all(b"\xc3("), vec![Sequence::Print('\u{fffd}')]);
    assert_eq!(parse_all(b"\xff"), vec![Sequence::Print('\u{fffd}')]);
    assert_eq!(parse_all(b"\xe0\x80\x80"), vec![Sequence::Print('\u{fffd}')]);
    assert_eq!(parse_all(b"\xed\xa0\x80"), vec![Sequence::Print('\u{fffd}')]);
    assert_eq!(parse_all(b"\xf4\x90\x80\x80"), vec![Sequence::Print('\u{fffd}')]);
    assert_eq!(parse_all(b"\x85"), vec![Sequence::Execute(0x85)]);
    let mut term = screen(6, 1);
    run(&mut term, "a世b".as_bytes());
    assert_eq!(term.grid().cell(0, 1).c, '世');
    assert_eq!(term.grid().cell(0, 3).c, 'b');
}

#[test]
fn cursor_sequences() {
    let mut term = screen(10, 10);
    run(&mut term, b"\x1b[3;4H");
    assert_eq!(term.cursor().point, Point { line: 2, col: 3 });
    run(&mut term, b"\x1b[2A");
    assert_eq!(term.cursor().point, Point { line: 0, col: 3 });
    run(&mut term, b"\x1b[B\x1b[3C\x1b[D");
    assert_eq!(term.cursor().point, Point { line: 1, col: 5 });
    run(&mut term, b"\x1b[2E");
    assert_eq!(term.cursor().point, Point { line: 3, col: 0 });
    run(&mut term, b"\x1b[7G\x1b[F");
    assert_eq!(term.cursor().point, Point { line: 2, col: 0 });
    run(&mut term, b"\x1b[5`\x1b[9d");
    assert_eq!(term.cursor().point, Point { line: 8, col: 4 });
    run(&mut term, b"\x1b[f");
    assert_eq!(term.cursor().point, Point { line: 0, col: 0 });
    run(&mut term, b"\x1b[0;0H\x1b[2e\x1b[2a");
    assert_eq!(term.cursor().point, Point { line: 2, col: 2 });
    run(&mut term, b"\x1b[s\x1b[H\x1b[u");
    assert_eq!(term.cursor().point, Point { line: 2, col: 2 });
    run(&mut term, b"\x1b7\x1b[H\x1b8");
    assert_eq!(term.cursor().point, Point { line: 2, col: 2 });
    run(&mut term, b"\x1b[2;5r");
    assert_eq!(term.scroll_region, 1..5);
    run(&mut term, b"\x1b[r");
    assert_eq!(term.scroll_region, 0..10);
    run(&mut term, b"\x1b[3;3H\x1bD\x1bM\x1bM\x1bE");
    assert_eq!(term.cursor().point, Point { line: 2, col: 0 });
    run(&mut term, b"\x1b[6G\x85");
    assert_eq!(term.cursor().point, Point { line: 3, col: 5 });
    run(&mut term, b"\x1b[20h\x85\x1b[20l");
    assert_eq!(term.cursor().point, Point { line: 4, col: 0 });
    run(&mut term, b"\x1b[3G\x1bH\r\t");
    assert_eq!(term.cursor().point.col, 2);
    run(&mut term, b"\x1b[g\r\t");
    assert_eq!(term.cursor().point.col, 4);
    run(&mut term, b"\x1b[3g\r\t\x1b[Z");
    assert_eq!(term.cursor().point.col, 9);
    run(&mut term, b"\x1b[I");
    assert_eq!(term.cursor().point.col, 9);
}

#[test]
fn editing_sequences() {
    let mut term = screen(6, 3);
    run(&mut term, b"abcdef\x1b[1;2H\x1b[2@");
    assert_eq!(text(&term, 0), "a  bcd");
    run(&mut term, b"\x1b[P");
    assert_eq!(text(&term, 0), "a bcd ");
    run(&mut term, b"\x1b[2X");
    assert_eq!(text(&term, 0), "a  cd ");
    run(&mut term, b"\x1b[K");
    assert_eq!(text(&term, 0), "a     ");
    run(&mut term, b"xyz\x1b[1K");
    assert_eq!(text(&term, 0), "      ");
    run(&mut term, b"\x1b[Hone\r\ntwo\r\nthree\x1b[2;1H\x1b[L");
    assert_eq!(text(&term, 1), "      ");
    assert_eq!(text(&term, 2), "two   ");
    run(&mut term, b"\x1b[M");
    assert_eq!(text(&term, 1), "two   ");
    run(&mut term, b"\x1b[S");
    assert_eq!(text(&term, 0), "two   ");
    run(&mut term, b"\x1b[T");
    assert_eq!(text(&term, 1), "two   ");
    run(&mut term, b"\x1b[2;2H\x1b[1J");
    assert_eq!(text(&term, 1), "  o   ");
    run(&mut term, b"\x1b[J");
    assert_eq!(text(&term, 1), "      ");
    run(&mut term, b"abc\x1b[2J");
    assert_eq!(text(&term, 1), "      ");
    run(&mut term, b"\x1b[3J");
    assert_eq!(term.grid.scroll_limit(), 0);
    run(&mut term, b"\x1b[2Kq\x1b[3b");
    assert_eq!(text(&term, 1), "    qq");
    assert_eq!(text(&term, 2), "qq    ");
    run(&mut term, b"\x1b#8");
    assert_eq!(text(&term, 0), "EEEEEE");
    run(&mut term, b"\x1bc");
    assert_eq!(text(&term, 0), "      ");
    assert_eq!(term.cursor().point, Point { line: 0, col: 0 });
}

#[test]
fn repeat_needs_a_character() {
    let mut term = screen(6, 1);
    run(&mut term, b"\x1b[3b");
    assert_eq!(text(&term, 0), "      ");
    assert_eq!(term.cursor().point.col, 0);
}

#[test]
fn graphic_rendition() {
    let mut term = screen(10, 1);
    run(&mut term, b"\x1b[1;4;31;42ma");
    let cell = *term.grid().cell(0, 0);
    assert_eq!(cell.flags.bits(), cell::BOLD | cell::UNDERLINE);
    assert_eq!(cell.fg, Color::Named(NamedColor::Red));
    assert_eq!(cell.bg, Color::Named(NamedColor::Green));
    run(&mut term, b"\x1b[mb");
    assert_eq!(term.grid().cell(0, 1).flags.bits(), 0);
    assert_eq!(term.grid().cell(0, 1).fg, Color::Named(NamedColor::Foreground));
    run(&mut term, b"\x1b[38;5;200;48;2;1;2;3mc");
    assert_eq!(term.grid().cell(0, 2).fg, Color::Indexed(200));
    assert_eq!(term.grid().cell(0, 2).bg, Color::Spec(Rgb { r: 1, g: 2, b: 3 }));
    run(&mut term, b"\x1b[0;94;107;3;7;8;9md");
    let cell = *term.grid().cell(0, 3);
    assert_eq!(cell.fg, Color::Named(NamedColor::BrightBlue));
    assert_eq!(cell.bg, Color::Named(NamedColor::BrightWhite));
    assert_eq!(cell.flags.bits(), cell::ITALIC | cell::INVERSE | cell::HIDDEN | cell::STRIKEOUT);
    run(&mut term, b"\x1b[23;27;28;29;39;49;2me");
    let cell = *term.grid().cell(0, 4);
    assert_eq!(cell.fg, Color::Named(NamedColor::Foreground));
    assert_eq!(cell.bg, Color::Named(NamedColor::Background));
    assert_eq!(cell.flags.bits(), cell::DIM);
    run(&mut term, b"\x1b[22;38;5;300;1mf");
    assert_eq!(term.grid().cell(0, 5).fg, Color::Named(NamedColor::Foreground));
    assert_eq!(term.grid().cell(0, 5).flags.bits(), cell::BOLD);
    run(&mut term, b"\x1b[0;38mg");
    assert_eq!(term.grid().cell(0, 6).flags.bits(), 0);
    run(&mut term, b"\x1b[0;38;2;1;2mh");
    assert_eq!(term.grid().cell(0, 7).flags.bits(), cell::DIM | cell::BOLD);
    run(&mut term, b"\x1b[0;38;2;1;2;999;4mi");
    assert_eq!(term.grid().cell(0, 8).fg, Color::Named(NamedColor::Foreground));
    assert_eq!(term.grid().cell(0, 8).flags.bits(), cell::UNDERLINE);
}

#[test]
fn modes_and_styles() {
    let mut term = screen(4, 2);
    run(&mut term, b"\x1b[?25l");
    assert!(!term.mode().contains(mode::SHOW_CURSOR));
    run(&mut term, b"\x1b[?25;1;1000;1006;2004h");
    assert!(term.mode().contains(
        mode::SHOW_CURSOR | mode::APP_CURSOR | mode::MOUSE_REPORT_CLICK | mode::SGR_MOUSE
            | mode::BRACKETED_PASTE
    ));
    run(&mut term, b"\x1b[4;20h");
    assert!(term.mode().contains(mode::INSERT | mode::LINE_FEED_NEW_LINE));
    run(&mut term, b"\x1b[4l\x1b[?7l\x1b[?6h\x1b[?3h\x1b[?9999h");
    assert!(!term.mode().contains(mode::INSERT));
    assert!(!term.mode().contains(mode::LINE_WRAP));
    assert!(term.mode().contains(mode::ORIGIN));
    run(&mut term, b"ab\x1b[?1049h");
    assert!(term.alt);
    assert_eq!(text(&term, 0), "    ");
    run(&mut term, b"\x1b[?1049l");
    assert!(!term.alt);
    assert_eq!(text(&term, 0), "ab  ");
    run(&mut term, b"\x1b=");
    assert!(term.mode().contains(mode::APP_KEYPAD));
    run(&mut term, b"\x1b>");
    assert!(!term.mode().contains(mode::APP_KEYPAD));
    run(&mut term, b"\x1b[5 q");
    assert_eq!(term.cursor_style, Some(CursorStyle::Beam));
    run(&mut term, b"\x1b[4 q");
    assert_eq!(term.cursor_style, Some(CursorStyle::Underline));
    run(&mut term, b"\x1b[2 q");
    assert_eq!(term.cursor_style, Some(CursorStyle::Block));
    run(&mut term, b"\x1b[9 q");
    assert_eq!(term.cursor_style, Some(CursorStyle::Block));
    run(&mut term, b"\x1b[ q");
    assert_eq!(term.cursor_style, None);
    run(&mut term, b"\x1b)0\x1b*0\x1b+0\x1b(0");
    assert_eq!(term.cursor().charsets.g0, StandardCharset::SpecialCharacterAndLineDrawing);
    assert_eq!(term.cursor().charsets.g3, StandardCharset::SpecialCharacterAndLineDrawing);
    run(&mut term, b"\x1b(B");
    assert_eq!(term.cursor().charsets.g0, StandardCharset::Ascii);
    assert_eq!(term.cursor().charsets.get(CharsetIndex::G1), StandardCharset::SpecialCharacterAndLineDrawing);
}

#[test]
fn titles() {
    let mut term = screen(4, 2);
    run(&mut term, b"\x1b]0;hello\x07");
    assert_eq!(term.get_next_title(), Some("hello".to_owned()));
    run(&mut term, "\x1b]2;a;b ü\x1b\\".as_bytes());
    assert_eq!(term.get_next_title(), Some("a;b ü".to_owned()));
    run(&mut term, b"\x1b]1;icon\x07\x1b]10;?\x07\x1b]0\x07\x1b]\x07");
    assert_eq!(term.get_next_title(), None);
    run(&mut term, b"\x1b]0;\x07");
    assert_eq!(term.get_next_title(), Some(String::new()));
    run(&mut term, b"\x1b]0;bad \xff\x07");
    assert_eq!(term.get_next_title(), Some("bad \u{fffd}".to_owned()));
}

#[test]
fn answers() {
    let mut term = screen(10, 10);
    assert_eq!(run(&mut term, b"\x1b[c"), b"\x1b[?6c");
    assert_eq!(run(&mut term, b"\x1bZ"), b"\x1b[?6c");
    assert_eq!(run(&mut term, b"\x9a"), b"\x1b[?6c");
    assert_eq!(run(&mut term, b"\x1b[5n"), b"\x1b[0n");
    assert_eq!(run(&mut term, b"\x1b[4;7H\x1b[6n"), b"\x1b[4;7R");
    assert_eq!(run(&mut term, b"\x1b[n\x1b[7n\x1b[?6n"), b"");
    assert_eq!(run(&mut term, b"plain"), b"");
    let mut out = b"kept".to_vec();
    perform(
        &mut term,
        &mut out,
        &Sequence::Csi { params: vec![5], intermediates: vec![], ignore: false, action: b'n' },
        None,
    );
    assert_eq!(out, b"kept\x1b[0n");
}

#[test]
fn process_output_reaches_the_terminal() {
    let mut state = ProcessState::from_settings(ProcessSettings { initial_title: "{}=x".to_owned() });
    state.on_data(b"hi\x1b]0;new title\x07\x1b[6n");
    assert_eq!(state.title, "new title");
    assert_eq!(state.terminal_emulator.grid().cell(0, 0).c, 'h');
    assert_eq!(state.input, b"\x1b[1;3R");
    state.on_data(b"\x1b[");
    state.on_data(b"5n");
    assert_eq!(state.input, b"\x1b[1;3R\x1b[0n");
    assert_eq!(state.take_process_input(), Some(b"\x1b[1;3R\x1b[0n".to_vec()));
    assert_eq!(state.title, "new title");
}

#[test]
fn events_become_actions() {
    let processes = (0..3)
        .map(|i| ProcessState::from_settings(ProcessSettings { initial_title: format!("{{}}={}", i) }))
        .collect();
    let mut state = mux::ui::State::new(processes);
    let area = Rect { x: 0, y: 0, width: 100, height: 30 };
    let actions = state.on_event(area, &Event::UserInput(InputEvent::Key, b"k".to_vec()));
    assert_eq!(actions, vec![Action::ProcessInputAll { data: b"k".to_vec() }]);
    let actions = state.on_event(area, &Event::ProcessOutput(1, b"out\x1b[c".to_vec()));
    assert_eq!(actions, vec![Action::ProcessInput { index: 1, data: b"\x1b[?6c".to_vec() }]);
    assert_eq!(state.processes[1].terminal_emulator.grid().cell(0, 0).c, 'o');
    assert!(state.on_event(area, &Event::ProcessOutput(2, b"quiet".to_vec())).is_empty());
    assert!(state.on_event(area, &Event::ProcessExit(0, ExitStatus { code: Some(3), signal: None })).is_empty());
    assert_eq!(state.processes[0].exit_status, Some(ExitStatus { code: Some(3), signal: None }));
    assert_eq!(state.first_failure(), Some(0));
    assert!(state.on_event(area, &Event::Resized).is_empty());
    assert!(state.on_event(area, &Event::EndOfUserInput).is_empty());
    assert!(Event::EndOfUserInput.ends_input());
    assert!(!Event::Resized.ends_input());
    let click = InputEvent::Mouse(MouseEvent::Press(MouseButton::Left, 3, 3));
    assert!(state.on_event(area, &Event::UserInput(click, b"m".to_vec())).is_empty());
    assert_eq!(state.selected, 2);
    let outside = InputEvent::Mouse(MouseEvent::Press(MouseButton::Left, 300, 3));
    assert_eq!(
        state.on_event(area, &Event::UserInput(outside, b"o".to_vec())),
        vec![Action::ProcessInputAll { data: b"o".to_vec() }]
    );
    state.processes[2].input.push(1);
    state.processes[0].input.push(2);
    assert_eq!(
        state.on_event(area, &Event::UserInput(InputEvent::Unsupported, b"u".to_vec())),
        vec![
            Action::ProcessInputAll { data: b"u".to_vec() },
            Action::ProcessInput { index: 0, data: vec![2] },
            Action::ProcessInput { index: 2, data: vec![1] },
        ]
    );
    assert_eq!(state.handle(area, &Event::UserInput(InputEvent::Key, b"z".to_vec())), Some(b"z".to_vec()));
    assert_eq!(
        state.collect_actions(Some(vec![9])),
        vec![Action::ProcessInputAll { data: vec![9] }]
    );
}
