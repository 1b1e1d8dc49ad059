use bytes::BytesMut;
use mux::args::delimiter::byte_is_ascii_whitespace;
use mux::args::delimiter::DelimiterCodec;
use mux::args::generate_final_args;
use mux::args::parse_arg_template;
use mux::args::parse_delimiter;
use mux::args::read;
use mux::options::DelimiterError;
use mux::options::Options;

fn options(null: bool, delimiter: Option<u8>, replace: Option<&str>, initial: &[&str]) -> Options {
    Options {
        null,
        arg_file: None,
        delimiter,
        end: None,
        replace: replace.map(|r| r.to_owned()),
        max_lines: None,
        max_args: None,
        max_procs: None,
        interactive: false,
        process_slot_var: Vec::new(),
        no_run_if_empty: false,
        max_chars: None,
        show_limits: false,
        verbose: false,
        exit: false,
        command: "echo".to_owned(),
        initial_args: initial.iter().map(|s| (*s).to_owned()).collect(),
    }
}

fn run_to_end(codec: &mut DelimiterCodec, buf: &mut BytesMut) -> Vec<Vec<u8>> {
    let mut out = Vec::new();
    while let Some(frame) = codec.decode_eof(buf) {
        out.push(frame.to_vec());
    }
    out
}

fn strings(list: &[&str]) -> Vec<String> {
    list.iter().map(|s| (*s).to_owned()).collect()
}

#[test]
fn whitespace_tokens_skip_empty_runs() {
    let mut codec = DelimiterCodec::new(None);
    let mut buf = BytesMut::from(&b"a b\tc\n\n d"[..]);
    let tokens = run_to_end(&mut codec, &mut buf);
    assert_eq!(tokens, vec![b"a".to_vec(), b"b".to_vec(), b"c".to_vec(), b"d".to_vec()]);
    assert!(buf.is_empty());
}

#[test]
fn null_delimited_tokens() {
    let mut codec = DelimiterCodec::new(parse_delimiter(true, None));
    let mut buf = BytesMut::from(&b"a\x00b\x00\x00c"[..]);
    let tokens = run_to_end(&mut codec, &mut buf);
    assert_eq!(tokens, vec![b"a".to_vec(), b"b".to_vec(), b"c".to_vec()]);
}

#[test]
fn decode_waits_for_a_delimiter() {
    let mut codec = DelimiterCodec::new(Some(b','));
    let mut buf = BytesMut::from(&b"ab"[..]);
    assert!(codec.decode(&mut buf).is_none());
    assert_eq!(&buf[..], b"ab");
    buf.extend_from_slice(b"c,d");
    let frame = codec.decode(&mut buf).unwrap();
    assert_eq!(&frame[..], b"abc");
    assert_eq!(&buf[..], b"d");
    assert!(codec.decode(&mut buf).is_none());
    let last = codec.decode_eof(&mut buf).unwrap();
    assert_eq!(&last[..], b"d");
    assert!(codec.decode_eof(&mut buf).is_none());
}

#[test]
fn decode_drops_an_empty_token() {
    let mut codec = DelimiterCodec::new(Some(b','));
    let mut buf = BytesMut::from(&b",x,"[..]);
    assert!(codec.decode(&mut buf).is_none());
    assert_eq!(&buf[..], b"x,");
    let frame = codec.decode(&mut buf).unwrap();
    assert_eq!(&frame[..], b"x");
    assert!(buf.is_empty());
}

#[test]
fn end_of_input_never_yields_a_delimiter() {
    let mut codec = DelimiterCodec::new(None);
    let mut buf = BytesMut::from(&b"\n\n b c"[..]);
    let tokens = run_to_end(&mut codec, &mut buf);
    assert_eq!(tokens, vec![b"b".to_vec(), b"c".to_vec()]);
}

#[test]
fn only_delimiters_give_no_token() {
    let mut codec = DelimiterCodec::new(None);
    let mut buf = BytesMut::from(&b" \t\r\n\x0c"[..]);
    assert!(codec.decode_eof(&mut buf).is_none());
    assert!(buf.is_empty());
}

#[test]
fn tokens_concatenate_to_the_input_without_delimiters() {
    let input = b"one  two\tthree\n";
    let mut codec = DelimiterCodec::new(None);
    let mut buf = BytesMut::from(&input[..]);
    let joined: Vec<u8> = run_to_end(&mut codec, &mut buf).concat();
    let stripped: Vec<u8> =
        input.iter().cloned().filter(|b| !byte_is_ascii_whitespace(*b)).collect();
    assert_eq!(joined, stripped);
}

#[test]
fn ascii_whitespace_bytes() {
    for b in 0u8..=255 {
        assert_eq!(byte_is_ascii_whitespace(b), b.is_ascii_whitespace());
    }
}

#[test]
fn delimiter_choice() {
    assert_eq!(parse_delimiter(true, Some(b',')), Some(0));
    assert_eq!(parse_delimiter(false, Some(b',')), Some(b','));
    assert_eq!(parse_delimiter(false, None), None);
}

#[test]
fn delimiter_option_must_be_one_byte() {
    assert_eq!(mux::options::parse_delimiter(","), Ok(b','));
    assert_eq!(mux::options::parse_delimiter(""), Err(DelimiterError::NotASingleByte));
    assert_eq!(mux::options::parse_delimiter("ab"), Err(DelimiterError::NotASingleByte));
    assert_eq!(mux::options::parse_delimiter("é"), Err(DelimiterError::NotASingleByte));
    assert_eq!(
        DelimiterError::NotASingleByte.message("ab"),
        "not a single ASCII character: \"ab\""
    );
    assert_eq!(
        DelimiterError::NotASingleByte.message("a\"\n"),
        "not a single ASCII character: \"a\\\"\\n\""
    );
    assert_eq!(DelimiterError::NotASingleByte.message(""), "not a single ASCII character: \"\"");
}

#[test]
fn template_without_placeholder_appends() {
    let parts = parse_arg_template(&strings(&["echo"]), &None);
    assert_eq!(parts, vec![strings(&["echo"])]);
    let args = generate_final_args("hi".to_owned(), &parts);
    assert_eq!(args.all, strings(&["echo", "hi"]));
    assert_eq!(args.specific, "hi");
}

#[test]
fn template_with_placeholder_replaces() {
    let parts = parse_arg_template(&strings(&["echo", "{}", "done"]), &Some("{}".to_owned()));
    assert_eq!(parts, vec![strings(&["echo"]), strings(&["done"])]);
    let args = generate_final_args("hi".to_owned(), &parts);
    assert_eq!(args.all, strings(&["echo", "hi", "done"]));
    assert_eq!(args.specific, "hi");
}

#[test]
fn template_with_custom_and_repeated_placeholder() {
    let template = strings(&["X", "cp", "X", "{}", "X"]);
    let parts = parse_arg_template(&template, &Some("X".to_owned()));
    assert_eq!(parts.len(), 4);
    assert_eq!(parts[0], Vec::<String>::new());
    let args = generate_final_args("f".to_owned(), &parts);
    assert_eq!(args.all, strings(&["f", "cp", "f", "{}", "f"]));
}

#[test]
fn empty_template_appends_the_token() {
    let parts = parse_arg_template(&[], &None);
    assert_eq!(parts, vec![Vec::<String>::new()]);
    let args = generate_final_args("t".to_owned(), &parts);
    assert_eq!(args.all, strings(&["t"]));
}

#[test]
fn read_makes_one_command_line_per_token() {
    let opts = options(false, None, None, &["-n", "{}"]);
    let all = read(&opts, BytesMut::from(&b"a bb\n"[..]));
    assert_eq!(all.len(), 2);
    assert_eq!(all[0].all, strings(&["-n", "a"]));
    assert_eq!(all[0].specific, "a");
    assert_eq!(all[1].all, strings(&["-n", "bb"]));
    assert_eq!(all[1].specific, "bb");
}

#[test]
fn read_decodes_valid_utf8() {
    let opts = options(false, None, Some("{}"), &["say", "{}", "!"]);
    let all = read(&opts, BytesMut::from("gr\u{fc}n \u{65e5}\u{672c}\n".as_bytes()));
    assert_eq!(all.len(), 2);
    assert_eq!(all[0].specific, "gr\u{fc}n");
    assert_eq!(all[0].all, strings(&["say", "gr\u{fc}n", "!"]));
    assert_eq!(all[1].specific, "\u{65e5}\u{672c}");
    assert_eq!(all[1].all, strings(&["say", "\u{65e5}\u{672c}", "!"]));
}

#[test]
fn read_replaces_invalid_utf8() {
    let opts = options(true, None, None, &[]);
    let all = read(&opts, BytesMut::from(&b"ok\x00\xff"[..]));
    assert_eq!(all.len(), 2);
    assert_eq!(all[0].specific, "ok");
    assert_eq!(all[1].specific, "\u{fffd}");
    assert_eq!(all[1].all, strings(&["\u{fffd}"]));
}
