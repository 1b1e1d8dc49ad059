//! The parser of escape sequences: a state machine that is fed one byte at a time and
//! tells what the bytes so far amount to.

use vstd::prelude::*;

verus! {

/// The most parameters that a control sequence keeps.
pub const MAX_PARAMS: usize = 16;

/// The most intermediate bytes that a sequence keeps.
pub const MAX_INTERMEDIATES: usize = 2;

/// The most bytes that an operating system command keeps.
pub const MAX_OSC: usize = 1024;

/// Where the parser stands.
#[derive(Clone, Copy, Debug, PartialEq, Eq, Structural)]
pub enum State {
    Ground,
    Escape,
    EscapeIntermediate,
    CsiEntry,
    CsiParam,
    CsiIntermediate,
    CsiIgnore,
    OscString,
    /// Within a device control string or another string that is passed over.
    IgnoredString,
}

/// What the bytes up to now amount to.
#[derive(Clone, Debug, PartialEq, Eq)]
pub enum Sequence {
    /// A character to be shown.
    Print(char),
    /// A control character.
    Execute(u8),
    /// A control sequence: its parameters, its intermediate bytes, whether more of
    /// them came than are kept, and its final byte.
    Csi { params: Vec<usize>, intermediates: Vec<u8>, ignore: bool, action: u8 },
    /// An escape sequence: its intermediate bytes, whether more of them came than are
    /// kept, and its final byte.
    Esc { intermediates: Vec<u8>, ignore: bool, action: u8 },
    /// An operating system command: its bytes.
    Osc { data: Vec<u8> },
}

/// A sequence as a value.
pub enum SequenceView {
    Print(char),
    Execute(u8),
    Csi { params: Seq<usize>, intermediates: Seq<u8>, ignore: bool, action: u8 },
    Esc { intermediates: Seq<u8>, ignore: bool, action: u8 },
    Osc { data: Seq<u8> },
}

impl View for Sequence {
    type V = SequenceView;

    open spec fn view(&self) -> SequenceView {
        match *self {
            Sequence::Print(c) => SequenceView::Print(c),
            Sequence::Execute(b) => SequenceView::Execute(b),
            Sequence::Csi { params, intermediates, ignore, action } => SequenceView::Csi {
                params: params@,
                intermediates: intermediates@,
                ignore,
                action,
            },
            Sequence::Esc { intermediates, ignore, action } => SequenceView::Esc {
                intermediates: intermediates@,
                ignore,
                action,
            },
            Sequence::Osc { data } => SequenceView::Osc { data: data@ },
        }
    }
}

/// The view of an optional sequence.
pub open spec fn sequence_view(sequence: Option<Sequence>) -> Option<SequenceView> {
    match sequence {
        Some(s) => Some(s@),
        None => None,
    }
}

/// The parser.
pub struct Processor {
    pub state: State,
    /// The parameters that are complete.
    pub params: Vec<usize>,
    /// The parameter that digits are being added to.
    pub param: usize,
    /// Whether a digit of the current parameter has come.
    pub collecting: bool,
    pub intermediates: Vec<u8>,
    /// Whether more intermediate bytes came than are kept.
    pub ignoring: bool,
    /// The bytes of the operating system command so far.
    pub osc: Vec<u8>,
    /// How many bytes of a character in UTF-8 are still to come.
    pub utf8_left: u8,
    /// The bits of the character that have come.
    pub utf8_code: u32,
    /// The least value that the character may have, or its encoding is too long.
    pub utf8_least: u32,
    /// The character that was shown last.
    pub preceding_char: Option<char>,
}

/// The parser as a value.
pub struct ProcessorView {
    pub state: State,
    pub params: Seq<usize>,
    pub param: usize,
    pub collecting: bool,
    pub intermediates: Seq<u8>,
    pub ignoring: bool,
    pub osc: Seq<u8>,
    pub utf8_left: u8,
    pub utf8_code: u32,
    pub utf8_least: u32,
    pub preceding_char: Option<char>,
}

impl View for Processor {
    type V = ProcessorView;

    open spec fn view(&self) -> ProcessorView {
        ProcessorView {
            state: self.state,
            params: self.params@,
            param: self.param,
            collecting: self.collecting,
            intermediates: self.intermediates@,
            ignoring: self.ignoring,
            osc: self.osc@,
            utf8_left: self.utf8_left,
            utf8_code: self.utf8_code,
            utf8_least: self.utf8_least,
            preceding_char: self.preceding_char,
        }
    }
}

/// The character that stands for bytes that are no character.
pub open spec fn replacement() -> char {
    '\u{fffd}'
}

/// Whether a number is a Unicode scalar value.
pub open spec fn is_scalar(code: u32) -> bool {
    code <= 0xd7ff || (0xe000 <= code <= 0x10_ffff)
}

/// The character with the given code, from `char::from_u32`: there is one for
/// every Unicode scalar value and for no other number.
#[verifier::external_body]
fn char_of(code: u32) -> (c: Option<char>)
    ensures
        is_scalar(code) ==> c == Some(code as char),
        !is_scalar(code) ==> c is None,
{
    char::from_u32(code)
}

/// Whether a byte is a control character that is executed at once, wherever the
/// parser stands.
pub open spec fn is_c0(byte: u8) -> bool {
    byte <= 0x17 || byte == 0x19 || (0x1c <= byte <= 0x1f)
}

/// The parameter with a digit added, kept within the range of `usize`.
pub open spec fn with_digit(param: usize, digit: u8) -> usize {
    if param * 10 + (digit - 0x30) > usize::MAX {
        usize::MAX
    } else {
        (param * 10 + (digit - 0x30)) as usize
    }
}

impl ProcessorView {
    /// The parser on the ground, with nothing collected.
    pub open spec fn fresh() -> ProcessorView {
        ProcessorView {
            state: State::Ground,
            params: Seq::empty(),
            param: 0,
            collecting: false,
            intermediates: Seq::empty(),
            ignoring: false,
            osc: Seq::empty(),
            utf8_left: 0,
            utf8_code: 0,
            utf8_least: 0,
            preceding_char: None,
        }
    }

    /// The parser with nothing collected.
    pub open spec fn cleared(self) -> ProcessorView {
        ProcessorView {
            params: Seq::empty(),
            param: 0,
            collecting: false,
            intermediates: Seq::empty(),
            ignoring: false,
            osc: Seq::empty(),
            ..self
        }
    }

    pub open spec fn at(self, state: State) -> ProcessorView {
        ProcessorView { state, ..self }
    }

    /// An intermediate byte kept, or noted as one too many.
    pub open spec fn collected(self, byte: u8) -> ProcessorView {
        if self.intermediates.len() >= MAX_INTERMEDIATES {
            ProcessorView { ignoring: true, ..self }
        } else {
            ProcessorView { intermediates: self.intermediates.push(byte), ..self }
        }
    }

    /// A digit added to the current parameter, or, for a semicolon, the current
    /// parameter completed. A parameter beyond the sixteenth takes the place of the
    /// sixteenth.
    pub open spec fn with_param_byte(self, byte: u8) -> ProcessorView {
        if byte == 0x3b {
            if self.params.len() >= MAX_PARAMS - 1 {
                self
            } else {
                ProcessorView {
                    params: self.params.push(self.param),
                    param: 0,
                    collecting: false,
                    ..self
                }
            }
        } else {
            ProcessorView { param: with_digit(self.param, byte), collecting: true, ..self }
        }
    }

    /// The parameters of a control sequence when its final byte comes.
    pub open spec fn final_params(self) -> Seq<usize> {
        if self.collecting {
            self.params.push(self.param)
        } else {
            self.params
        }
    }

    /// A byte of an operating system command kept, as long as there is room.
    pub open spec fn with_osc_byte(self, byte: u8) -> ProcessorView {
        if self.osc.len() >= MAX_OSC {
            self
        } else {
            ProcessorView { osc: self.osc.push(byte), ..self }
        }
    }

    pub open spec fn csi(self, action: u8) -> SequenceView {
        SequenceView::Csi {
            params: self.final_params(),
            intermediates: self.intermediates,
            ignore: self.ignoring,
            action,
        }
    }

    pub open spec fn esc(self, action: u8) -> SequenceView {
        SequenceView::Esc { intermediates: self.intermediates, ignore: self.ignoring, action }
    }

    /// What a byte does while a character in UTF-8 is being read: a continuation
    /// byte adds its bits, and the last one completes the character, which is shown
    /// unless its encoding was too long or it is no scalar value; any other byte
    /// breaks the character off. What is broken is shown as the replacement character.
    pub open spec fn utf8_step(self, byte: u8) -> (ProcessorView, Option<SequenceView>) {
        if 0x80 <= byte <= 0xbf {
            let code = (self.utf8_code * 64 + (byte - 0x80)) as u32;
            if self.utf8_left == 1 {
                (
                    ProcessorView { utf8_left: 0, utf8_code: 0, utf8_least: 0, ..self },
                    Some(
                        SequenceView::Print(
                            if code >= self.utf8_least && is_scalar(code) {
                                code as char
                            } else {
                                replacement()
                            },
                        ),
                    ),
                )
            } else {
                (
                    ProcessorView {
                        utf8_left: (self.utf8_left - 1) as u8,
                        utf8_code: code,
                        ..self
                    },
                    None,
                )
            }
        } else {
            (
                ProcessorView { utf8_left: 0, utf8_code: 0, utf8_least: 0, ..self },
                Some(SequenceView::Print(replacement())),
            )
        }
    }

    /// What a byte does on the ground: a control character is executed, a printable
    /// ASCII character is shown, the first byte of a character in UTF-8 starts it, and
    /// a byte that can start none is shown as the replacement character.
    pub open spec fn ground_step(self, byte: u8) -> (ProcessorView, Option<SequenceView>) {
        if byte < 0x20 {
            (self, Some(SequenceView::Execute(byte)))
        } else if byte < 0x80 {
            (self, Some(SequenceView::Print(byte as char)))
        } else if byte < 0xa0 {
            (self, Some(SequenceView::Execute(byte)))
        } else if 0xc2 <= byte <= 0xdf {
            (
                ProcessorView {
                    utf8_left: 1,
                    utf8_code: (byte - 0xc0) as u32,
                    utf8_least: 0x80,
                    ..self
                },
                None,
            )
        } else if 0xe0 <= byte <= 0xef {
            (
                ProcessorView {
                    utf8_left: 2,
                    utf8_code: (byte - 0xe0) as u32,
                    utf8_least: 0x800,
                    ..self
                },
                None,
            )
        } else if 0xf0 <= byte <= 0xf4 {
            (
                ProcessorView {
                    utf8_left: 3,
                    utf8_code: (byte - 0xf0) as u32,
                    utf8_least: 0x1_0000,
                    ..self
                },
                None,
            )
        } else {
            (self, Some(SequenceView::Print(replacement())))
        }
    }

    /// What a byte does after an escape character.
    pub open spec fn escape_step(self, byte: u8) -> (ProcessorView, Option<SequenceView>) {
        if 0x20 <= byte <= 0x2f {
            (self.collected(byte).at(State::EscapeIntermediate), None)
        } else if byte == 0x5b {
            (self.cleared().at(State::CsiEntry), None)
        } else if byte == 0x5d {
            (self.cleared().at(State::OscString), None)
        } else if byte == 0x50 || byte == 0x58 || byte == 0x5e || byte == 0x5f {
            (self.at(State::IgnoredString), None)
        } else if 0x30 <= byte <= 0x7e {
            (self.at(State::Ground), Some(self.esc(byte)))
        } else {
            (self, None)
        }
    }

    /// What a byte does within a control sequence.
    pub open spec fn csi_step(self, byte: u8) -> (ProcessorView, Option<SequenceView>) {
        if 0x40 <= byte <= 0x7e {
            (
                self.at(State::Ground),
                if self.state == State::CsiIgnore {
                    None
                } else {
                    Some(self.csi(byte))
                },
            )
        } else if self.state == State::CsiIgnore || !(0x20 <= byte <= 0x3f) {
            (self, None)
        } else if byte <= 0x2f {
            (self.collected(byte).at(State::CsiIntermediate), None)
        } else if self.state == State::CsiIntermediate || byte == 0x3a {
            (self.at(State::CsiIgnore), None)
        } else if byte <= 0x3b {
            (self.with_param_byte(byte).at(State::CsiParam), None)
        } else if self.state == State::CsiEntry {
            (self.collected(byte).at(State::CsiParam), None)
        } else {
            (self.at(State::CsiIgnore), None)
        }
    }

    /// What a byte does to the parser, and what the bytes up to it amount to. A
    /// character in UTF-8 is read to its end first. Then, wherever the parser stands,
    /// an escape character starts a new sequence, and ends an operating system command;
    /// cancel and substitute end any sequence and are executed; and within a sequence
    /// the other control characters are executed at once, but for the bell, which ends
    /// an operating system command. Within a string that is passed over nothing counts
    /// but its end.
    #[verifier::opaque]
    pub open spec fn step(self, byte: u8) -> (ProcessorView, Option<SequenceView>) {
        if self.utf8_left > 0 {
            self.utf8_step(byte)
        } else if byte == 0x1b {
            (
                self.cleared().at(State::Escape),
                if self.state == State::OscString {
                    Some(SequenceView::Osc { data: self.osc })
                } else {
                    None
                },
            )
        } else if byte == 0x18 || byte == 0x1a {
            (self.at(State::Ground), Some(SequenceView::Execute(byte)))
        } else {
            match self.state {
                State::Ground => self.ground_step(byte),
                State::OscString => if byte == 0x07 {
                    (self.at(State::Ground), Some(SequenceView::Osc { data: self.osc }))
                } else if byte >= 0x20 {
                    (self.with_osc_byte(byte), None)
                } else {
                    (self, None)
                },
                State::IgnoredString => if byte == 0x9c {
                    (self.at(State::Ground), None)
                } else {
                    (self, None)
                },
                _ => if is_c0(byte) {
                    (self, Some(SequenceView::Execute(byte)))
                } else if byte >= 0x7f {
                    (self, None)
                } else {
                    match self.state {
                        State::Escape => self.escape_step(byte),
                        State::EscapeIntermediate => if byte <= 0x2f {
                            (self.collected(byte), None)
                        } else {
                            (self.at(State::Ground), Some(self.esc(byte)))
                        },
                        _ => self.csi_step(byte),
                    }
                },
            }
        }
    }

    /// What is kept is within its limits.
    pub open spec fn wf(self) -> bool {
        &&& self.params.len() < MAX_PARAMS
        &&& self.intermediates.len() <= MAX_INTERMEDIATES
        &&& self.osc.len() <= MAX_OSC
        &&& self.utf8_left <= 3
        &&& self.utf8_code < 0x8000
        &&& self.utf8_left == 3 ==> self.utf8_code < 8
        &&& self.utf8_left == 2 ==> self.utf8_code < 0x200
    }
}

/// The parser keeps what it keeps within its limits, whatever it is fed.
pub proof fn lemma_step_keeps_limits(p: ProcessorView, byte: u8)
    requires
        p.wf(),
    ensures
        p.step(byte).0.wf(),
{
    reveal(ProcessorView::step);
    if p.utf8_left > 0 && 0x80 <= byte <= 0xbf && p.utf8_left > 1 {
        assert(p.utf8_code * 64 + (byte - 0x80) < 0x8000);
    }
}

impl Processor {
    pub open spec fn wf(&self) -> bool {
        self@.wf()
    }

    /// A parser on the ground.
    pub fn new() -> (p: Processor)
        ensures
            p.wf(),
            p@ == ProcessorView::fresh(),
    {
        Processor {
            state: State::Ground,
            params: Vec::new(),
            param: 0,
            collecting: false,
            intermediates: Vec::new(),
            ignoring: false,
            osc: Vec::new(),
            utf8_left: 0,
            utf8_code: 0,
            utf8_least: 0,
            preceding_char: None,
        }
    }

    fn clear(&mut self)
        ensures
            final(self)@ == old(self)@.cleared(),
    {
        self.params.clear();
        self.param = 0;
        self.collecting = false;
        self.intermediates.clear();
        self.ignoring = false;
        self.osc.clear();
    }

    fn collect(&mut self, byte: u8)
        ensures
            final(self)@ == old(self)@.collected(byte),
    {
        if self.intermediates.len() >= MAX_INTERMEDIATES {
            self.ignoring = true;
        } else {
            self.intermediates.push(byte);
        }
    }

    fn param_byte(&mut self, byte: u8)
        requires
            byte == 0x3b || (0x30 <= byte <= 0x39),
        ensures
            final(self)@ == old(self)@.with_param_byte(byte),
    {
        if byte == 0x3b {
            if self.params.len() < MAX_PARAMS - 1 {
                self.params.push(self.param);
                self.param = 0;
                self.collecting = false;
            }
        } else {
            let digit = (byte - 0x30) as usize;
            self.param = if self.param > (usize::MAX - digit) / 10 {
                usize::MAX
            } else {
                self.param * 10 + digit
            };
            self.collecting = true;
        }
    }

    fn osc_byte(&mut self, byte: u8)
        ensures
            final(self)@ == old(self)@.with_osc_byte(byte),
    {
        if self.osc.len() < MAX_OSC {
            self.osc.push(byte);
        }
    }

    fn take_osc(&mut self) -> (sequence: Sequence)
        ensures
            sequence@ == (SequenceView::Osc { data: old(self)@.osc }),
            final(self)@ == (ProcessorView { osc: Seq::empty(), ..old(self)@ }),
    {
        let mut data: Vec<u8> = Vec::new();
        std::mem::swap(&mut self.osc, &mut data);
        Sequence::Osc { data }
    }

    fn copy_bytes(bytes: &Vec<u8>) -> (copy: Vec<u8>)
        ensures
            copy@ == bytes@,
    {
        let mut copy: Vec<u8> = Vec::new();
        let mut i: usize = 0;
        while i < bytes.len()
            invariant
                i <= bytes@.len(),
                copy@ == bytes@.subrange(0, i as int),
            decreases bytes@.len() - i,
        {
            copy.push(bytes[i]);
            proof {
                assert(copy@ =~= bytes@.subrange(0, i + 1));
            }
            i += 1;
        }
        proof {
            assert(bytes@.subrange(0, bytes@.len() as int) =~= bytes@);
        }
        copy
    }

    fn esc_sequence(&self, action: u8) -> (sequence: Sequence)
        ensures
            sequence@ == self@.esc(action),
    {
        Sequence::Esc {
            intermediates: Self::copy_bytes(&self.intermediates),
            ignore: self.ignoring,
            action,
        }
    }

    fn csi_sequence(&self, action: u8) -> (sequence: Sequence)
        ensures
            sequence@ == self@.csi(action),
    {
        let mut params: Vec<usize> = Vec::new();
        let mut i: usize = 0;
        while i < self.params.len()
            invariant
                i <= self.params@.len(),
                params@ == self.params@.subrange(0, i as int),
            decreases self.params@.len() - i,
        {
            params.push(self.params[i]);
            proof {
                assert(params@ =~= self.params@.subrange(0, i + 1));
            }
            i += 1;
        }
        proof {
            assert(self.params@.subrange(0, self.params@.len() as int) =~= self.params@);
        }
        if self.collecting {
            params.push(self.param);
        }
        Sequence::Csi {
            params,
            intermediates: Self::copy_bytes(&self.intermediates),
            ignore: self.ignoring,
            action,
        }
    }

    fn utf8_byte(&mut self, byte: u8) -> (sequence: Option<Sequence>)
        requires
            old(self).wf(),
            old(self).utf8_left > 0,
        ensures
            (final(self)@, sequence_view(sequence)) == old(self)@.utf8_step(byte),
    {
        if 0x80 <= byte && byte <= 0xbf {
            let code: u32 = self.utf8_code * 64 + (byte - 0x80) as u32;
            if self.utf8_left == 1 {
                let least = self.utf8_least;
                self.utf8_left = 0;
                self.utf8_code = 0;
                self.utf8_least = 0;
                let shown = if code >= least {
                    match char_of(code) {
                        Some(c) => c,
                        None => '\u{fffd}',
                    }
                } else {
                    '\u{fffd}'
                };
                Some(Sequence::Print(shown))
            } else {
                self.utf8_left = self.utf8_left - 1;
                self.utf8_code = code;
                None
            }
        } else {
            self.utf8_left = 0;
            self.utf8_code = 0;
            self.utf8_least = 0;
            Some(Sequence::Print('\u{fffd}'))
        }
    }

    fn ground_byte(&mut self, byte: u8) -> (sequence: Option<Sequence>)
        ensures
            (final(self)@, sequence_view(sequence)) == old(self)@.ground_step(byte),
    {
        if byte < 0x20 {
            Some(Sequence::Execute(byte))
        } else if byte < 0x80 {
            Some(Sequence::Print(byte as char))
        } else if byte < 0xa0 {
            Some(Sequence::Execute(byte))
        } else if 0xc2 <= byte && byte <= 0xdf {
            self.utf8_left = 1;
            self.utf8_code = (byte - 0xc0) as u32;
            self.utf8_least = 0x80;
            None
        } else if 0xe0 <= byte && byte <= 0xef {
            self.utf8_left = 2;
            self.utf8_code = (byte - 0xe0) as u32;
            self.utf8_least = 0x800;
            None
        } else if 0xf0 <= byte && byte <= 0xf4 {
            self.utf8_left = 3;
            self.utf8_code = (byte - 0xf0) as u32;
            self.utf8_least = 0x1_0000;
            None
        } else {
            Some(Sequence::Print('\u{fffd}'))
        }
    }

    fn escape_byte(&mut self, byte: u8) -> (sequence: Option<Sequence>)
        ensures
            (final(self)@, sequence_view(sequence)) == old(self)@.escape_step(byte),
    {
        if 0x20 <= byte && byte <= 0x2f {
            self.collect(byte);
            self.state = State::EscapeIntermediate;
            None
        } else if byte == 0x5b {
            self.clear();
            self.state = State::CsiEntry;
            None
        } else if byte == 0x5d {
            self.clear();
            self.state = State::OscString;
            None
        } else if byte == 0x50 || byte == 0x58 || byte == 0x5e || byte == 0x5f {
            self.state = State::IgnoredString;
            None
        } else if 0x30 <= byte && byte <= 0x7e {
            let sequence = self.esc_sequence(byte);
            self.state = State::Ground;
            Some(sequence)
        } else {
            None
        }
    }

    fn csi_byte(&mut self, byte: u8) -> (sequence: Option<Sequence>)
        ensures
            (final(self)@, sequence_view(sequence)) == old(self)@.csi_step(byte),
    {
        let ignored = match self.state {
            State::CsiIgnore => true,
            _ => false,
        };
        let intermediate = match self.state {
            State::CsiIntermediate => true,
            _ => false,
        };
        let entry = match self.state {
            State::CsiEntry => true,
            _ => false,
        };
        if 0x40 <= byte && byte <= 0x7e {
            if ignored {
                self.state = State::Ground;
                None
            } else {
                let sequence = self.csi_sequence(byte);
                self.state = State::Ground;
                Some(sequence)
            }
        } else if ignored || !(0x20 <= byte && byte <= 0x3f) {
            None
        } else if byte <= 0x2f {
            self.collect(byte);
            self.state = State::CsiIntermediate;
            None
        } else if intermediate || byte == 0x3a {
            self.state = State::CsiIgnore;
            None
        } else if byte <= 0x3b {
            self.param_byte(byte);
            self.state = State::CsiParam;
            None
        } else if entry {
            self.collect(byte);
            self.state = State::CsiParam;
            None
        } else {
            self.state = State::CsiIgnore;
            None
        }
    }

    fn sequence_byte(&mut self, byte: u8) -> (sequence: Option<Sequence>)
        requires
            old(self).state != State::Ground,
            old(self).state != State::OscString,
            old(self).state != State::IgnoredString,
            !is_c0(byte),
            byte < 0x7f,
        ensures
            (final(self)@, sequence_view(sequence)) == (match old(self)@.state {
                State::Escape => old(self)@.escape_step(byte),
                State::EscapeIntermediate => if byte <= 0x2f {
                    (old(self)@.collected(byte), None)
                } else {
                    (old(self)@.at(State::Ground), Some(old(self)@.esc(byte)))
                },
                _ => old(self)@.csi_step(byte),
            }),
    {
        match self.state {
            State::Escape => self.escape_byte(byte),
            State::EscapeIntermediate => {
                if byte <= 0x2f {
                    self.collect(byte);
                    None
                } else {
                    let sequence = self.esc_sequence(byte);
                    self.state = State::Ground;
                    Some(sequence)
                }
            },
            _ => self.csi_byte(byte),
        }
    }

    fn escape_char(&mut self) -> (sequence: Option<Sequence>)
        ensures
            final(self)@ == old(self)@.cleared().at(State::Escape),
            sequence_view(sequence) == if old(self)@.state == State::OscString {
                Some(SequenceView::Osc { data: old(self)@.osc })
            } else {
                None
            },
    {
        let in_osc = match self.state {
            State::OscString => true,
            _ => false,
        };
        if in_osc {
            let sequence = self.take_osc();
            self.clear();
            self.state = State::Escape;
            Some(sequence)
        } else {
            self.clear();
            self.state = State::Escape;
            None
        }
    }

    fn osc_string_byte(&mut self, byte: u8) -> (sequence: Option<Sequence>)
        requires
            old(self).state == State::OscString,
        ensures
            (final(self)@, sequence_view(sequence)) == (if byte == 0x07 {
                (
                    old(self)@.at(State::Ground),
                    Some(SequenceView::Osc { data: old(self)@.osc }),
                )
            } else if byte >= 0x20 {
                (old(self)@.with_osc_byte(byte), None)
            } else {
                (old(self)@, None)
            }),
    {
        if byte == 0x07 {
            let sequence = Sequence::Osc { data: Self::copy_bytes(&self.osc) };
            self.state = State::Ground;
            Some(sequence)
        } else if byte >= 0x20 {
            self.osc_byte(byte);
            None
        } else {
            None
        }
    }

    /// Feeds the parser a byte. Returns what the bytes up to it amount to, if they
    /// amount to something.
    pub fn parse(&mut self, byte: u8) -> (sequence: Option<Sequence>)
        requires
            old(self).wf(),
        ensures
            (final(self)@, sequence_view(sequence)) == old(self)@.step(byte),
            final(self).wf(),
            final(self).preceding_char == old(self).preceding_char,
    {
        proof {
            reveal(ProcessorView::step);
            lemma_step_keeps_limits(self@, byte);
        }
        if self.utf8_left > 0 {
            return self.utf8_byte(byte);
        }
        if byte == 0x1b {
            return self.escape_char();
        }
        if byte == 0x18 || byte == 0x1a {
            self.state = State::Ground;
            return Some(Sequence::Execute(byte));
        }
        match self.state {
            State::Ground => self.ground_byte(byte),
            State::OscString => self.osc_string_byte(byte),
            State::IgnoredString => {
                if byte == 0x9c {
                    self.state = State::Ground;
                }
                None
            },
            _ => {
                if byte <= 0x17 || byte == 0x19 || (0x1c <= byte && byte <= 0x1f) {
                    Some(Sequence::Execute(byte))
                } else if byte >= 0x7f {
                    None
                } else {
                    self.sequence_byte(byte)
                }
            },
        }
    }
}

} // verus!
