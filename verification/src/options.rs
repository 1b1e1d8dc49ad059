//! The command-line options, as plain values.

use std::path::PathBuf;
use vstd::string::StringSliceAdditionalSpecFns;
use vstd::prelude::*;

verus! {

/// `std::path::PathBuf`, carried through as the name of the argument file.
#[verifier::external_type_specification]
#[verifier::external_body]
pub struct ExPathBuf(std::path::PathBuf);

pub struct Options {
    /// Items are separated by a null byte, not by whitespace.
    pub null: bool,
    /// Read arguments from this file, not from standard input.
    pub arg_file: Option<PathBuf>,
    /// Items are separated by this byte, not by whitespace.
    pub delimiter: Option<u8>,
    /// The logical end-of-file string.
    pub end: Option<String>,
    /// The placeholder that is replaced in the initial arguments.
    pub replace: Option<String>,
    pub max_lines: Option<u64>,
    pub max_args: Option<u64>,
    pub max_procs: Option<u64>,
    pub interactive: bool,
    pub process_slot_var: Vec<String>,
    pub no_run_if_empty: bool,
    pub max_chars: Option<u64>,
    pub show_limits: bool,
    pub verbose: bool,
    pub exit: bool,
    pub command: String,
    pub initial_args: Vec<String>,
}

/// Why a delimiter option was refused.
#[derive(Debug, PartialEq, Eq)]
pub enum DelimiterError {
    /// The option's text is not exactly one byte long.
    NotASingleByte,
}

impl DelimiterError {
    pub fn message(&self, delimiter: &str) -> (text: String)
        ensures
            text@ == refusal_text(delimiter@),
    {
        let mut text = "not a single ASCII character: ".to_owned();
        let quoted = quote(delimiter);
        text.append(quoted.as_str());
        text
    }
}

/// A text as `str`'s `Debug` shows it: in double quotes, with what cannot stand
/// there as it is written as an escape.
pub uninterp spec fn quoted_text(text: Seq<char>) -> Seq<char>;

/// Shows a text with `format!` and `str`'s `Debug`.
#[verifier::external_body]
fn quote(text: &str) -> (quoted: String)
    ensures
        quoted@ == quoted_text(text@),
{
    format!("{:?}", text)
}

/// What is said of a delimiter option that was refused: that it is not a single
/// ASCII character, and the option as it was given, in quotes.
pub open spec fn refusal_text(delimiter: Seq<char>) -> Seq<char> {
    "not a single ASCII character: "@ + quoted_text(delimiter)
}

/// Reads a delimiter option: a text of exactly one byte stands for that byte, any
/// other text is refused.
pub fn parse_delimiter(delimiter: &str) -> (parsed: Result<u8, DelimiterError>)
    ensures
        delimiter.spec_bytes().len() == 1 ==> parsed == Ok::<u8, DelimiterError>(
            delimiter.spec_bytes()[0],
        ),
        delimiter.spec_bytes().len() != 1 ==> parsed == Err::<u8, DelimiterError>(
            DelimiterError::NotASingleByte,
        ),
{
    if delimiter.len() == 1 {
        Ok(delimiter.as_bytes()[0])
    } else {
        Err(DelimiterError::NotASingleByte)
    }
}

} // verus!
