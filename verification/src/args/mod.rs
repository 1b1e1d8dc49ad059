//! Reading the argument list and expanding the command template.

pub mod delimiter;

use crate::args::delimiter::buffer_bytes;
use crate::args::delimiter::tokens;
use crate::args::delimiter::DelimiterCodec;
use crate::args::delimiter::frame_slice;
use crate::options::Options;
use crate::strings::decode_lossy;
use crate::strings::lossy_text;
use bytes::BytesMut;
use vstd::utf8::decode_utf8;
use vstd::utf8::valid_utf8;
use vstd::prelude::*;

verus! {

/// One command line: the arguments of the command, and the token they were made for.
pub struct Args {
    pub all: Vec<String>,
    pub specific: String,
}

/// The texts of a list of strings.
pub open spec fn texts(list: Seq<String>) -> Seq<Seq<char>> {
    list.map_values(|s: String| s@)
}

/// The texts of a list of lists of strings.
pub open spec fn segment_texts(parts: Seq<Vec<String>>) -> Seq<Seq<Seq<char>>> {
    parts.map_values(|p: Vec<String>| texts(p@))
}

/// Whether an initial argument is the placeholder; without a configured one it is `{}`.
pub open spec fn is_placeholder(part: Seq<char>, replace: Option<Seq<char>>) -> bool {
    match replace {
        Some(r) => part == r,
        None => part == "{}"@,
    }
}

/// How many of the arguments are the placeholder.
pub open spec fn placeholders(args: Seq<Seq<char>>, replace: Option<Seq<char>>) -> nat
    decreases args.len(),
{
    if args.len() == 0 {
        0
    } else {
        placeholders(args.drop_last(), replace) + if is_placeholder(args.last(), replace) {
            1nat
        } else {
            0nat
        }
    }
}

/// The template of a command: its arguments cut at every placeholder. The runs
/// between placeholders are kept, empty ones too, so there is one more than there are
/// placeholders.
pub open spec fn segments(args: Seq<Seq<char>>, replace: Option<Seq<char>>) -> Seq<
    Seq<Seq<char>>,
>
    decreases args.len(),
{
    if args.len() == 0 {
        seq![Seq::empty()]
    } else {
        let before = segments(args.drop_last(), replace);
        if is_placeholder(args.last(), replace) {
            before.push(Seq::empty())
        } else {
            before.drop_last().push(before.last().push(args.last()))
        }
    }
}

/// The segments one after the other, with the token between each two.
pub open spec fn interleave(parts: Seq<Seq<Seq<char>>>, token: Seq<char>) -> Seq<Seq<char>>
    decreases parts.len(),
{
    if parts.len() == 0 {
        Seq::empty()
    } else if parts.len() == 1 {
        parts[0]
    } else {
        interleave(parts.drop_last(), token).push(token) + parts.last()
    }
}

/// The arguments of one command line: a template of one segment gets the token
/// appended, any other has its segments interleaved with the token.
pub open spec fn expand(parts: Seq<Seq<Seq<char>>>, token: Seq<char>) -> Seq<Seq<char>> {
    if parts.len() == 1 {
        parts[0].push(token)
    } else {
        interleave(parts, token)
    }
}

/// The arguments with the token in the place of every placeholder.
pub open spec fn substitute(
    args: Seq<Seq<char>>,
    replace: Option<Seq<char>>,
    token: Seq<char>,
) -> Seq<Seq<char>> {
    args.map_values(
        |a: Seq<char>|
            if is_placeholder(a, replace) {
                token
            } else {
                a
            },
    )
}

/// A template has one segment more than it has placeholders.
pub proof fn lemma_segments_count(args: Seq<Seq<char>>, replace: Option<Seq<char>>)
    ensures
        segments(args, replace).len() == placeholders(args, replace) + 1,
    decreases args.len(),
{
    if args.len() > 0 {
        lemma_segments_count(args.drop_last(), replace);
    }
}

/// Interleaving the segments of a template with a token puts the token in the place of
/// every placeholder.
pub proof fn lemma_interleave_substitutes(
    args: Seq<Seq<char>>,
    replace: Option<Seq<char>>,
    token: Seq<char>,
)
    ensures
        interleave(segments(args, replace), token) == substitute(args, replace, token),
    decreases args.len(),
{
    if args.len() == 0 {
        assert(substitute(args, replace, token) =~= Seq::<Seq<char>>::empty());
    } else {
        let init = args.drop_last();
        let before = segments(init, replace);
        lemma_interleave_substitutes(init, replace, token);
        lemma_segments_count(init, replace);
        let whole = segments(args, replace);
        if is_placeholder(args.last(), replace) {
            assert(whole.drop_last() =~= before);
            assert(interleave(whole, token) =~= interleave(before, token).push(token));
        } else if before.len() == 1 {
            assert(whole[0] == before[0].push(args.last()));
        } else {
            assert(whole.drop_last() =~= before.drop_last());
            assert(interleave(whole, token) =~= interleave(before, token).push(args.last()));
        }
        assert(substitute(args, replace, token) =~= substitute(init, replace, token).push(
            if is_placeholder(args.last(), replace) {
                token
            } else {
                args.last()
            },
        ));
    }
}

/// A template without a placeholder is one segment: the arguments themselves.
pub proof fn lemma_segments_without_placeholder(args: Seq<Seq<char>>, replace: Option<Seq<char>>)
    requires
        placeholders(args, replace) == 0,
    ensures
        segments(args, replace) == seq![args],
    decreases args.len(),
{
    if args.len() == 0 {
        assert(args =~= Seq::<Seq<char>>::empty());
    } else {
        lemma_segments_without_placeholder(args.drop_last(), replace);
        assert(args.drop_last().push(args.last()) =~= args);
        assert(segments(args, replace) =~= seq![args]);
    }
}

/// Expanding a template without a placeholder appends the token; expanding one with a
/// placeholder puts the token in the place of each.
pub proof fn lemma_expand(args: Seq<Seq<char>>, replace: Option<Seq<char>>, token: Seq<char>)
    ensures
        placeholders(args, replace) == 0 ==> expand(segments(args, replace), token) == args.push(
            token,
        ),
        placeholders(args, replace) >= 1 ==> expand(segments(args, replace), token) == substitute(
            args,
            replace,
            token,
        ),
{
    lemma_segments_count(args, replace);
    if placeholders(args, replace) == 0 {
        lemma_segments_without_placeholder(args, replace);
    } else {
        lemma_interleave_substitutes(args, replace, token);
    }
}


/// The view of an optional placeholder.
pub open spec fn replace_text(replace: Option<String>) -> Option<Seq<char>> {
    match replace {
        Some(r) => Some(r@),
        None => None,
    }
}

/// The delimiter in force: the null byte when `null` is set, else the configured one,
/// else none, which stands for whitespace.
pub fn parse_delimiter(null: bool, delimiter: Option<u8>) -> (parsed: Option<u8>)
    ensures
        parsed == if null {
            Some(0u8)
        } else {
            delimiter
        },
{
    if null {
        Some(0)
    } else if let Some(d) = delimiter {
        Some(d)
    } else {
        None
    }
}

fn part_is_placeholder(part: &String, replace: &Option<String>) -> (r: bool)
    ensures
        r == is_placeholder(part@, replace_text(*replace)),
{
    match replace {
        Some(s) => *part == *s,
        None => {
            let braces = "{}".to_owned();
            *part == braces
        },
    }
}

/// Appends copies of the strings of `src` to `dst`.
fn extend_with_copies(dst: &mut Vec<String>, src: &Vec<String>)
    ensures
        texts(final(dst)@) == texts(old(dst)@) + texts(src@),
{
    let mut i: usize = 0;
    while i < src.len()
        invariant
            i <= src@.len(),
            texts(dst@) == texts(old(dst)@) + texts(src@.subrange(0, i as int)),
        decreases src@.len() - i,
    {
        let ghost before = dst@;
        dst.push(src[i].clone());
        proof {
            assert(texts(dst@) =~= texts(before).push(src@[i as int]@));
            assert(texts(src@.subrange(0, i + 1)) =~= texts(src@.subrange(0, i as int)).push(
                src@[i as int]@,
            ));
            assert(texts(dst@) =~= texts(old(dst)@) + texts(src@.subrange(0, i + 1)));
        }
        i += 1;
    }
    proof {
        assert(src@.subrange(0, src@.len() as int) =~= src@);
        assert(texts(old(dst)@) + texts(src@.subrange(0, 0)) =~= texts(old(dst)@));
    }
}

/// Cuts the initial arguments at every placeholder.
pub fn parse_arg_template(initial_args: &[String], replace: &Option<String>) -> (parts: Vec<
    Vec<String>,
>)
    ensures
        segment_texts(parts@) == segments(texts(initial_args@), replace_text(*replace)),
        parts@.len() >= 1,
{
    let ghost r = replace_text(*replace);
    let mut parts: Vec<Vec<String>> = Vec::new();
    let mut current: Vec<String> = Vec::new();
    let mut i: usize = 0;
    proof {
        assert(texts(initial_args@.subrange(0, 0)) =~= Seq::<Seq<char>>::empty());
        assert(texts(current@) =~= Seq::<Seq<char>>::empty());
        assert(segment_texts(parts@).push(texts(current@)) =~= seq![Seq::<Seq<char>>::empty()]);
    }
    while i < initial_args.len()
        invariant
            i <= initial_args@.len(),
            r == replace_text(*replace),
            segment_texts(parts@).push(texts(current@)) == segments(
                texts(initial_args@.subrange(0, i as int)),
                r,
            ),
        decreases initial_args@.len() - i,
    {
        let ghost done = texts(initial_args@.subrange(0, i as int));
        let ghost next = texts(initial_args@.subrange(0, i + 1));
        let ghost before = segment_texts(parts@).push(texts(current@));
        proof {
            assert(next.drop_last() =~= done);
            assert(next.last() == initial_args@[i as int]@);
        }
        if part_is_placeholder(&initial_args[i], replace) {
            parts.push(current);
            current = Vec::new();
            proof {
                assert(texts(current@) =~= Seq::<Seq<char>>::empty());
                assert(segment_texts(parts@) =~= before);
            }
        } else {
            let ghost old_current = texts(current@);
            current.push(initial_args[i].clone());
            proof {
                assert(texts(current@) =~= old_current.push(initial_args@[i as int]@));
                assert(before.drop_last() =~= segment_texts(parts@));
                assert(before.last() == old_current);
            }
        }
        i += 1;
    }
    proof {
        assert(initial_args@.subrange(0, initial_args@.len() as int) =~= initial_args@);
    }
    let ghost before = segment_texts(parts@);
    parts.push(current);
    proof {
        assert(segment_texts(parts@) =~= before.push(texts(current@)));
    }
    parts
}

/// Makes the command line for one token from the template's segments.
pub fn generate_final_args(arg: String, command_parts: &[Vec<String>]) -> (args: Args)
    ensures
        args.specific@ == arg@,
        texts(args.all@) == expand(segment_texts(command_parts@), arg@),
{
    let specific = arg.clone();
    let ghost parts = segment_texts(command_parts@);
    if command_parts.len() == 1 {
        let mut all: Vec<String> = Vec::new();
        extend_with_copies(&mut all, &command_parts[0]);
        let ghost copied = all@;
        all.push(arg);
        proof {
            assert(texts(Seq::<String>::empty()) + texts(command_parts@[0]@) =~= parts[0]);
            assert(texts(all@) =~= texts(copied).push(arg@));
        }
        Args { all, specific }
    } else {
        let mut all: Vec<String> = Vec::new();
        let mut i: usize = 0;
        proof {
            assert(parts.subrange(0, 0) =~= Seq::<Seq<Seq<char>>>::empty());
            assert(texts(all@) =~= Seq::<Seq<char>>::empty());
        }
        while i < command_parts.len()
            invariant
                i <= command_parts@.len(),
                parts == segment_texts(command_parts@),
                texts(all@) == interleave(parts.subrange(0, i as int), arg@),
            decreases command_parts@.len() - i,
        {
            let ghost done = parts.subrange(0, i as int);
            let ghost next = parts.subrange(0, i + 1);
            proof {
                assert(next.drop_last() =~= done);
                assert(next.last() == texts(command_parts@[i as int]@));
            }
            if i > 0 {
                let ghost before = all@;
                all.push(arg.clone());
                proof {
                    assert(texts(all@) =~= texts(before).push(arg@));
                }
            } else {
                proof {
                    assert(texts(all@) + next[0] =~= next[0]);
                }
            }
            extend_with_copies(&mut all, &command_parts[i]);
            i += 1;
        }
        proof {
            assert(parts.subrange(0, parts.len() as int) =~= parts);
        }
        Args { all, specific }
    }
}

impl Args {
    /// Whether this is the command line that the template makes for the `k`-th token
    /// of the input: the token's text is the token decoded with invalid UTF-8
    /// replaced, which for a token of valid UTF-8 is the text that it encodes.
    pub open spec fn is_for_token(
        &self,
        input: Seq<u8>,
        options: &Options,
        k: int,
    ) -> bool {
        let delimiter = if options.null {
            Some(0u8)
        } else {
            options.delimiter
        };
        let bytes = tokens(input, delimiter)[k];
        let token = lossy_text(bytes);
        &&& self.specific@ == token
        &&& valid_utf8(bytes) ==> self.specific@ == decode_utf8(bytes)
        &&& texts(self.all@) == expand(
            segments(texts(options.initial_args@), replace_text(options.replace)),
            token,
        )
    }
}

/// Reads the whole argument list: every token of the input, decoded as text with
/// invalid UTF-8 replaced, gives one command line, in the order of the input.
pub fn read(options: &Options, input: BytesMut) -> (all_args: Vec<Args>)
    ensures
        all_args@.len() == tokens(
            buffer_bytes(input),
            if options.null {
                Some(0u8)
            } else {
                options.delimiter
            },
        ).len(),
        forall|k: int|
            0 <= k < all_args@.len() ==> (#[trigger] all_args@[k]).is_for_token(
                buffer_bytes(input),
                options,
                k,
            ),
{
    let delimiter = parse_delimiter(options.null, options.delimiter);
    let arg_template = parse_arg_template(options.initial_args.as_slice(), &options.replace);
    let mut codec = DelimiterCodec::new(delimiter);
    let mut buf = input;
    let mut all_args: Vec<Args> = Vec::new();
    let ghost whole = tokens(buffer_bytes(input), delimiter);
    proof {
        assert(buffer_bytes(buf).subrange(0, 0) =~= Seq::<u8>::empty());
        assert(whole.skip(0) =~= whole);
    }
    loop
        invariant
            codec.delimiter() == delimiter,
            codec.fits(buffer_bytes(buf)),
            delimiter == (if options.null {
                Some(0u8)
            } else {
                options.delimiter
            }),
            whole == tokens(buffer_bytes(input), delimiter),
            segment_texts(arg_template@) == segments(
                texts(options.initial_args@),
                replace_text(options.replace),
            ),
            all_args@.len() <= whole.len(),
            tokens(buffer_bytes(buf), delimiter) == whole.skip(all_args@.len() as int),
            forall|k: int|
                0 <= k < all_args@.len() ==> (#[trigger] all_args@[k]).is_for_token(
                    buffer_bytes(input),
                    options,
                    k,
                ),
        ensures
            all_args@.len() == whole.len(),
        decreases whole.len() - all_args@.len(),
    {
        match codec.decode_eof(&mut buf) {
            Some(frame) => {
                let text = decode_lossy(frame_slice(&frame));
                let args = generate_final_args(text, arg_template.as_slice());
                proof {
                    let n = all_args@.len() as int;
                    assert(whole.skip(n)[0] == whole[n]);
                    assert(whole.skip(n).skip(1) =~= whole.skip(n + 1));
                }
                all_args.push(args);
            },
            None => {
                break ;
            },
        }
    }
    all_args
}

} // verus!
