//! A framer that cuts a byte stream into non-empty tokens at a delimiter byte, or at
//! any ASCII whitespace byte when no delimiter is configured.

use bytes::Bytes;
use bytes::BytesMut;
use vstd::prelude::*;
use vstd::slice::slice_subrange;

verus! {

/// `bytes::BytesMut`, the buffer that incoming bytes are collected in.
#[verifier::external_type_specification]
#[verifier::external_body]
pub struct ExBytesMut(bytes::BytesMut);

/// `bytes::Bytes`, an immutable run of bytes cut out of a buffer.
#[verifier::external_type_specification]
#[verifier::external_body]
pub struct ExBytes(bytes::Bytes);

/// The bytes that a buffer holds, front first.
pub uninterp spec fn buffer_bytes(buf: BytesMut) -> Seq<u8>;

/// The bytes that a frame holds, front first.
pub uninterp spec fn frame_bytes(frame: Bytes) -> Seq<u8>;

/// `BytesMut::len` returns the number of bytes held.
pub assume_specification[ bytes::BytesMut::len ](buf: &BytesMut) -> (n: usize)
    ensures
        n == buffer_bytes(*buf).len(),
;

/// `BytesMut::is_empty` tells whether no byte is held.
pub assume_specification[ bytes::BytesMut::is_empty ](buf: &BytesMut) -> (b: bool)
    ensures
        b == (buffer_bytes(*buf).len() == 0),
;

/// `BytesMut::split_to` returns the first `at` bytes and leaves the rest in the buffer.
/// It panics when `at` exceeds the length, which the precondition rules out.
pub assume_specification[ bytes::BytesMut::split_to ](buf: &mut BytesMut, at: usize) -> (front:
    BytesMut)
    requires
        at <= buffer_bytes(*old(buf)).len(),
    ensures
        buffer_bytes(front) == buffer_bytes(*old(buf)).subrange(0, at as int),
        buffer_bytes(*final(buf)) == buffer_bytes(*old(buf)).subrange(
            at as int,
            buffer_bytes(*old(buf)).len() as int,
        ),
;

/// `BytesMut::take` returns everything held and leaves the buffer empty.
pub assume_specification[ bytes::BytesMut::take ](buf: &mut BytesMut) -> (all: BytesMut)
    ensures
        buffer_bytes(all) == buffer_bytes(*old(buf)),
        buffer_bytes(*final(buf)) == Seq::<u8>::empty(),
;

/// `BytesMut::freeze` turns the buffer into a frame with the same bytes.
pub assume_specification[ bytes::BytesMut::freeze ](buf: BytesMut) -> (frame: Bytes)
    ensures
        frame_bytes(frame) == buffer_bytes(buf),
;

/// `Bytes::len` returns the number of bytes held.
pub assume_specification[ bytes::Bytes::len ](frame: &Bytes) -> (n: usize)
    ensures
        n == frame_bytes(*frame).len(),
;

/// `Bytes::is_empty` tells whether no byte is held.
pub assume_specification[ bytes::Bytes::is_empty ](frame: &Bytes) -> (b: bool)
    ensures
        b == (frame_bytes(*frame).len() == 0),
;

/// `Bytes::slice_to` returns the first `end` bytes. It panics when `end` exceeds the
/// length, which the precondition rules out.
pub assume_specification[ bytes::Bytes::slice_to ](frame: &Bytes, end: usize) -> (head: Bytes)
    requires
        end <= frame_bytes(*frame).len(),
    ensures
        frame_bytes(head) == frame_bytes(*frame).subrange(0, end as int),
;

/// `memchr::memchr` returns the index of the first occurrence of `needle` in
/// `haystack`, or `None` when it does not occur.
pub assume_specification[ memchr::memchr ](needle: u8, haystack: &[u8]) -> (found: Option<usize>)
    ensures
        match found {
            Some(i) => i < haystack@.len() && haystack@[i as int] == needle && forall|j: int|
                0 <= j < i ==> haystack@[j] != needle,
            None => forall|j: int| 0 <= j < haystack@.len() ==> haystack@[j] != needle,
        },
;

/// Borrows the bytes of a buffer as a slice, through `BytesMut`'s `Deref`.
#[verifier::external_body]
fn as_slice(buf: &BytesMut) -> (bytes: &[u8])
    ensures
        bytes@ == buffer_bytes(*buf),
{
    &buf[..]
}

/// Borrows the bytes of a frame as a slice, through `Bytes`'s `Deref`.
#[verifier::external_body]
pub(crate) fn frame_slice(frame: &Bytes) -> (bytes: &[u8])
    ensures
        bytes@ == frame_bytes(*frame),
{
    &frame[..]
}

/// The bytes that `u8::is_ascii_whitespace` accepts: space, tab, line feed, form feed
/// and carriage return.
pub open spec fn is_ascii_whitespace(b: u8) -> bool {
    b == 0x20 || b == 0x09 || b == 0x0a || b == 0x0c || b == 0x0d
}

/// Whether `b` separates tokens under the given configuration.
pub open spec fn is_delimiter(b: u8, delimiter: Option<u8>) -> bool {
    match delimiter {
        Some(d) => b == d,
        None => is_ascii_whitespace(b),
    }
}

/// No byte of `s` is a delimiter.
pub open spec fn delimiter_free(s: Seq<u8>, delimiter: Option<u8>) -> bool {
    forall|i: int| 0 <= i < s.len() ==> !is_delimiter(#[trigger] s[i], delimiter)
}

/// The index of the first delimiter at or after `from`, or the length when there is none.
pub open spec fn first_delimiter(s: Seq<u8>, delimiter: Option<u8>, from: int) -> int
    decreases s.len() - from,
{
    if from >= s.len() {
        s.len() as int
    } else if from >= 0 && is_delimiter(s[from], delimiter) {
        from
    } else {
        first_delimiter(s, delimiter, from + 1)
    }
}

/// The index of the first byte at or after `from` that is no delimiter, or the length.
pub open spec fn first_content(s: Seq<u8>, delimiter: Option<u8>, from: int) -> int
    decreases s.len() - from,
{
    if from >= s.len() {
        s.len() as int
    } else if from >= 0 && !is_delimiter(s[from], delimiter) {
        from
    } else {
        first_content(s, delimiter, from + 1)
    }
}

/// The tokens of a complete input: its maximal non-empty runs of bytes that are no
/// delimiters, in order.
pub open spec fn tokens(s: Seq<u8>, delimiter: Option<u8>) -> Seq<Seq<u8>>
    decreases s.len(),
{
    let hit = first_delimiter(s, delimiter, 0);
    if s.len() == 0 {
        Seq::empty()
    } else if 0 <= hit < s.len() {
        let rest = tokens(s.subrange(hit + 1, s.len() as int), delimiter);
        if hit == 0 {
            rest
        } else {
            seq![s.subrange(0, hit)] + rest
        }
    } else {
        seq![s]
    }
}

/// The input with every delimiter byte removed.
pub open spec fn without_delimiters(s: Seq<u8>, delimiter: Option<u8>) -> Seq<u8> {
    s.filter(|b: u8| !is_delimiter(b, delimiter))
}

pub proof fn lemma_first_delimiter(s: Seq<u8>, delimiter: Option<u8>, from: int)
    requires
        0 <= from <= s.len(),
    ensures
        from <= first_delimiter(s, delimiter, from) <= s.len(),
        first_delimiter(s, delimiter, from) < s.len() ==> is_delimiter(
            s[first_delimiter(s, delimiter, from)],
            delimiter,
        ),
        forall|i: int|
            from <= i < first_delimiter(s, delimiter, from) ==> !is_delimiter(
                #[trigger] s[i],
                delimiter,
            ),
    decreases s.len() - from,
{
    if from < s.len() && !is_delimiter(s[from], delimiter) {
        lemma_first_delimiter(s, delimiter, from + 1);
    }
}

/// A delimiter at `at`, with none in `[from, at)`, is the first one from `from` on.
pub proof fn lemma_first_delimiter_is(s: Seq<u8>, delimiter: Option<u8>, from: int, at: int)
    requires
        0 <= from <= at <= s.len(),
        at < s.len() ==> is_delimiter(s[at], delimiter),
        forall|i: int| from <= i < at ==> !is_delimiter(#[trigger] s[i], delimiter),
    ensures
        first_delimiter(s, delimiter, from) == at,
    decreases at - from,
{
    if from < at {
        lemma_first_delimiter_is(s, delimiter, from + 1, at);
    }
}

pub proof fn lemma_first_content(s: Seq<u8>, delimiter: Option<u8>, from: int)
    requires
        0 <= from <= s.len(),
    ensures
        from <= first_content(s, delimiter, from) <= s.len(),
        first_content(s, delimiter, from) < s.len() ==> !is_delimiter(
            s[first_content(s, delimiter, from)],
            delimiter,
        ),
        forall|i: int|
            from <= i < first_content(s, delimiter, from) ==> is_delimiter(
                #[trigger] s[i],
                delimiter,
            ),
    decreases s.len() - from,
{
    if from < s.len() && is_delimiter(s[from], delimiter) {
        lemma_first_content(s, delimiter, from + 1);
    }
}


/// Cutting the first token and its delimiter off the front leaves the other tokens.
pub proof fn lemma_tokens_step(s: Seq<u8>, delimiter: Option<u8>)
    requires
        s.len() > 0,
    ensures
        ({
            let hit = first_delimiter(s, delimiter, 0);
            let rest = s.subrange(hit + 1, s.len() as int);
            &&& hit == s.len() ==> tokens(s, delimiter) == seq![s]
            &&& hit == 0 ==> tokens(s, delimiter) == tokens(rest, delimiter)
            &&& 0 < hit < s.len() ==> tokens(s, delimiter) == seq![s.subrange(0, hit)] + tokens(
                rest,
                delimiter,
            )
        }),
{
    lemma_first_delimiter(s, delimiter, 0);
}

/// Every token is non-empty and holds no delimiter byte.
pub proof fn lemma_tokens_are_clean(s: Seq<u8>, delimiter: Option<u8>)
    ensures
        forall|k: int|
            0 <= k < tokens(s, delimiter).len() ==> {
                &&& (#[trigger] tokens(s, delimiter)[k]).len() > 0
                &&& delimiter_free(tokens(s, delimiter)[k], delimiter)
            },
    decreases s.len(),
{
    if s.len() > 0 {
        lemma_first_delimiter(s, delimiter, 0);
        lemma_tokens_step(s, delimiter);
        let hit = first_delimiter(s, delimiter, 0);
        let all = tokens(s, delimiter);
        if hit < s.len() {
            let rest = tokens(s.subrange(hit + 1, s.len() as int), delimiter);
            lemma_tokens_are_clean(s.subrange(hit + 1, s.len() as int), delimiter);
            assert forall|k: int| 0 <= k < all.len() implies (#[trigger] all[k]).len() > 0
                && delimiter_free(all[k], delimiter) by {
                if hit > 0 {
                    if k > 0 {
                        assert(all[k] == rest[k - 1]);
                    } else {
                        assert(all[k] == s.subrange(0, hit));
                    }
                }
            }
        } else {
            assert(all[0] == s);
        }
    }
}

/// Filtering out the delimiters leaves a delimiter-free run as it is.
pub proof fn lemma_filter_keeps_clean_run(s: Seq<u8>, delimiter: Option<u8>)
    requires
        delimiter_free(s, delimiter),
    ensures
        without_delimiters(s, delimiter) == s,
    decreases s.len(),
{
    reveal(Seq::filter);
    if s.len() > 0 {
        lemma_filter_keeps_clean_run(s.drop_last(), delimiter);
        assert(!is_delimiter(s[s.len() - 1], delimiter));
        assert(s.drop_last().push(s.last()) =~= s);
    }
}

proof fn lemma_flatten_cons(head: Seq<u8>, tail: Seq<Seq<u8>>)
    ensures
        (seq![head] + tail).flatten() == head + tail.flatten(),
{
    let all = seq![head] + tail;
    assert(all.drop_first() =~= tail);
    assert(all.first() == head);
}

proof fn lemma_filter_at_delimiter(s: Seq<u8>, delimiter: Option<u8>, hit: int)
    requires
        0 <= hit < s.len(),
        is_delimiter(s[hit], delimiter),
        delimiter_free(s.subrange(0, hit), delimiter),
    ensures
        without_delimiters(s, delimiter) == s.subrange(0, hit) + without_delimiters(
            s.subrange(hit + 1, s.len() as int),
            delimiter,
        ),
{
    let pred = |b: u8| !is_delimiter(b, delimiter);
    let head = s.subrange(0, hit);
    let mid = seq![s[hit]];
    let rest = s.subrange(hit + 1, s.len() as int);
    lemma_filter_keeps_clean_run(head, delimiter);
    assert(mid.filter(pred) =~= Seq::<u8>::empty()) by {
        reveal(Seq::filter);
        let none = mid.drop_last();
        assert(none.len() == 0);
        assert(none.filter(pred) =~= Seq::<u8>::empty());
        assert(!pred(mid.last()));
    }
    assert(s =~= (head + mid) + rest);
    Seq::filter_distributes_over_add(head + mid, rest, pred);
    Seq::filter_distributes_over_add(head, mid, pred);
    assert(head + Seq::<u8>::empty() =~= head);
}

/// The tokenizer loses nothing but delimiters: the tokens, one after the other, are the
/// input with its delimiter bytes removed.
pub proof fn lemma_tokens_lossless(s: Seq<u8>, delimiter: Option<u8>)
    ensures
        tokens(s, delimiter).flatten() == without_delimiters(s, delimiter),
    decreases s.len(),
{
    if s.len() == 0 {
        lemma_filter_keeps_clean_run(s, delimiter);
        assert(tokens(s, delimiter).flatten() =~= Seq::<u8>::empty());
    } else {
        lemma_first_delimiter(s, delimiter, 0);
        lemma_tokens_step(s, delimiter);
        let hit = first_delimiter(s, delimiter, 0);
        let head = s.subrange(0, hit);
        if hit < s.len() {
            let rest = s.subrange(hit + 1, s.len() as int);
            lemma_tokens_lossless(rest, delimiter);
            lemma_filter_at_delimiter(s, delimiter, hit);
            if hit == 0 {
                assert(head + without_delimiters(rest, delimiter) =~= without_delimiters(
                    rest,
                    delimiter,
                ));
            } else {
                lemma_flatten_cons(head, tokens(rest, delimiter));
            }
        } else {
            assert(head =~= s);
            lemma_filter_keeps_clean_run(s, delimiter);
            lemma_flatten_cons(s, Seq::empty());
            assert(seq![s] + Seq::<Seq<u8>>::empty() =~= seq![s]);
            assert(s + Seq::<u8>::empty() =~= s);
        }
    }
}

/// The framer: the configured delimiter and how far the current buffer has been
/// searched without finding one.
pub struct DelimiterCodec {
    delimiter: Option<u8>,
    next_index: usize,
}

/// Whether `b` is an ASCII whitespace byte.
pub fn byte_is_ascii_whitespace(b: u8) -> (r: bool)
    ensures
        r == is_ascii_whitespace(b),
{
    b == 0x20 || b == 0x09 || b == 0x0a || b == 0x0c || b == 0x0d
}

/// The offset of the first ASCII whitespace byte in `haystack`.
fn find_whitespace(haystack: &[u8]) -> (found: Option<usize>)
    ensures
        match found {
            Some(i) => i < haystack@.len() && is_ascii_whitespace(haystack@[i as int])
                && forall|j: int| 0 <= j < i ==> !is_ascii_whitespace(haystack@[j]),
            None => forall|j: int| 0 <= j < haystack@.len() ==> !is_ascii_whitespace(haystack@[j]),
        },
{
    let mut i: usize = 0;
    while i < haystack.len()
        invariant
            i <= haystack@.len(),
            forall|j: int| 0 <= j < i ==> !is_ascii_whitespace(haystack@[j]),
        decreases haystack@.len() - i,
    {
        if byte_is_ascii_whitespace(haystack[i]) {
            return Some(i);
        }
        i += 1;
    }
    None
}

impl DelimiterCodec {
    /// The configured delimiter; `None` stands for any ASCII whitespace byte.
    pub closed spec fn delimiter(&self) -> Option<u8> {
        self.delimiter
    }

    /// How many bytes at the front of the buffer are known to hold no delimiter.
    pub closed spec fn next_index(&self) -> nat {
        self.next_index as nat
    }

    /// The framer fits the buffer: the bytes it has passed over are in the buffer and
    /// none of them is a delimiter.
    pub open spec fn fits(&self, buf: Seq<u8>) -> bool {
        &&& self.next_index() <= buf.len()
        &&& delimiter_free(buf.subrange(0, self.next_index() as int), self.delimiter())
    }

    pub fn new(delimiter: Option<u8>) -> (codec: Self)
        ensures
            codec.delimiter() == delimiter,
            codec.next_index() == 0,
    {
        let next_index: usize = 0;
        Self { delimiter, next_index }
    }

    /// How many bytes at the front of the buffer have been searched.
    pub fn searched(&self) -> (n: usize)
        ensures
            n == self.next_index(),
    {
        self.next_index
    }

    /// Looks for the first delimiter. When there is one, the bytes before it and the
    /// delimiter leave the buffer, and the bytes before it are returned unless there are
    /// none. When there is none, the buffer stays as it is and is remembered as searched.
    pub fn decode(&mut self, src: &mut BytesMut) -> (frame: Option<Bytes>)
        requires
            old(self).fits(buffer_bytes(*old(src))),
        ensures
            final(self).delimiter() == old(self).delimiter(),
            final(self).fits(buffer_bytes(*final(src))),
            ({
                let s = buffer_bytes(*old(src));
                let hit = first_delimiter(s, old(self).delimiter(), 0);
                if hit < s.len() {
                    &&& buffer_bytes(*final(src)) == s.subrange(hit + 1, s.len() as int)
                    &&& final(self).next_index() == 0
                    &&& hit == 0 ==> frame is None
                    &&& hit > 0 ==> frame is Some && frame_bytes(frame.unwrap()) == s.subrange(
                        0,
                        hit,
                    )
                } else {
                    &&& buffer_bytes(*final(src)) == s
                    &&& final(self).next_index() == s.len()
                    &&& frame is None
                }
            }),
            frame matches Some(f) ==> frame_bytes(f).len() > 0 && delimiter_free(
                frame_bytes(f),
                old(self).delimiter(),
            ),
    {
        let ghost s = buffer_bytes(*src);
        let ghost from = self.next_index as int;
        let len = src.len();
        let tail = slice_subrange(as_slice(src), self.next_index, len);
        let offset = match self.delimiter {
            Some(d) => memchr::memchr(d, tail),
            None => find_whitespace(tail),
        };
        proof {
            lemma_first_delimiter(s, self.delimiter, 0);
        }
        if let Some(offset) = offset {
            let delimiter_index = offset + self.next_index;
            proof {
                assert forall|i: int| 0 <= i < delimiter_index implies !is_delimiter(
                    #[trigger] s[i],
                    self.delimiter,
                ) by {
                    if i < from {
                        assert(s.subrange(0, from)[i] == s[i]);
                    } else {
                        assert(tail@[i - from] == s[i]);
                    }
                }
                assert(tail@[offset as int] == s[delimiter_index as int]);
                lemma_first_delimiter_is(s, self.delimiter, 0, delimiter_index as int);
            }
            self.next_index = 0;
            let bytes = src.split_to(delimiter_index + 1).freeze();
            let bytes = bytes.slice_to(bytes.len() - 1);
            proof {
                assert(frame_bytes(bytes) =~= s.subrange(0, delimiter_index as int));
                assert(buffer_bytes(*src).subrange(0, 0) =~= Seq::<u8>::empty());
            }
            if bytes.is_empty() {
                None
            } else {
                Some(bytes)
            }
        } else {
            proof {
                assert forall|i: int| 0 <= i < s.len() implies !is_delimiter(
                    #[trigger] s[i],
                    self.delimiter,
                ) by {
                    if i < from {
                        assert(s.subrange(0, from)[i] == s[i]);
                    } else {
                        assert(tail@[i - from] == s[i]);
                    }
                }
                lemma_first_delimiter_is(s, self.delimiter, 0, s.len() as int);
                assert(s.subrange(0, s.len() as int) =~= s);
            }
            self.next_index = len;
            None
        }
    }

    /// At the end of the input: skips delimiters at the front, then returns the bytes up
    /// to the next delimiter, or all that is left when there is none. Returns `None`
    /// only when nothing but delimiters was left; the buffer is empty then.
    pub fn decode_eof(&mut self, buf: &mut BytesMut) -> (frame: Option<Bytes>)
        requires
            old(self).fits(buffer_bytes(*old(buf))),
        ensures
            final(self).delimiter() == old(self).delimiter(),
            final(self).next_index() == 0,
            ({
                let d = old(self).delimiter();
                let s = buffer_bytes(*old(buf));
                let start = first_content(s, d, 0);
                let end = first_delimiter(s, d, start);
                if start == s.len() {
                    &&& frame is None
                    &&& buffer_bytes(*final(buf)) == Seq::<u8>::empty()
                } else {
                    &&& frame is Some
                    &&& frame_bytes(frame.unwrap()) == s.subrange(start, end)
                    &&& buffer_bytes(*final(buf)) == if end < s.len() {
                        s.subrange(end + 1, s.len() as int)
                    } else {
                        Seq::<u8>::empty()
                    }
                }
            }),
            frame is Some <==> tokens(buffer_bytes(*old(buf)), old(self).delimiter()).len() > 0,
            frame matches Some(f) ==> {
                &&& frame_bytes(f).len() > 0
                &&& delimiter_free(frame_bytes(f), old(self).delimiter())
                &&& frame_bytes(f) == tokens(buffer_bytes(*old(buf)), old(self).delimiter())[0]
                &&& tokens(buffer_bytes(*final(buf)), old(self).delimiter()) == tokens(
                    buffer_bytes(*old(buf)),
                    old(self).delimiter(),
                ).skip(1)
            },
    {
        let ghost d = self.delimiter;
        let ghost s = buffer_bytes(*buf);
        let ghost start = first_content(s, d, 0);
        let ghost end = first_delimiter(s, d, start);
        let ghost mut skipped: int = 0;
        proof {
            lemma_tokens_are_clean(s, d);
            lemma_first_content(s, d, 0);
            lemma_first_delimiter(s, d, start);
            assert(s.subrange(0, s.len() as int) =~= s);
        }
        loop
            invariant
                d == old(self).delimiter(),
                s == buffer_bytes(*old(buf)),
                self.delimiter == d,
                0 <= skipped <= start <= s.len(),
                buffer_bytes(*buf) == s.subrange(skipped, s.len() as int),
                self.fits(buffer_bytes(*buf)),
                start == first_content(s, d, 0),
                end == first_delimiter(s, d, start),
                start <= end <= s.len(),
                forall|i: int| 0 <= i < start ==> is_delimiter(#[trigger] s[i], d),
                forall|i: int| start <= i < end ==> !is_delimiter(#[trigger] s[i], d),
                end < s.len() ==> is_delimiter(s[end as int], d),
                start < s.len() ==> !is_delimiter(s[start], d),
                tokens(buffer_bytes(*buf), d) == tokens(s, d),
            ensures
                self.next_index == buffer_bytes(*buf).len(),
            decreases s.len() - skipped,
        {
            let ghost before = buffer_bytes(*buf);
            proof {
                lemma_first_delimiter(before, d, 0);
            }
            let found = self.decode(buf);
            let ghost hit = first_delimiter(before, d, 0);
            match found {
                Some(frame) => {
                    proof {
                        // The frame starts at the first content byte.
                        if skipped < start {
                            assert(before[0] == s[skipped]);
                            lemma_first_delimiter_is(before, d, 0, 0);
                        }
                        assert(skipped == start);
                        assert(forall|i: int| 0 <= i < hit ==> before[i] == s[start + i]);
                        assert(before[hit] == s[start + hit]);
                        if start + hit > end {
                            assert(before[end - start] == s[end as int]);
                        }
                        assert(start + hit == end);
                        assert(frame_bytes(frame) =~= s.subrange(start, end));
                        assert(buffer_bytes(*buf) =~= s.subrange(end + 1, s.len() as int));
                        lemma_tokens_step(before, d);
                        let rest = tokens(buffer_bytes(*buf), d);
                        assert((seq![before.subrange(0, hit)] + rest).skip(1) =~= rest);
                    }
                    return Some(frame);
                },
                None => {
                    proof {
                        if hit < before.len() {
                            // An empty token was dropped: one delimiter left the buffer.
                            assert(before[0] == s[skipped]);
                            assert(skipped < start);
                            assert(buffer_bytes(*buf) =~= s.subrange(
                                skipped + 1,
                                s.len() as int,
                            ));
                            lemma_tokens_step(before, d);
                            skipped = skipped + 1;
                        }
                    }
                    if self.next_index == buf.len() {
                        break ;
                    }
                },
            }
        }
        let ghost left = buffer_bytes(*buf);
        proof {
            lemma_first_delimiter(left, d, 0);
            // No delimiter is left, so nothing before the first content byte is either.
            if skipped < start {
                assert(left[0] == s[skipped]);
                assert(left.subrange(0, left.len() as int)[0] == left[0]);
            }
            assert(skipped == start || left.len() == 0);
            if left.len() > 0 {
                assert(forall|i: int| 0 <= i < left.len() ==> left[i] == s[start + i]);
                assert(forall|i: int|
                    0 <= i < left.len() ==> left.subrange(0, left.len() as int)[i] == left[i]);
                if end < s.len() {
                    assert(left[end - start] == s[end as int]);
                }
                assert(end == s.len());
                lemma_first_delimiter_is(left, d, 0, left.len() as int);
                lemma_tokens_step(left, d);
                assert(left =~= s.subrange(start, end));
            } else {
                assert(skipped == s.len());
                assert(start == s.len());
            }
        }
        if buf.is_empty() {
            self.next_index = 0;
            proof {
                assert(buffer_bytes(*buf) =~= Seq::<u8>::empty());
            }
            None
        } else {
            let bytes = buf.take().freeze();
            self.next_index = 0;
            proof {
                assert(seq![left].skip(1) =~= Seq::<Seq<u8>>::empty());
            }
            Some(bytes)
        }
    }
}

} // verus!
