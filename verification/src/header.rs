use vstd::prelude::*;
use vstd::utf8::encode_utf8;

use crate::msg::{LspMsgError, framed};
use crate::text::{
    char_digit, chars_of, decimal, digit_char, digits_value, parse_usize, parse_usize_spec, trim, trim_bounds, trim_end,
    trim_end_newlines, trim_end_newlines_len, trim_start,
};

verus! {

/// What reading one header line leads to.
#[derive(Debug, Clone, Copy, PartialEq, Eq, Structural)]
pub enum HeaderStep {
    /// Read the next header line.
    Continue,
    /// The header is over: read a payload of this many bytes.
    Payload(usize),
    /// The message cannot be read.
    Fail(LspMsgError),
}

/// The header field that carries the payload's length.
pub open spec fn content_length_field() -> Seq<char> {
    "Content-Length:"@
}

/// `s` begins with `p`.
pub open spec fn has_prefix(s: Seq<char>, p: Seq<char>) -> bool {
    s.len() >= p.len() && s.subrange(0, p.len() as int) == p
}

/// One header line, as `read_line` gives it (with its line ending; empty
/// at the end of the input), read with the content length `cl` found so
/// far: the new content length and what to do next. An empty line ends
/// the header and asks for the payload, which must not be empty; a
/// `Content-Length:` line sets the content length to its value; other
/// lines are skipped.
pub open spec fn header_step(cl: usize, line: Seq<char>) -> (usize, HeaderStep) {
    if line.len() == 0 {
        (cl, HeaderStep::Fail(LspMsgError::Eof))
    } else {
        let t = trim_end_newlines(line);
        if t.len() == 0 {
            if cl == 0 {
                (cl, HeaderStep::Fail(LspMsgError::ParsingFailed))
            } else {
                (cl, HeaderStep::Payload(cl))
            }
        } else if has_prefix(t, content_length_field()) {
            match parse_usize_spec(trim(t.subrange(content_length_field().len() as int, t.len() as int))) {
                Some(n) => (n, HeaderStep::Continue),
                None => (cl, HeaderStep::Fail(LspMsgError::ParsingFailed)),
            }
        } else {
            (cl, HeaderStep::Continue)
        }
    }
}

/// Reads the header of a message line by line.
pub struct HeaderParser {
    pub content_length: usize,
}

impl HeaderParser {
    /// A parser that has read no line yet.
    pub fn new() -> (r: Self)
        ensures
            r.content_length == 0,
    {
        HeaderParser { content_length: 0 }
    }

    /// Reads one header line (see `header_step`).
    pub fn feed_line(&mut self, line: &str) -> (r: HeaderStep)
        ensures
            (final(self).content_length, r) == header_step(old(self).content_length, line@),
    {
        let chars = chars_of(line);
        if chars.len() == 0 {
            return HeaderStep::Fail(LspMsgError::Eof);
        }
        let tlen = trim_end_newlines_len(&chars);
        let ghost t = chars@.subrange(0, tlen as int);
        if tlen == 0 {
            if self.content_length == 0 {
                return HeaderStep::Fail(LspMsgError::ParsingFailed);
            } else {
                return HeaderStep::Payload(self.content_length);
            }
        }
        let field = chars_of("Content-Length:");
        let flen = field.len();
        let mut matches = flen <= tlen;
        let mut i: usize = 0;
        while matches && i < flen
            invariant
                i <= flen == field@.len(),
                field@ == content_length_field(),
                tlen <= chars@.len(),
                t == chars@.subrange(0, tlen as int),
                matches ==> flen <= tlen && forall|j: int| 0 <= j < i ==> chars@[j] == field@[j],
                !matches ==> !has_prefix(t, content_length_field()),
            decreases flen - i,
        {
            if chars[i] != field[i] {
                matches = false;
                assert(t[i as int] != field@[i as int]);
                assert(t.subrange(0, flen as int)[i as int] != field@[i as int]);
            }
            i = i + 1;
        }
        if !matches {
            return HeaderStep::Continue;
        }
        assert(t.subrange(0, flen as int) =~= field@);
        let (lo, hi) = trim_bounds(&chars, flen, tlen);
        assert(chars@.subrange(flen as int, tlen as int) =~= t.subrange(flen as int, t.len() as int));
        match parse_usize(&chars, lo, hi) {
            Some(n) => {
                self.content_length = n;
                HeaderStep::Continue
            },
            None => HeaderStep::Fail(LspMsgError::ParsingFailed),
        }
    }
}

/// The first header line of a message whose payload has `n` bytes.
pub open spec fn length_line(n: nat) -> Seq<char> {
    "Content-Length: "@ + decimal(n) + "\r\n"@
}

proof fn lemma_digit_char(d: nat)
    requires
        d < 10,
    ensures
        char_digit(digit_char(d)) == Some(d),
        '0' <= digit_char(d) <= '9',
{
}

proof fn lemma_decimal_digits(n: nat)
    ensures
        decimal(n).len() > 0,
        forall|i: int| 0 <= i < decimal(n).len() ==> '0' <= #[trigger] decimal(n)[i] <= '9',
        digits_value(decimal(n)) == Some(n),
    decreases n,
{
    if n >= 10 {
        lemma_decimal_digits(n / 10);
        lemma_digit_char(n % 10);
        let d = decimal(n);
        assert(d.drop_last() =~= decimal(n / 10));
        assert(n == (n / 10) * 10 + n % 10) by (nonlinear_arith);
        assert(d.last() == digit_char(n % 10));
        assert(digits_value(d) == Some((n / 10) * 10 + n % 10));
        assert forall|i: int| 0 <= i < d.len() implies '0' <= #[trigger] d[i] <= '9' by {
            if i < d.len() - 1 {
                assert(d[i] == decimal(n / 10)[i]);
            }
        }
    } else {
        lemma_digit_char(n);
        let d = decimal(n);
        assert(d.drop_last() =~= Seq::<char>::empty());
        assert(digits_value(Seq::<char>::empty()) == Some(0nat));
        assert(d.last() == digit_char(n));
        assert(digits_value(d) == Some(0 * 10 + n));
    }
}

/// A framed message reads back through the header parser: whatever
/// content length it held before, the first header line sets it to the
/// payload's length in bytes, and the empty line that follows asks for a
/// payload of exactly that length.
pub proof fn lemma_frame_reads_back(payload: Seq<char>, cl: usize)
    requires
        0 < encode_utf8(payload).len() <= usize::MAX,
    ensures
        framed(payload) == length_line(encode_utf8(payload).len()) + "\r\n"@ + payload,
        header_step(cl, length_line(encode_utf8(payload).len())) == (
            encode_utf8(payload).len() as usize,
            HeaderStep::Continue,
        ),
        header_step(encode_utf8(payload).len() as usize, "\r\n"@) == (
            encode_utf8(payload).len() as usize,
            HeaderStep::Payload(encode_utf8(payload).len() as usize),
        ),
{
    let n = encode_utf8(payload).len();
    reveal_strlit("Content-Length: ");
    reveal_strlit("Content-Length:");
    reveal_strlit("\r\n");
    reveal_strlit("\r\n\r\n");
    lemma_decimal_digits(n);
    let d = decimal(n);
    assert(framed(payload) =~= length_line(n) + "\r\n"@ + payload);
    // The line ending goes, the digits stay.
    let line = length_line(n);
    let t = "Content-Length: "@ + d;
    assert(line.drop_last() =~= t + seq!['\r']);
    assert((t + seq!['\r']).drop_last() =~= t);
    assert(t.last() == d.last());
    assert(trim_end_newlines(t) == t);
    assert(trim_end_newlines(t + seq!['\r']) == t);
    assert(trim_end_newlines(line) == t);
    // The field name is a prefix; what follows is a space and the digits.
    assert(t.subrange(0, 15) =~= content_length_field());
    let rest = t.subrange(15, t.len() as int);
    assert(rest =~= seq![' '] + d);
    assert(rest.drop_first() =~= d);
    assert(trim_start(d) == d);
    assert(trim_start(rest) == d);
    assert(trim_end(d) == d);
    assert(trim(rest) == d);
    assert(parse_usize_spec(d) == Some(n as usize));
    // The empty line.
    let e = "\r\n"@;
    assert(e.drop_last() =~= seq!['\r']);
    assert(seq!['\r'].drop_last() =~= Seq::<char>::empty());
    assert(trim_end_newlines(Seq::<char>::empty()) == Seq::<char>::empty());
    assert(trim_end_newlines(seq!['\r']) == Seq::<char>::empty());
    assert(trim_end_newlines(e) == Seq::<char>::empty());
}

/// A header line that is neither empty nor a `Content-Length:` line
/// leaves the content length found so far as it is.
pub proof fn law_other_header_keeps_length(cl: usize, line: Seq<char>)
    requires
        trim_end_newlines(line).len() > 0,
        !has_prefix(trim_end_newlines(line), "Content-Length:"@),
    ensures
        header_step(cl, line) == (cl, HeaderStep::Continue),
{
    if line.len() == 0 {
        assert(trim_end_newlines(line) == line);
    }
}

/// Any other header line between the length line of a framed message and
/// the empty line that ends the header does not change the payload
/// length that the header announces.
pub proof fn law_length_survives_other_headers(payload: Seq<char>, cl: usize, other: Seq<char>)
    requires
        0 < encode_utf8(payload).len() <= usize::MAX,
        trim_end_newlines(other).len() > 0,
        !has_prefix(trim_end_newlines(other), "Content-Length:"@),
    ensures
        header_step(cl, length_line(encode_utf8(payload).len())).1 == HeaderStep::Continue,
        header_step(header_step(cl, length_line(encode_utf8(payload).len())).0, other) == (
            encode_utf8(payload).len() as usize,
            HeaderStep::Continue,
        ),
        header_step(
            header_step(header_step(cl, length_line(encode_utf8(payload).len())).0, other).0,
            "\r\n"@,
        ) == (encode_utf8(payload).len() as usize, HeaderStep::Payload(encode_utf8(payload).len() as usize)),
{
    lemma_frame_reads_back(payload, cl);
    law_other_header_keeps_length(encode_utf8(payload).len() as usize, other);
}

} // verus!
