//! What several record types share: the characters of a code, and a tail of
//! free text.

use vstd::prelude::*;
use crate::ascii::{DIGIT_0, DIGIT_9, LETTER_A, LETTER_Z};
use crate::error::{Error, ErrorView};
use crate::lines::{find_line_end, line_end};
use crate::text::{decoded, is_ascii_bytes, next_encoding, BufEncoding};

verus! {

/// Whether `b` is an upper-case letter or a digit.
pub open spec fn is_code_byte(b: u8) -> bool {
    (LETTER_A <= b <= LETTER_Z) || (DIGIT_0 <= b <= DIGIT_9)
}

/// Whether the three bytes of `s` from `at` on are upper-case letters or digits.
pub open spec fn is_code_at(s: Seq<u8>, at: int) -> bool {
    is_code_byte(s[at]) && is_code_byte(s[at + 1]) && is_code_byte(s[at + 2])
}

/// Whether `b` is an upper-case letter or a digit.
pub fn code_byte(b: u8) -> (r: bool)
    ensures
        r == is_code_byte(b),
{
    (LETTER_A <= b && b <= LETTER_Z) || (DIGIT_0 <= b && b <= DIGIT_9)
}

/// Whether the three bytes of `line` from `at` on are upper-case letters or digits.
pub fn code_at(line: &[u8], at: usize) -> (r: bool)
    requires
        at + 3 <= line@.len(),
    ensures
        r == is_code_at(line@, at as int),
        r ==> is_ascii_bytes(line@.subrange(at as int, at + 3)),
{
    let r = code_byte(line[at]) && code_byte(line[at + 1]) && code_byte(line[at + 2]);
    proof {
        if r {
            let part = line@.subrange(at as int, at + 3);
            assert forall|i: int| 0 <= i < part.len() implies #[trigger] part[i] < 128 by {
                assert(part[i] == line@[at + i]);
            }
        }
    }
    r
}

/// The text at the front of `s`: it ends in front of the first line feed,
/// where there is one. What follows a line feed belongs to no field.
pub open spec fn text_part(s: Seq<u8>) -> Seq<u8> {
    s.take(line_end(s))
}

/// The text that `line` holds from `from` on.
pub fn text_from(line: &[u8], from: usize) -> (r: &[u8])
    requires
        from <= line@.len(),
    ensures
        r@ == text_part(line@.skip(from as int)),
        from + r@.len() <= line@.len(),
{
    let end = find_line_end(line, from);
    let part = &line[from..end];
    assert(part@ =~= line@.skip(from as int).take(end - from));
    part
}

/// The free text `tail` as a stream in the state `mode` reads it, or the
/// error where it is no text in the encoding of the stream.
pub open spec fn text_in(mode: BufEncoding, tail: Seq<u8>) -> Result<Seq<char>, ErrorView> {
    match decoded(mode, tail) {
        Some(chars) => Ok(chars),
        None => Err(ErrorView::Encoding { text: tail }),
    }
}

/// Free text that may be absent: no bytes are no text.
pub open spec fn optional_text_in(mode: BufEncoding, tail: Seq<u8>) -> Result<
    Option<Seq<char>>,
    ErrorView,
> {
    if tail.len() == 0 {
        Ok(None)
    } else {
        match decoded(mode, tail) {
            Some(chars) => Ok(Some(chars)),
            None => Err(ErrorView::Encoding { text: tail }),
        }
    }
}

/// The state of a stream after it has read text that may be absent.
pub open spec fn encoding_after(mode: BufEncoding, tail: Seq<u8>) -> BufEncoding {
    if tail.len() == 0 {
        mode
    } else {
        next_encoding(mode, tail)
    }
}

/// The mathematical value of text that may be absent.
pub open spec fn optional_chars(text: Option<String>) -> Option<Seq<char>> {
    match text {
        Some(s) => Some(s@),
        None => None,
    }
}

/// Reads free text that may be absent.
pub fn optional_text(tail: &[u8], encoding: &mut BufEncoding) -> (r: Result<Option<String>, Error>)
    ensures
        *final(encoding) == encoding_after(*old(encoding), tail@),
        match optional_text_in(*old(encoding), tail@) {
            Ok(chars) => r matches Ok(text) && optional_chars(text) == chars,
            Err(error) => r matches Err(e) && e@ == error,
        },
{
    if tail.len() == 0 {
        Ok(None)
    } else {
        match encoding.decode(tail) {
            Ok(text) => Ok(Some(text)),
            Err(e) => Err(e),
        }
    }
}

} // verus!
