//! Text in a line: ASCII, UTF-8 or Latin-1, found out once for a whole stream.

use vstd::prelude::*;
use vstd::utf8::{decode_utf8, valid_utf8};
use encoding::all::{ASCII, ISO_8859_1, UTF_8};
use encoding::{DecoderTrap, Encoding};
use crate::error::{Error, ErrorView, Line};

verus! {

/// Whether every byte of `s` is below 128.
pub open spec fn is_ascii_bytes(s: Seq<u8>) -> bool {
    forall|i: int| 0 <= i < s.len() ==> #[trigger] s[i] < 128
}

/// The characters whose code points are the bytes of `s`: what `s` says in Latin-1.
pub open spec fn byte_chars(s: Seq<u8>) -> Seq<char> {
    Seq::new(s.len(), |i: int| s[i] as char)
}

/// Whether every byte of `bytes` is below 128.
pub fn ascii_only(bytes: &[u8]) -> (r: bool)
    ensures
        r == is_ascii_bytes(bytes@),
{
    let mut i: usize = 0;
    while i < bytes.len()
        invariant
            i <= bytes@.len(),
            forall|j: int| 0 <= j < i ==> #[trigger] bytes@[j] < 128,
        decreases bytes@.len() - i,
    {
        if bytes[i] >= 128 {
            return false;
        }
        i = i + 1;
    }
    true
}

/// Decodes ASCII by `encoding::Encoding::decode` of `encoding::all::ASCII`
/// with `DecoderTrap::Strict`.
///
/// Not proved but taken from that crate: the call succeeds exactly where no
/// byte is 128 or more, and each byte then becomes the character of that
/// code point.
#[verifier::external_body]
pub(crate) fn decode_ascii(bytes: &[u8]) -> (r: Option<String>)
    ensures
        r.is_some() == is_ascii_bytes(bytes@),
        r matches Some(s) ==> s@ == byte_chars(bytes@),
{
    ASCII.decode(bytes, DecoderTrap::Strict).ok()
}

/// Decodes UTF-8 by `encoding::Encoding::decode` of `encoding::all::UTF_8`
/// with `DecoderTrap::Strict`.
///
/// Not proved but taken from that crate: the call succeeds exactly where
/// the bytes are well-formed UTF-8 (no sequence cut short or longer than it
/// need be, no surrogate, nothing beyond U+10FFFF), and the text then has
/// those very bytes, so that its characters are the ones they encode.
#[verifier::external_body]
pub(crate) fn decode_utf_8(bytes: &[u8]) -> (r: Option<String>)
    ensures
        r.is_some() == valid_utf8(bytes@),
        r matches Some(s) ==> s@ == decode_utf8(bytes@),
{
    UTF_8.decode(bytes, DecoderTrap::Strict).ok()
}

/// Decodes Latin-1 by `encoding::Encoding::decode` of
/// `encoding::all::ISO_8859_1` with `DecoderTrap::Strict`.
///
/// Not proved but taken from that crate: the call succeeds on all bytes, and
/// each byte becomes the character of that code point.
#[verifier::external_body]
fn decode_latin_1(bytes: &[u8]) -> (r: Option<String>)
    ensures
        r.is_some(),
        r matches Some(s) ==> s@ == byte_chars(bytes@),
{
    ISO_8859_1.decode(bytes, DecoderTrap::Strict).ok()
}

/// What `s` says, encoding unknown: its characters as UTF-8 where it is
/// well-formed UTF-8, else as Latin-1.
pub open spec fn text_of(s: Seq<u8>) -> Seq<char> {
    if valid_utf8(s) {
        decode_utf8(s)
    } else {
        byte_chars(s)
    }
}

/// Decodes `bytes` as UTF-8 or, failing that, as Latin-1. There is always a result.
pub fn as_text(bytes: &[u8]) -> (r: Option<String>)
    ensures
        r matches Some(s) && s@ == text_of(bytes@),
{
    match decode_utf_8(bytes) {
        Some(s) => Some(s),
        None => decode_latin_1(bytes),
    }
}

/// What a stream knows of its encoding.
#[derive(Debug, PartialEq, Eq, Clone, Copy, Structural)]
pub enum BufEncoding {
    /// Nothing yet: every line so far was ASCII.
    Auto,
    UTF8,
    Latin1,
}

/// The encoding that a stream in the state `mode` settles on when it meets `s`.
pub open spec fn next_encoding(mode: BufEncoding, s: Seq<u8>) -> BufEncoding {
    match mode {
        BufEncoding::Auto => if is_ascii_bytes(s) {
            BufEncoding::Auto
        } else if valid_utf8(s) {
            BufEncoding::UTF8
        } else {
            BufEncoding::Latin1
        },
        fixed => fixed,
    }
}

/// What `s` says to a stream in the state `mode`, or `None` where `s` is not
/// text in the encoding that the stream has settled on.
pub open spec fn decoded(mode: BufEncoding, s: Seq<u8>) -> Option<Seq<char>> {
    match mode {
        BufEncoding::Auto => if is_ascii_bytes(s) {
            Some(byte_chars(s))
        } else {
            Some(text_of(s))
        },
        BufEncoding::UTF8 => if valid_utf8(s) {
            Some(decode_utf8(s))
        } else {
            None
        },
        BufEncoding::Latin1 => Some(byte_chars(s)),
    }
}

impl BufEncoding {
    /// Decodes one line or field. While nothing is known, ASCII is tried, then
    /// UTF-8, then Latin-1, and the first of the latter two that fits is kept
    /// for the rest of the stream. Once an encoding is kept, nothing else is
    /// tried: what is not text in it is an error.
    pub fn decode(&mut self, bytes: &[u8]) -> (r: Result<String, Error>)
        ensures
            *final(self) == next_encoding(*old(self), bytes@),
            match decoded(*old(self), bytes@) {
                Some(text) => r matches Ok(s) && s@ == text,
                None => r matches Err(e) && e@ == (ErrorView::Encoding { text: bytes@ }),
            },
    {
        match *self {
            BufEncoding::UTF8 => match decode_utf_8(bytes) {
                Some(s) => Ok(s),
                None => Err(Error::Encoding { text: Line::new(bytes) }),
            },
            BufEncoding::Latin1 => match decode_latin_1(bytes) {
                Some(s) => Ok(s),
                None => Err(Error::Encoding { text: Line::new(bytes) }),
            },
            BufEncoding::Auto => {
                if let Some(s) = decode_ascii(bytes) {
                    return Ok(s);
                }
                if let Some(s) = decode_utf_8(bytes) {
                    *self = BufEncoding::UTF8;
                    return Ok(s);
                }
                match decode_latin_1(bytes) {
                    Some(s) => {
                        *self = BufEncoding::Latin1;
                        Ok(s)
                    },
                    None => Err(Error::Encoding { text: Line::new(bytes) }),
                }
            },
        }
    }
}

/// A stream never goes back to guessing: an encoding once kept stays.
pub proof fn lemma_encoding_is_sticky(mode: BufEncoding, s: Seq<u8>)
    requires
        mode != BufEncoding::Auto,
    ensures
        next_encoding(mode, s) == mode,
{
}

/// A line can only fail to decode in a stream that has settled on UTF-8.
pub proof fn lemma_only_utf8_rejects(mode: BufEncoding, s: Seq<u8>)
    ensures
        decoded(mode, s) is None <==> mode == BufEncoding::UTF8 && !valid_utf8(s),
{
}

} // verus!
