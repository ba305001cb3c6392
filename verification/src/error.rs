//! What a decoder reports when a line is not what the format asks for.

use vstd::prelude::*;
use vstd::string::StringExecFns;
use vstd::utf8::{decode_utf8, valid_utf8};
use crate::ascii::{COMMA, LEFT_BRACKET, RIGHT_BRACKET, SPACE};
use crate::num::{decimal_text, push_decimal};
use crate::num::lemma_decimal_text_ascii;
use crate::text::{byte_chars, decode_ascii, decode_utf_8, is_ascii_bytes};

verus! {

/// The bytes of a line, or of one field of a line, kept for diagnostics.
#[derive(Debug, PartialEq, Eq, Clone)]
pub struct Line(pub Vec<u8>);

impl View for Line {
    type V = Seq<u8>;

    open spec fn view(&self) -> Seq<u8> {
        self.0@
    }
}

impl Line {
    /// A copy of `bytes`.
    pub fn new(bytes: &[u8]) -> (r: Line)
        ensures
            r@ == bytes@,
    {
        Line(vstd::slice::slice_to_vec(bytes))
    }
}

/// What the declaration parser looked for.
#[derive(Debug, PartialEq, Eq, Clone, Copy)]
pub enum Expected {
    /// Bytes below 128 only.
    AsciiCharacters,
    /// A line of at least this many bytes.
    AtLeastCharacters(usize),
    /// A group of ASCII digits.
    Digits,
    /// This many declarations of seven bytes each.
    Additions(u8),
    /// A first byte that does not lie behind the last byte.
    StartBeforeEnd,
}

/// What the declaration parser met instead.
#[derive(Debug, PartialEq, Eq, Clone)]
pub enum Found {
    /// The offending text.
    Text(Line),
    /// The number of bytes that were there.
    Characters(usize),
    /// The two byte positions of a declaration.
    Bounds { start: u8, end: u8 },
}

/// The mathematical value of a [`Found`].
pub enum FoundView {
    Text(Seq<u8>),
    Characters(usize),
    Bounds { start: u8, end: u8 },
}

impl View for Found {
    type V = FoundView;

    open spec fn view(&self) -> FoundView {
        match *self {
            Found::Text(line) => FoundView::Text(line@),
            Found::Characters(n) => FoundView::Characters(n),
            Found::Bounds { start, end } => FoundView::Bounds { start, end },
        }
    }
}

/// Why a line could not be decoded.
#[derive(Debug, PartialEq, Eq, Clone)]
pub enum Error {
    /// The line does not follow the grammar of its record type.
    InvalidRecord { line: Line },
    /// The first byte of the line is none of the record tags.
    UnknownRecordType { tag: u8 },
    /// The line ends before its mandatory fields do.
    LineTooShort { line: Line },
    /// The time field is no time of day.
    InvalidTime { text: Line },
    /// The latitude field is no latitude.
    InvalidLatitude { text: Line },
    /// The longitude field is no longitude.
    InvalidLongitude { text: Line },
    /// The validity flag is neither `A` nor `V`.
    InvalidValidity { text: Line },
    /// The text is not in the encoding that the stream has settled on.
    Encoding { text: Line },
    /// A declaration line differs from what its own count announces.
    Unexpected { expected: Expected, found: Found },
}

/// The mathematical value of an [`Error`].
pub enum ErrorView {
    InvalidRecord { line: Seq<u8> },
    UnknownRecordType { tag: u8 },
    LineTooShort { line: Seq<u8> },
    InvalidTime { text: Seq<u8> },
    InvalidLatitude { text: Seq<u8> },
    InvalidLongitude { text: Seq<u8> },
    InvalidValidity { text: Seq<u8> },
    Encoding { text: Seq<u8> },
    Unexpected { expected: Expected, found: FoundView },
}

impl View for Error {
    type V = ErrorView;

    open spec fn view(&self) -> ErrorView {
        match *self {
            Error::InvalidRecord { line } => ErrorView::InvalidRecord { line: line@ },
            Error::UnknownRecordType { tag } => ErrorView::UnknownRecordType { tag },
            Error::LineTooShort { line } => ErrorView::LineTooShort { line: line@ },
            Error::InvalidTime { text } => ErrorView::InvalidTime { text: text@ },
            Error::InvalidLatitude { text } => ErrorView::InvalidLatitude { text: text@ },
            Error::InvalidLongitude { text } => ErrorView::InvalidLongitude { text: text@ },
            Error::InvalidValidity { text } => ErrorView::InvalidValidity { text: text@ },
            Error::Encoding { text } => ErrorView::Encoding { text: text@ },
            Error::Unexpected { expected, found } => ErrorView::Unexpected {
                expected,
                found: found@,
            },
        }
    }
}

/// The mathematical value of what a decoder returns.
pub open spec fn outcome<T: View>(r: Result<T, Error>) -> Result<T::V, ErrorView> {
    match r {
        Ok(value) => Ok(value@),
        Err(e) => Err(e@),
    }
}

impl Error {
    /// The error for a line that does not follow the grammar of its record type.
    pub fn invalid_record(line: &[u8]) -> (r: Error)
        ensures
            r@ == (ErrorView::InvalidRecord { line: line@ }),
    {
        Error::InvalidRecord { line: Line::new(line) }
    }

    /// The error of the declaration parser: what it looked for and what it met.
    pub fn unexpected(expected: Expected, found: Found) -> (r: Error)
        ensures
            r@ == (ErrorView::Unexpected { expected, found: found@ }),
    {
        Error::Unexpected { expected, found }
    }
}

/// The numbers of `s` in a list: in square brackets, a comma and a blank
/// between one and the next.
pub open spec fn list_text(s: Seq<u8>) -> Seq<u8>
    decreases s.len(),
{
    if s.len() == 0 {
        seq![LEFT_BRACKET, RIGHT_BRACKET]
    } else if s.len() == 1 {
        seq![LEFT_BRACKET] + decimal_text(s[0] as nat) + seq![RIGHT_BRACKET]
    } else {
        list_text(s.drop_last()).drop_last() + seq![COMMA, SPACE] + decimal_text(s.last() as nat)
            + seq![RIGHT_BRACKET]
    }
}

/// How a line is shown: as its text where it is well-formed UTF-8, else as
/// the list of its bytes.
pub open spec fn line_text(s: Seq<u8>) -> Seq<char> {
    if valid_utf8(s) {
        decode_utf8(s)
    } else {
        byte_chars(list_text(s))
    }
}

/// How what the declaration parser looked for is put in words.
pub open spec fn expected_text(expected: Expected) -> Seq<char> {
    match expected {
        Expected::AsciiCharacters => "ASCII characters"@,
        Expected::AtLeastCharacters(n) => "at least "@ + byte_chars(decimal_text(n as nat))
            + " characters"@,
        Expected::Digits => "digits"@,
        Expected::Additions(n) => byte_chars(decimal_text(n as nat)) + " additions (= "@
            + byte_chars(decimal_text(7 * n as nat)) + " characters)"@,
        Expected::StartBeforeEnd => "start byte <= end byte"@,
    }
}

/// How what the declaration parser met is put in words.
pub open spec fn found_text(found: FoundView) -> Seq<char> {
    match found {
        FoundView::Text(text) => line_text(text),
        FoundView::Characters(n) => byte_chars(decimal_text(n as nat)) + " characters"@,
        FoundView::Bounds { start, end } => "start="@ + byte_chars(decimal_text(start as nat))
            + " end="@ + byte_chars(decimal_text(end as nat)),
    }
}

/// How an error is put in words.
pub open spec fn message_of(error: ErrorView) -> Seq<char> {
    match error {
        ErrorView::InvalidRecord { line } => "invalid record: "@ + line_text(line),
        ErrorView::UnknownRecordType { tag } => "unknown record type: "@ + line_text(seq![tag]),
        ErrorView::LineTooShort { line } => "line too short: "@ + line_text(line),
        ErrorView::InvalidTime { text } => "invalid time: "@ + line_text(text),
        ErrorView::InvalidLatitude { text } => "invalid latitude: "@ + line_text(text),
        ErrorView::InvalidLongitude { text } => "invalid longitude: "@ + line_text(text),
        ErrorView::InvalidValidity { text } => "invalid validity: "@ + line_text(text),
        ErrorView::Encoding { text } => "invalid encoding: "@ + line_text(text),
        ErrorView::Unexpected { expected, found } => "Expected: "@ + expected_text(expected)
            + "; Found: "@ + found_text(found),
    }
}

/// The digits that write `n`, as text.
pub fn decimal(n: u64) -> (r: String)
    ensures
        r@ == byte_chars(decimal_text(n as nat)),
{
    let mut digits: Vec<u8> = Vec::new();
    push_decimal(&mut digits, n);
    proof {
        lemma_decimal_text_ascii(n as nat);
        assert(digits@ =~= decimal_text(n as nat));
    }
    match decode_ascii(digits.as_slice()) {
        Some(text) => text,
        None => String::new(),
    }
}

/// The numbers of `bytes` in a list.
fn list(bytes: &[u8]) -> (r: Vec<u8>)
    ensures
        r@ == list_text(bytes@),
        is_ascii_bytes(r@),
{
    let mut out: Vec<u8> = Vec::new();
    out.push(LEFT_BRACKET);
    let mut i: usize = 0;
    while i < bytes.len()
        invariant
            i <= bytes@.len(),
            out@.push(RIGHT_BRACKET) == list_text(bytes@.take(i as int)),
            is_ascii_bytes(out@),
        decreases bytes@.len() - i,
    {
        let ghost before = out@;
        let ghost shown = bytes@.take(i as int);
        if i > 0 {
            out.push(COMMA);
            out.push(SPACE);
        }
        let ghost middle = out@;
        push_decimal(&mut out, bytes[i] as u64);
        proof {
            let next = bytes@.take(i + 1);
            assert(next.drop_last() =~= shown);
            assert(next.last() == bytes@[i as int]);
            lemma_decimal_text_ascii(bytes@[i as int] as nat);
            assert(before.push(RIGHT_BRACKET).drop_last() =~= before);
            assert(out@.push(RIGHT_BRACKET) =~= list_text(next)) by {
                if i == 0 {
                    assert(before =~= seq![LEFT_BRACKET]);
                    assert(out@.push(RIGHT_BRACKET) =~= seq![LEFT_BRACKET] + decimal_text(bytes@[i as int] as nat)
                        + seq![RIGHT_BRACKET]);
                } else {
                    assert(middle =~= before + seq![COMMA, SPACE]);
                    assert(out@.push(RIGHT_BRACKET) =~= before + seq![COMMA, SPACE] + decimal_text(
                        bytes@[i as int] as nat,
                    ) + seq![RIGHT_BRACKET]);
                }
            }
            assert(is_ascii_bytes(out@)) by {
                assert forall|j: int| 0 <= j < out@.len() implies #[trigger] out@[j] < 128 by {
                    if j < middle.len() {
                        if j < before.len() {
                            assert(out@[j] == before[j]);
                        }
                    } else {
                        assert(out@[j] == decimal_text(bytes@[i as int] as nat)[j - middle.len()]);
                    }
                }
            }
        }
        i = i + 1;
    }
    assert(bytes@.take(i as int) =~= bytes@);
    out.push(RIGHT_BRACKET);
    out
}

impl Line {
    /// The line as text: what it says where it is well-formed UTF-8, else
    /// the list of its bytes.
    pub fn text(&self) -> (r: String)
        ensures
            r@ == line_text(self@),
    {
        match decode_utf_8(self.0.as_slice()) {
            Some(text) => text,
            None => {
                let shown = list(self.0.as_slice());
                match decode_ascii(shown.as_slice()) {
                    Some(text) => text,
                    None => String::new(),
                }
            },
        }
    }
}

impl Expected {
    /// What was looked for, in words.
    pub fn text(&self) -> (r: String)
        ensures
            r@ == expected_text(*self),
    {
        match *self {
            Expected::AsciiCharacters => String::from_str("ASCII characters"),
            Expected::AtLeastCharacters(n) => {
                let mut out = String::from_str("at least ");
                out.append(decimal(n as u64).as_str());
                out.append(" characters");
                out
            },
            Expected::Digits => String::from_str("digits"),
            Expected::Additions(n) => {
                let mut out = decimal(n as u64);
                out.append(" additions (= ");
                out.append(decimal(7 * (n as u64)).as_str());
                out.append(" characters)");
                out
            },
            Expected::StartBeforeEnd => String::from_str("start byte <= end byte"),
        }
    }
}

impl Found {
    /// What was met, in words.
    pub fn text(&self) -> (r: String)
        ensures
            r@ == found_text(self@),
    {
        match self {
            Found::Text(line) => line.text(),
            Found::Characters(n) => {
                let mut out = decimal(*n as u64);
                out.append(" characters");
                out
            },
            Found::Bounds { start, end } => {
                let mut out = String::from_str("start=");
                out.append(decimal(*start as u64).as_str());
                out.append(" end=");
                out.append(decimal(*end as u64).as_str());
                out
            },
        }
    }
}

/// The text `head` and, behind it, the line `line` as text.
fn labelled(head: &str, line: &Line) -> (r: String)
    ensures
        r@ == head@ + line_text(line@),
{
    let mut out = String::from_str(head);
    out.append(line.text().as_str());
    out
}

impl Error {
    /// The error in words.
    pub fn message(&self) -> (r: String)
        ensures
            r@ == message_of(self@),
    {
        match self {
            Error::InvalidRecord { line } => labelled("invalid record: ", line),
            Error::UnknownRecordType { tag } => {
                let mut one: Vec<u8> = Vec::new();
                one.push(*tag);
                assert(one@ =~= seq![*tag]);
                labelled("unknown record type: ", &Line(one))
            },
            Error::LineTooShort { line } => labelled("line too short: ", line),
            Error::InvalidTime { text } => labelled("invalid time: ", text),
            Error::InvalidLatitude { text } => labelled("invalid latitude: ", text),
            Error::InvalidLongitude { text } => labelled("invalid longitude: ", text),
            Error::InvalidValidity { text } => labelled("invalid validity: ", text),
            Error::Encoding { text } => labelled("invalid encoding: ", text),
            Error::Unexpected { expected, found } => {
                let mut out = String::from_str("Expected: ");
                out.append(expected.text().as_str());
                out.append("; Found: ");
                out.append(found.text().as_str());
                out
            },
        }
    }
}

} // verus!
