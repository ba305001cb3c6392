//! Header lines: who says it, what it is about, and the text.

use vstd::prelude::*;
use crate::ascii::{COLON, LETTER_F, LETTER_H, LETTER_O, LETTER_P};
use crate::error::{outcome, Error, ErrorView, Line};
use crate::headers::code::{header_code_of, HeaderCode, HeaderCodeView};
use crate::headers::source::{header_source_of, HeaderSource};
use crate::records::grammar::{code_at, is_code_at, text_from, text_in, text_part};
use crate::text::{byte_chars, next_encoding, BufEncoding};

verus! {

/// One H record.
#[derive(Debug, PartialEq, Eq)]
pub struct HRecord {
    pub source: HeaderSource,
    pub code: HeaderCode,
    pub text: String,
}

/// The mathematical value of an [`HRecord`].
pub struct HRecordView {
    pub source: HeaderSource,
    pub code: HeaderCodeView,
    pub text: Seq<char>,
}

impl View for HRecord {
    type V = HRecordView;

    open spec fn view(&self) -> HRecordView {
        HRecordView { source: self.source, code: self.code@, text: self.text@ }
    }
}

/// Whether `b` is one of the letters `F`, `O` and `P`.
pub open spec fn is_source_byte(b: u8) -> bool {
    b == LETTER_F || b == LETTER_O || b == LETTER_P
}

/// What is wrong with the fixed part of an H record, if anything.
pub open spec fn h_record_error(line: Seq<u8>) -> Option<ErrorView> {
    if line.len() < 5 {
        Some(ErrorView::LineTooShort { line })
    } else if line[0] != LETTER_H || !is_source_byte(line[1]) || !is_code_at(line, 2) {
        Some(ErrorView::InvalidRecord { line })
    } else {
        None
    }
}

/// Whether `at` is where the first colon of `s` stands.
pub open spec fn is_first_colon(s: Seq<u8>, at: int) -> bool {
    0 <= at < s.len() && s[at] == COLON && forall|i: int| 0 <= i < at ==> #[trigger] s[i] != COLON
}

/// Whether `s` has a colon.
pub open spec fn has_colon(s: Seq<u8>) -> bool {
    exists|at: int| is_first_colon(s, at)
}

/// Where the text of a header starts within what follows the code: behind
/// the first colon, which ends the long name of the code, or at once where
/// there is no colon.
pub open spec fn text_start(s: Seq<u8>) -> int {
    if has_colon(s) {
        (choose|at: int| is_first_colon(s, at)) + 1
    } else {
        0
    }
}

/// The bytes of the text of a header line.
pub open spec fn h_record_text(line: Seq<u8>) -> Seq<u8> {
    text_part(line.skip(5).skip(text_start(line.skip(5))))
}

/// The H record that `line` writes for a stream in the state `mode`: the
/// tag, a letter for the source, three characters of code, the long name of
/// the code up to a colon where there is one, and the text.
pub open spec fn h_record_of(line: Seq<u8>, mode: BufEncoding) -> Result<HRecordView, ErrorView> {
    match h_record_error(line) {
        Some(error) => Err(error),
        None => match text_in(mode, h_record_text(line)) {
            Ok(text) => Ok(
                HRecordView {
                    source: header_source_of(line[1]),
                    code: header_code_of(byte_chars(line.subrange(2, 5))),
                    text,
                },
            ),
            Err(error) => Err(error),
        },
    }
}

/// The state of a stream in the state `mode` after it has read `line`.
pub open spec fn h_record_encoding(line: Seq<u8>, mode: BufEncoding) -> BufEncoding {
    if h_record_error(line) is None {
        next_encoding(mode, h_record_text(line))
    } else {
        mode
    }
}

/// Finds where the text starts within what follows the code.
fn find_text_start(rest: &[u8]) -> (r: usize)
    ensures
        r == text_start(rest@),
        r <= rest@.len(),
{
    let mut i: usize = 0;
    while i < rest.len()
        invariant
            i <= rest@.len(),
            forall|j: int| 0 <= j < i ==> #[trigger] rest@[j] != COLON,
        decreases rest@.len() - i,
    {
        if rest[i] == COLON {
            proof {
                assert(is_first_colon(rest@, i as int));
                let found = choose|at: int| is_first_colon(rest@, at);
                assert(found == i) by {
                    if found < i {
                        assert(rest@[found] != COLON);
                    } else if found > i {
                        assert(rest@[i as int] != COLON);
                    }
                }
            }
            return i + 1;
        }
        i = i + 1;
    }
    proof {
        if has_colon(rest@) {
            let found = choose|at: int| is_first_colon(rest@, at);
            assert(rest@[found] != COLON);
        }
    }
    0
}

impl HRecord {
    /// The header line with the given source, code and text.
    pub fn new(source: HeaderSource, code: HeaderCode, text: &str) -> (r: HRecord)
        ensures
            r.source == source,
            r.code == code,
            r.text@ == text@,
    {
        HRecord { source, code, text: text.to_owned() }
    }

    /// Decodes an H record by itself, its encoding unknown.
    pub fn parse(line: &[u8]) -> (r: Result<HRecord, Error>)
        ensures
            outcome(r) == h_record_of(line@, BufEncoding::Auto),
    {
        let mut encoding = BufEncoding::Auto;
        HRecord::parse_with_encoding(line, &mut encoding)
    }

    /// Decodes an H record of a stream whose state is `encoding`.
    pub fn parse_with_encoding(line: &[u8], encoding: &mut BufEncoding) -> (r: Result<HRecord, Error>)
        ensures
            outcome(r) == h_record_of(line@, *old(encoding)),
            *final(encoding) == h_record_encoding(line@, *old(encoding)),
    {
        if line.len() < 5 {
            return Err(Error::LineTooShort { line: Line::new(line) });
        }
        let letter = line[1];
        if line[0] != LETTER_H || !(letter == LETTER_F || letter == LETTER_O || letter == LETTER_P) || !code_at(line, 2) {
            return Err(Error::invalid_record(line));
        }
        let source = HeaderSource::from_byte_unchecked(letter);
        let code = HeaderCode::from_bytes_unchecked(&line[2..5]);
        let rest = &line[5..line.len()];
        assert(rest@ == line@.skip(5));
        let start = find_text_start(rest);
        let tail = text_from(rest, start);
        match encoding.decode(tail) {
            Ok(text) => Ok(HRecord { source, code, text }),
            Err(e) => Err(e),
        }
    }
}

} // verus!
