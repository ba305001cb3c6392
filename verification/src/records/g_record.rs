//! Security lines: the digital signature of the file, in pieces.

use vstd::prelude::*;
use crate::ascii::LETTER_G;
use crate::error::{outcome, Error, ErrorView, Line};
use crate::records::grammar::{text_from, text_in, text_part};
use crate::text::{next_encoding, BufEncoding};

verus! {

/// One G record.
#[derive(Debug, PartialEq, Eq)]
pub struct GRecord {
    pub text: String,
}

/// The mathematical value of a [`GRecord`].
pub struct GRecordView {
    pub text: Seq<char>,
}

impl View for GRecord {
    type V = GRecordView;

    open spec fn view(&self) -> GRecordView {
        GRecordView { text: self.text@ }
    }
}

/// What is wrong with the fixed part of a G record, if anything.
pub open spec fn g_record_error(line: Seq<u8>) -> Option<ErrorView> {
    if line.len() < 2 {
        Some(ErrorView::LineTooShort { line })
    } else if line[0] != LETTER_G || text_part(line.skip(1)).len() == 0 {
        Some(ErrorView::InvalidRecord { line })
    } else {
        None
    }
}

/// The G record that `line` writes for a stream in the state `mode`: the
/// tag and at least one byte of text.
pub open spec fn g_record_of(line: Seq<u8>, mode: BufEncoding) -> Result<GRecordView, ErrorView> {
    match g_record_error(line) {
        Some(error) => Err(error),
        None => match text_in(mode, text_part(line.skip(1))) {
            Ok(text) => Ok(GRecordView { text }),
            Err(error) => Err(error),
        },
    }
}

/// The state of a stream in the state `mode` after it has read `line`.
pub open spec fn g_record_encoding(line: Seq<u8>, mode: BufEncoding) -> BufEncoding {
    if g_record_error(line) is None {
        next_encoding(mode, text_part(line.skip(1)))
    } else {
        mode
    }
}

impl GRecord {
    /// Decodes a G record by itself, its encoding unknown.
    pub fn parse(line: &[u8]) -> (r: Result<GRecord, Error>)
        ensures
            outcome(r) == g_record_of(line@, BufEncoding::Auto),
    {
        let mut encoding = BufEncoding::Auto;
        GRecord::parse_with_encoding(line, &mut encoding)
    }

    /// Decodes a G record of a stream whose state is `encoding`.
    pub fn parse_with_encoding(line: &[u8], encoding: &mut BufEncoding) -> (r: Result<GRecord, Error>)
        ensures
            outcome(r) == g_record_of(line@, *old(encoding)),
            *final(encoding) == g_record_encoding(line@, *old(encoding)),
    {
        if line.len() < 2 {
            return Err(Error::LineTooShort { line: Line::new(line) });
        }
        if line[0] != LETTER_G {
            return Err(Error::invalid_record(line));
        }
        let tail = text_from(line, 1);
        if tail.len() == 0 {
            return Err(Error::invalid_record(line));
        }
        match encoding.decode(tail) {
            Ok(text) => Ok(GRecord { text }),
            Err(e) => Err(e),
        }
    }
}

} // verus!
