//! Logbook and comment lines.

use vstd::prelude::*;
use crate::ascii::LETTER_L;
use crate::error::{outcome, Error, ErrorView, Line};
use crate::records::grammar::{code_at, is_code_at, text_from, text_in, text_part};
use crate::records::l_source::{l_record_source_of, LRecordSource, LRecordSourceView};
use crate::text::{byte_chars, next_encoding, BufEncoding};

verus! {

/// One L record.
#[derive(Debug, PartialEq, Eq)]
pub struct LRecord {
    pub source: LRecordSource,
    pub text: String,
}

/// The mathematical value of an [`LRecord`].
pub struct LRecordView {
    pub source: LRecordSourceView,
    pub text: Seq<char>,
}

impl View for LRecord {
    type V = LRecordView;

    open spec fn view(&self) -> LRecordView {
        LRecordView { source: self.source@, text: self.text@ }
    }
}

/// What is wrong with the fixed part of an L record, if anything.
pub open spec fn l_record_error(line: Seq<u8>) -> Option<ErrorView> {
    if line.len() < 5 {
        Some(ErrorView::LineTooShort { line })
    } else if line[0] != LETTER_L || !is_code_at(line, 1) || text_part(line.skip(4)).len() == 0 {
        Some(ErrorView::InvalidRecord { line })
    } else {
        None
    }
}

/// The L record that `line` writes for a stream in the state `mode`: the
/// tag, three characters for the source and at least one byte of text.
pub open spec fn l_record_of(line: Seq<u8>, mode: BufEncoding) -> Result<LRecordView, ErrorView> {
    match l_record_error(line) {
        Some(error) => Err(error),
        None => match text_in(mode, text_part(line.skip(4))) {
            Ok(text) => Ok(
                LRecordView { source: l_record_source_of(byte_chars(line.subrange(1, 4))), text },
            ),
            Err(error) => Err(error),
        },
    }
}

/// The state of a stream in the state `mode` after it has read `line`.
pub open spec fn l_record_encoding(line: Seq<u8>, mode: BufEncoding) -> BufEncoding {
    if l_record_error(line) is None {
        next_encoding(mode, text_part(line.skip(4)))
    } else {
        mode
    }
}

impl LRecord {
    /// Decodes an L record by itself, its encoding unknown.
    pub fn parse(line: &[u8]) -> (r: Result<LRecord, Error>)
        ensures
            outcome(r) == l_record_of(line@, BufEncoding::Auto),
    {
        let mut encoding = BufEncoding::Auto;
        LRecord::parse_with_encoding(line, &mut encoding)
    }

    /// Decodes an L record of a stream whose state is `encoding`.
    pub fn parse_with_encoding(line: &[u8], encoding: &mut BufEncoding) -> (r: Result<LRecord, Error>)
        ensures
            outcome(r) == l_record_of(line@, *old(encoding)),
            *final(encoding) == l_record_encoding(line@, *old(encoding)),
    {
        if line.len() < 5 {
            return Err(Error::LineTooShort { line: Line::new(line) });
        }
        if line[0] != LETTER_L || !code_at(line, 1) {
            return Err(Error::invalid_record(line));
        }
        let tail = text_from(line, 4);
        if tail.len() == 0 {
            return Err(Error::invalid_record(line));
        }
        let source = LRecordSource::from_bytes_unchecked(&line[1..4]);
        match encoding.decode(tail) {
            Ok(text) => Ok(LRecord { source, text }),
            Err(e) => Err(e),
        }
    }
}

} // verus!
