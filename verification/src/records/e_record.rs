//! Events: a time, what happened, and text where there is more to say.

use vstd::prelude::*;
use crate::ascii::LETTER_E;
use crate::error::{outcome, Error, ErrorView, Line};
use crate::events::{event_code_of, EventCode, EventCodeView};
use crate::records::grammar::{
    code_at,
    encoding_after,
    is_code_at,
    optional_chars,
    optional_text,
    optional_text_in,
    text_from,
    text_part,
};
use crate::text::{byte_chars, BufEncoding};
use crate::time::{parse_time, time_of, Time};

verus! {

/// One E record.
#[derive(Debug, PartialEq, Eq)]
pub struct ERecord {
    pub time: Time,
    pub code: EventCode,
    pub text: Option<String>,
}

/// The mathematical value of an [`ERecord`].
pub struct ERecordView {
    pub time: Time,
    pub code: EventCodeView,
    pub text: Option<Seq<char>>,
}

impl View for ERecord {
    type V = ERecordView;

    open spec fn view(&self) -> ERecordView {
        ERecordView { time: self.time, code: self.code@, text: optional_chars(self.text) }
    }
}

/// What is wrong with the fixed part of an E record, if anything.
pub open spec fn e_record_error(line: Seq<u8>) -> Option<ErrorView> {
    if line.len() < 10 {
        Some(ErrorView::LineTooShort { line })
    } else if line[0] != LETTER_E {
        Some(ErrorView::InvalidRecord { line })
    } else if time_of(line.subrange(1, 7)) is None {
        Some(ErrorView::InvalidTime { text: line.subrange(1, 7) })
    } else if !is_code_at(line, 7) {
        Some(ErrorView::InvalidRecord { line })
    } else {
        None
    }
}

/// The E record that `line` writes for a stream in the state `mode`: the
/// tag, a time, three characters of code, and text or nothing.
pub open spec fn e_record_of(line: Seq<u8>, mode: BufEncoding) -> Result<ERecordView, ErrorView> {
    match e_record_error(line) {
        Some(error) => Err(error),
        None => match optional_text_in(mode, text_part(line.skip(10))) {
            Ok(text) => Ok(
                ERecordView {
                    time: time_of(line.subrange(1, 7))->0,
                    code: event_code_of(byte_chars(line.subrange(7, 10))),
                    text,
                },
            ),
            Err(error) => Err(error),
        },
    }
}

/// The state of a stream in the state `mode` after it has read `line`.
pub open spec fn e_record_encoding(line: Seq<u8>, mode: BufEncoding) -> BufEncoding {
    if e_record_error(line) is None {
        encoding_after(mode, text_part(line.skip(10)))
    } else {
        mode
    }
}

impl ERecord {
    /// Decodes an E record by itself, its encoding unknown.
    pub fn parse(line: &[u8]) -> (r: Result<ERecord, Error>)
        ensures
            outcome(r) == e_record_of(line@, BufEncoding::Auto),
    {
        let mut encoding = BufEncoding::Auto;
        ERecord::parse_with_encoding(line, &mut encoding)
    }

    /// Decodes an E record of a stream whose state is `encoding`.
    pub fn parse_with_encoding(line: &[u8], encoding: &mut BufEncoding) -> (r: Result<ERecord, Error>)
        ensures
            outcome(r) == e_record_of(line@, *old(encoding)),
            *final(encoding) == e_record_encoding(line@, *old(encoding)),
    {
        if line.len() < 10 {
            return Err(Error::LineTooShort { line: Line::new(line) });
        }
        if line[0] != LETTER_E {
            return Err(Error::invalid_record(line));
        }
        let time = match parse_time(&line[1..7]) {
            Ok(time) => time,
            Err(e) => {
                return Err(e);
            },
        };
        if !code_at(line, 7) {
            return Err(Error::invalid_record(line));
        }
        let code = EventCode::from_bytes_unchecked(&line[7..10]);
        let tail = text_from(line, 10);
        match optional_text(tail, encoding) {
            Ok(text) => Ok(ERecord { time, code, text }),
            Err(e) => Err(e),
        }
    }
}

} // verus!
