//! Differential GPS: whether it is in use, and the station.

use vstd::prelude::*;
use crate::ascii::{DIGIT_1, DIGIT_2, LETTER_D};
use crate::error::{outcome, Error, ErrorView, Line};
use crate::records::grammar::{text_from, text_part};

verus! {

/// Whether the fixes come from plain or from differential GPS.
#[derive(Debug, PartialEq, Eq, Clone, Copy, Structural)]
pub enum GPSQualifier {
    GPS,
    DGPS,
}

/// One D record.
#[derive(Debug, PartialEq, Eq)]
pub struct DRecord {
    pub gps_qualifier: GPSQualifier,
    /// The four bytes that name the station, where the line has them.
    pub dgps_station_id: Option<Vec<u8>>,
}

/// The mathematical value of a [`DRecord`].
pub struct DRecordView {
    pub gps_qualifier: GPSQualifier,
    pub dgps_station_id: Option<Seq<u8>>,
}

impl View for DRecord {
    type V = DRecordView;

    open spec fn view(&self) -> DRecordView {
        DRecordView {
            gps_qualifier: self.gps_qualifier,
            dgps_station_id: match self.dgps_station_id {
                Some(id) => Some(id@),
                None => None,
            },
        }
    }
}

/// The qualifier that the byte `b` names: `1` is GPS, `2` is differential GPS.
pub open spec fn gps_qualifier_of(b: u8) -> Option<GPSQualifier> {
    if b == DIGIT_1 {
        Some(GPSQualifier::GPS)
    } else if b == DIGIT_2 {
        Some(GPSQualifier::DGPS)
    } else {
        None
    }
}

/// The D record that `line` writes: the tag, the qualifier, and four bytes
/// of text for the station or fewer, which then count for nothing.
pub open spec fn d_record_of(line: Seq<u8>) -> Result<DRecordView, ErrorView> {
    if line.len() < 2 {
        Err(ErrorView::LineTooShort { line })
    } else if line[0] != LETTER_D || gps_qualifier_of(line[1]) is None {
        Err(ErrorView::InvalidRecord { line })
    } else {
        Ok(
            DRecordView {
                gps_qualifier: gps_qualifier_of(line[1])->0,
                dgps_station_id: if text_part(line.skip(2)).len() >= 4 {
                    Some(line.subrange(2, 6))
                } else {
                    None
                },
            },
        )
    }
}

impl GPSQualifier {
    /// The qualifier that `byte` names, if it names one.
    pub fn from_byte(byte: u8) -> (r: Option<GPSQualifier>)
        ensures
            r == gps_qualifier_of(byte),
    {
        if byte == DIGIT_1 {
            Some(GPSQualifier::GPS)
        } else if byte == DIGIT_2 {
            Some(GPSQualifier::DGPS)
        } else {
            None
        }
    }
}

impl DRecord {
    /// Decodes a D record.
    pub fn parse(line: &[u8]) -> (r: Result<DRecord, Error>)
        ensures
            outcome(r) == d_record_of(line@),
    {
        if line.len() < 2 {
            return Err(Error::LineTooShort { line: Line::new(line) });
        }
        if line[0] != LETTER_D {
            return Err(Error::invalid_record(line));
        }
        let gps_qualifier = match GPSQualifier::from_byte(line[1]) {
            Some(qualifier) => qualifier,
            None => {
                return Err(Error::invalid_record(line));
            },
        };
        let dgps_station_id = if text_from(line, 2).len() >= 4 {
            Some(vstd::slice::slice_to_vec(&line[2..6]))
        } else {
            None
        };
        Ok(DRecord { gps_qualifier, dgps_station_id })
    }
}

} // verus!
