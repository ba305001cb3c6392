//! Who provided a header line.

use vstd::prelude::*;
use crate::ascii::{LETTER_F, LETTER_O};

verus! {

/// Who provided a header line.
#[derive(Debug, PartialEq, Eq, Hash, Clone, Copy, Structural)]
pub enum HeaderSource {
    /// The flight recorder itself.
    FlightRecorder,
    /// The official observer.
    Observer,
    /// Someone else, under the letter that the line gives.
    Other(char),
}

/// The source that the byte `b` names.
pub open spec fn header_source_of(b: u8) -> HeaderSource {
    if b == LETTER_F {
        HeaderSource::FlightRecorder
    } else if b == LETTER_O {
        HeaderSource::Observer
    } else {
        HeaderSource::Other(b as char)
    }
}

impl HeaderSource {
    /// The source that the byte `byte` names. The caller knows it to be ASCII.
    pub fn from_byte_unchecked(byte: u8) -> (r: HeaderSource)
        requires
            byte < 128,
        ensures
            r == header_source_of(byte),
    {
        if byte == LETTER_F {
            HeaderSource::FlightRecorder
        } else if byte == LETTER_O {
            HeaderSource::Observer
        } else {
            HeaderSource::Other(byte as char)
        }
    }
}

} // verus!
