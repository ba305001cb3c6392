//! Who wrote a comment line.

use vstd::prelude::*;
use vstd::string::is_ascii_spec_bytes;
use vstd::string::StringSliceAdditionalSpecFns;
use crate::ascii::{
    LETTER_C,
    LETTER_F,
    LETTER_I,
    LETTER_L,
    LETTER_O,
    LETTER_P,
    LETTER_T,
};
use crate::text::{byte_chars, decode_ascii, is_ascii_bytes};

verus! {

/// Who wrote a comment.
#[derive(Debug, PartialEq, Eq, Hash)]
pub enum LRecordSource {
    /// Pilot input.
    PLT,
    /// Pilot input after the flight.
    PFC,
    /// Input of the official observer.
    OOI,
    /// Another source, such as the manufacturer, kept as it was written.
    Other(String),
}

/// The mathematical value of a [`LRecordSource`].
pub enum LRecordSourceView {
    PLT,
    PFC,
    OOI,
    Other(Seq<char>),
}

impl View for LRecordSource {
    type V = LRecordSourceView;

    open spec fn view(&self) -> LRecordSourceView {
        match *self {
            LRecordSource::PLT => LRecordSourceView::PLT,
            LRecordSource::PFC => LRecordSourceView::PFC,
            LRecordSource::OOI => LRecordSourceView::OOI,
            LRecordSource::Other(s) => LRecordSourceView::Other(s@),
        }
    }
}

/// The source that the text `t` names: one of the known codes where `t` is its
/// three characters, in upper case, and else `t` itself, kept as it is.
pub open spec fn l_record_source_of(t: Seq<char>) -> LRecordSourceView {
    if t.len() != 3 {
        LRecordSourceView::Other(t)
    } else if t[0] == 'P' && t[1] == 'L' && t[2] == 'T' {
        LRecordSourceView::PLT
    } else if t[0] == 'P' && t[1] == 'F' && t[2] == 'C' {
        LRecordSourceView::PFC
    } else if t[0] == 'O' && t[1] == 'O' && t[2] == 'I' {
        LRecordSourceView::OOI
    } else {
        LRecordSourceView::Other(t)
    }
}

impl Clone for LRecordSource {
    fn clone(&self) -> (r: Self)
        ensures
            r@ == self@,
    {
        match self {
            LRecordSource::PLT => LRecordSource::PLT,
            LRecordSource::PFC => LRecordSource::PFC,
            LRecordSource::OOI => LRecordSource::OOI,
            LRecordSource::Other(s) => LRecordSource::Other(s.clone()),
        }
    }
}

/// A code and its value are of the same kind.
proof fn lemma_same_kind(code: LRecordSource)
    ensures
        code@ is PLT <==> code is PLT,
        code@ is PFC <==> code is PFC,
        code@ is OOI <==> code is OOI,
        code@ is Other <==> code is Other,
{
    match code {
        LRecordSource::PLT => {},
        LRecordSource::PFC => {},
        LRecordSource::OOI => {},
        LRecordSource::Other(_) => {},
    }
}

impl LRecordSource {
    /// The source that `bytes` name. The caller knows them to be ASCII.
    pub fn from_bytes_unchecked(bytes: &[u8]) -> (r: LRecordSource)
        requires
            is_ascii_bytes(bytes@),
        ensures
            r@ == l_record_source_of(byte_chars(bytes@)),
    {
        if bytes.len() == 3 {
            let (a, b, c) = (bytes[0], bytes[1], bytes[2]);
            if a == LETTER_P && b == LETTER_L && c == LETTER_T {
                return LRecordSource::PLT;
            } else if a == LETTER_P && b == LETTER_F && c == LETTER_C {
                return LRecordSource::PFC;
            } else if a == LETTER_O && b == LETTER_O && c == LETTER_I {
                return LRecordSource::OOI;
            }
        }
        match decode_ascii(bytes) {
            Some(s) => LRecordSource::Other(s),
            None => LRecordSource::Other(String::new()),
        }
    }

    /// Whether the two are the same code.
    pub fn same_as(&self, other: &Self) -> (r: bool)
        ensures
            r == (self@ == other@),
    {
        proof {
            lemma_same_kind(*other);
        }
        match self {
            LRecordSource::PLT => matches!(other, LRecordSource::PLT),
            LRecordSource::PFC => matches!(other, LRecordSource::PFC),
            LRecordSource::OOI => matches!(other, LRecordSource::OOI),
            LRecordSource::Other(a) => match other {
                LRecordSource::Other(b) => *a == *b,
                _ => false,
            },
        }
    }

    /// The source that `s` names. Any text names one: what is no known code
    /// is kept as it is.
    pub fn from_text(s: &str) -> (r: LRecordSource)
        ensures
            r@ == l_record_source_of(s@),
    {
        if s.is_ascii() {
            let bytes = s.as_bytes();
            proof {
                is_ascii_spec_bytes(s);
                vstd::utf8::is_ascii_chars_nat_bound(s@);
                assert(is_ascii_bytes(bytes@));
                assert(byte_chars(bytes@) =~= s@);
            }
            LRecordSource::from_bytes_unchecked(bytes)
        } else {
            LRecordSource::Other(s.to_owned())
        }
    }
}

impl core::str::FromStr for LRecordSource {
    type Err = core::convert::Infallible;

    fn from_str(s: &str) -> (r: Result<LRecordSource, core::convert::Infallible>)
        ensures
            r matches Ok(code) && code@ == l_record_source_of(s@),
    {
        Ok(LRecordSource::from_text(s))
    }
}

} // verus!
