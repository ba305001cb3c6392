//! The three-letter codes of header lines.

use vstd::prelude::*;
use vstd::string::is_ascii_spec_bytes;
use vstd::string::StringSliceAdditionalSpecFns;
use crate::ascii::{
    DIGIT_1,
    DIGIT_2,
    LETTER_B,
    LETTER_C,
    LETTER_D,
    LETTER_E,
    LETTER_F,
    LETTER_G,
    LETTER_H,
    LETTER_I,
    LETTER_L,
    LETTER_M,
    LETTER_O,
    LETTER_P,
    LETTER_R,
    LETTER_S,
    LETTER_T,
    LETTER_W,
    LETTER_Y,
};
use crate::text::{byte_chars, decode_ascii, is_ascii_bytes};

verus! {

/// What a header line tells.
#[derive(Debug, PartialEq, Eq, Hash)]
pub enum HeaderCode {
    /// Date of the flight.
    DTE,
    /// Pilot in charge.
    PLT,
    /// Second crew member.
    CM2,
    /// Date of birth of the pilot.
    DOB,
    /// Date of birth of the pilot in charge.
    DB1,
    /// Date of birth of the second crew member.
    DB2,
    /// Glider type.
    GTY,
    /// Glider registration.
    GID,
    /// Competition number.
    CID,
    /// Competition class.
    CCL,
    /// Geodetic datum of the fixes.
    DTM,
    /// Manufacturer and model of the flight recorder.
    FTY,
    /// Firmware version of the flight recorder.
    RFW,
    /// Hardware version of the flight recorder.
    RHW,
    /// GPS receiver of the flight recorder.
    GPS,
    /// Pressure altitude sensor.
    PRS,
    /// Security status of the flight recorder.
    FRS,
    /// Means-of-propulsion sensor.
    MOP,
    /// A code that this library does not know, kept as it was written.
    Other(String),
}

/// The mathematical value of a [`HeaderCode`].
pub enum HeaderCodeView {
    DTE,
    PLT,
    CM2,
    DOB,
    DB1,
    DB2,
    GTY,
    GID,
    CID,
    CCL,
    DTM,
    FTY,
    RFW,
    RHW,
    GPS,
    PRS,
    FRS,
    MOP,
    Other(Seq<char>),
}

impl View for HeaderCode {
    type V = HeaderCodeView;

    open spec fn view(&self) -> HeaderCodeView {
        match *self {
            HeaderCode::DTE => HeaderCodeView::DTE,
            HeaderCode::PLT => HeaderCodeView::PLT,
            HeaderCode::CM2 => HeaderCodeView::CM2,
            HeaderCode::DOB => HeaderCodeView::DOB,
            HeaderCode::DB1 => HeaderCodeView::DB1,
            HeaderCode::DB2 => HeaderCodeView::DB2,
            HeaderCode::GTY => HeaderCodeView::GTY,
            HeaderCode::GID => HeaderCodeView::GID,
            HeaderCode::CID => HeaderCodeView::CID,
            HeaderCode::CCL => HeaderCodeView::CCL,
            HeaderCode::DTM => HeaderCodeView::DTM,
            HeaderCode::FTY => HeaderCodeView::FTY,
            HeaderCode::RFW => HeaderCodeView::RFW,
            HeaderCode::RHW => HeaderCodeView::RHW,
            HeaderCode::GPS => HeaderCodeView::GPS,
            HeaderCode::PRS => HeaderCodeView::PRS,
            HeaderCode::FRS => HeaderCodeView::FRS,
            HeaderCode::MOP => HeaderCodeView::MOP,
            HeaderCode::Other(s) => HeaderCodeView::Other(s@),
        }
    }
}

/// The header code that the text `t` names: one of the known codes where `t` is its
/// three characters, in upper case, and else `t` itself, kept as it is.
pub open spec fn header_code_of(t: Seq<char>) -> HeaderCodeView {
    if t.len() != 3 {
        HeaderCodeView::Other(t)
    } else if t[0] == 'D' && t[1] == 'T' && t[2] == 'E' {
        HeaderCodeView::DTE
    } else if t[0] == 'P' && t[1] == 'L' && t[2] == 'T' {
        HeaderCodeView::PLT
    } else if t[0] == 'C' && t[1] == 'M' && t[2] == '2' {
        HeaderCodeView::CM2
    } else if t[0] == 'D' && t[1] == 'O' && t[2] == 'B' {
        HeaderCodeView::DOB
    } else if t[0] == 'D' && t[1] == 'B' && t[2] == '1' {
        HeaderCodeView::DB1
    } else if t[0] == 'D' && t[1] == 'B' && t[2] == '2' {
        HeaderCodeView::DB2
    } else if t[0] == 'G' && t[1] == 'T' && t[2] == 'Y' {
        HeaderCodeView::GTY
    } else if t[0] == 'G' && t[1] == 'I' && t[2] == 'D' {
        HeaderCodeView::GID
    } else if t[0] == 'C' && t[1] == 'I' && t[2] == 'D' {
        HeaderCodeView::CID
    } else if t[0] == 'C' && t[1] == 'C' && t[2] == 'L' {
        HeaderCodeView::CCL
    } else if t[0] == 'D' && t[1] == 'T' && t[2] == 'M' {
        HeaderCodeView::DTM
    } else if t[0] == 'F' && t[1] == 'T' && t[2] == 'Y' {
        HeaderCodeView::FTY
    } else if t[0] == 'R' && t[1] == 'F' && t[2] == 'W' {
        HeaderCodeView::RFW
    } else if t[0] == 'R' && t[1] == 'H' && t[2] == 'W' {
        HeaderCodeView::RHW
    } else if t[0] == 'G' && t[1] == 'P' && t[2] == 'S' {
        HeaderCodeView::GPS
    } else if t[0] == 'P' && t[1] == 'R' && t[2] == 'S' {
        HeaderCodeView::PRS
    } else if t[0] == 'F' && t[1] == 'R' && t[2] == 'S' {
        HeaderCodeView::FRS
    } else if t[0] == 'M' && t[1] == 'O' && t[2] == 'P' {
        HeaderCodeView::MOP
    } else {
        HeaderCodeView::Other(t)
    }
}

impl Clone for HeaderCode {
    fn clone(&self) -> (r: Self)
        ensures
            r@ == self@,
    {
        match self {
            HeaderCode::DTE => HeaderCode::DTE,
            HeaderCode::PLT => HeaderCode::PLT,
            HeaderCode::CM2 => HeaderCode::CM2,
            HeaderCode::DOB => HeaderCode::DOB,
            HeaderCode::DB1 => HeaderCode::DB1,
            HeaderCode::DB2 => HeaderCode::DB2,
            HeaderCode::GTY => HeaderCode::GTY,
            HeaderCode::GID => HeaderCode::GID,
            HeaderCode::CID => HeaderCode::CID,
            HeaderCode::CCL => HeaderCode::CCL,
            HeaderCode::DTM => HeaderCode::DTM,
            HeaderCode::FTY => HeaderCode::FTY,
            HeaderCode::RFW => HeaderCode::RFW,
            HeaderCode::RHW => HeaderCode::RHW,
            HeaderCode::GPS => HeaderCode::GPS,
            HeaderCode::PRS => HeaderCode::PRS,
            HeaderCode::FRS => HeaderCode::FRS,
            HeaderCode::MOP => HeaderCode::MOP,
            HeaderCode::Other(s) => HeaderCode::Other(s.clone()),
        }
    }
}

/// A code and its value are of the same kind.
proof fn lemma_same_kind(code: HeaderCode)
    ensures
        code@ is DTE <==> code is DTE,
        code@ is PLT <==> code is PLT,
        code@ is CM2 <==> code is CM2,
        code@ is DOB <==> code is DOB,
        code@ is DB1 <==> code is DB1,
        code@ is DB2 <==> code is DB2,
        code@ is GTY <==> code is GTY,
        code@ is GID <==> code is GID,
        code@ is CID <==> code is CID,
        code@ is CCL <==> code is CCL,
        code@ is DTM <==> code is DTM,
        code@ is FTY <==> code is FTY,
        code@ is RFW <==> code is RFW,
        code@ is RHW <==> code is RHW,
        code@ is GPS <==> code is GPS,
        code@ is PRS <==> code is PRS,
        code@ is FRS <==> code is FRS,
        code@ is MOP <==> code is MOP,
        code@ is Other <==> code is Other,
{
    match code {
        HeaderCode::DTE => {},
        HeaderCode::PLT => {},
        HeaderCode::CM2 => {},
        HeaderCode::DOB => {},
        HeaderCode::DB1 => {},
        HeaderCode::DB2 => {},
        HeaderCode::GTY => {},
        HeaderCode::GID => {},
        HeaderCode::CID => {},
        HeaderCode::CCL => {},
        HeaderCode::DTM => {},
        HeaderCode::FTY => {},
        HeaderCode::RFW => {},
        HeaderCode::RHW => {},
        HeaderCode::GPS => {},
        HeaderCode::PRS => {},
        HeaderCode::FRS => {},
        HeaderCode::MOP => {},
        HeaderCode::Other(_) => {},
    }
}

impl HeaderCode {
    /// The header code that `bytes` name. The caller knows them to be ASCII.
    pub fn from_bytes_unchecked(bytes: &[u8]) -> (r: HeaderCode)
        requires
            is_ascii_bytes(bytes@),
        ensures
            r@ == header_code_of(byte_chars(bytes@)),
    {
        if bytes.len() == 3 {
            let (a, b, c) = (bytes[0], bytes[1], bytes[2]);
            if a == LETTER_D && b == LETTER_T && c == LETTER_E {
                return HeaderCode::DTE;
            } else if a == LETTER_P && b == LETTER_L && c == LETTER_T {
                return HeaderCode::PLT;
            } else if a == LETTER_C && b == LETTER_M && c == DIGIT_2 {
                return HeaderCode::CM2;
            } else if a == LETTER_D && b == LETTER_O && c == LETTER_B {
                return HeaderCode::DOB;
            } else if a == LETTER_D && b == LETTER_B && c == DIGIT_1 {
                return HeaderCode::DB1;
            } else if a == LETTER_D && b == LETTER_B && c == DIGIT_2 {
                return HeaderCode::DB2;
            } else if a == LETTER_G && b == LETTER_T && c == LETTER_Y {
                return HeaderCode::GTY;
            } else if a == LETTER_G && b == LETTER_I && c == LETTER_D {
                return HeaderCode::GID;
            } else if a == LETTER_C && b == LETTER_I && c == LETTER_D {
                return HeaderCode::CID;
            } else if a == LETTER_C && b == LETTER_C && c == LETTER_L {
                return HeaderCode::CCL;
            } else if a == LETTER_D && b == LETTER_T && c == LETTER_M {
                return HeaderCode::DTM;
            } else if a == LETTER_F && b == LETTER_T && c == LETTER_Y {
                return HeaderCode::FTY;
            } else if a == LETTER_R && b == LETTER_F && c == LETTER_W {
                return HeaderCode::RFW;
            } else if a == LETTER_R && b == LETTER_H && c == LETTER_W {
                return HeaderCode::RHW;
            } else if a == LETTER_G && b == LETTER_P && c == LETTER_S {
                return HeaderCode::GPS;
            } else if a == LETTER_P && b == LETTER_R && c == LETTER_S {
                return HeaderCode::PRS;
            } else if a == LETTER_F && b == LETTER_R && c == LETTER_S {
                return HeaderCode::FRS;
            } else if a == LETTER_M && b == LETTER_O && c == LETTER_P {
                return HeaderCode::MOP;
            }
        }
        match decode_ascii(bytes) {
            Some(s) => HeaderCode::Other(s),
            None => HeaderCode::Other(String::new()),
        }
    }

    /// Whether the two are the same code.
    pub fn same_as(&self, other: &Self) -> (r: bool)
        ensures
            r == (self@ == other@),
    {
        proof {
            lemma_same_kind(*other);
        }
        match self {
            HeaderCode::DTE => matches!(other, HeaderCode::DTE),
            HeaderCode::PLT => matches!(other, HeaderCode::PLT),
            HeaderCode::CM2 => matches!(other, HeaderCode::CM2),
            HeaderCode::DOB => matches!(other, HeaderCode::DOB),
            HeaderCode::DB1 => matches!(other, HeaderCode::DB1),
            HeaderCode::DB2 => matches!(other, HeaderCode::DB2),
            HeaderCode::GTY => matches!(other, HeaderCode::GTY),
            HeaderCode::GID => matches!(other, HeaderCode::GID),
            HeaderCode::CID => matches!(other, HeaderCode::CID),
            HeaderCode::CCL => matches!(other, HeaderCode::CCL),
            HeaderCode::DTM => matches!(other, HeaderCode::DTM),
            HeaderCode::FTY => matches!(other, HeaderCode::FTY),
            HeaderCode::RFW => matches!(other, HeaderCode::RFW),
            HeaderCode::RHW => matches!(other, HeaderCode::RHW),
            HeaderCode::GPS => matches!(other, HeaderCode::GPS),
            HeaderCode::PRS => matches!(other, HeaderCode::PRS),
            HeaderCode::FRS => matches!(other, HeaderCode::FRS),
            HeaderCode::MOP => matches!(other, HeaderCode::MOP),
            HeaderCode::Other(a) => match other {
                HeaderCode::Other(b) => *a == *b,
                _ => false,
            },
        }
    }

    /// The header code that `s` names. Any text names one: what is no known code
    /// is kept as it is.
    pub fn from_text(s: &str) -> (r: HeaderCode)
        ensures
            r@ == header_code_of(s@),
    {
        if s.is_ascii() {
            let bytes = s.as_bytes();
            proof {
                is_ascii_spec_bytes(s);
                vstd::utf8::is_ascii_chars_nat_bound(s@);
                assert(is_ascii_bytes(bytes@));
                assert(byte_chars(bytes@) =~= s@);
            }
            HeaderCode::from_bytes_unchecked(bytes)
        } else {
            HeaderCode::Other(s.to_owned())
        }
    }
}

impl core::str::FromStr for HeaderCode {
    type Err = core::convert::Infallible;

    fn from_str(s: &str) -> (r: Result<HeaderCode, core::convert::Infallible>)
        ensures
            r matches Ok(code) && code@ == header_code_of(s@),
    {
        Ok(HeaderCode::from_text(s))
    }
}

} // verus!
