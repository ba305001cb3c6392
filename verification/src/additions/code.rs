//! The three-letter codes of the additions to B and K records.

use vstd::prelude::*;
use vstd::string::is_ascii_spec_bytes;
use vstd::string::StringSliceAdditionalSpecFns;
use crate::ascii::{
    LETTER_A,
    LETTER_B,
    LETTER_C,
    LETTER_D,
    LETTER_E,
    LETTER_F,
    LETTER_H,
    LETTER_I,
    LETTER_L,
    LETTER_M,
    LETTER_N,
    LETTER_O,
    LETTER_P,
    LETTER_R,
    LETTER_S,
    LETTER_T,
    LETTER_U,
    LETTER_V,
    LETTER_W,
    LETTER_X,
    LETTER_Y,
    LETTER_Z,
};
use crate::text::{byte_chars, decode_ascii, is_ascii_bytes};

verus! {

/// What an addition to a B or K record holds.
#[derive(Debug, PartialEq, Eq, Hash)]
pub enum AdditionCode {
    /// Linear acceleration along the X axis (longitudinal).
    ACX,
    /// Linear acceleration along the Y axis (lateral).
    ACY,
    /// Linear acceleration along the Z axis (vertical).
    ACZ,
    /// Angular acceleration about the X axis (pitch).
    ANX,
    /// Angular acceleration about the Y axis (roll).
    ANY,
    /// Angular acceleration about the Z axis (yaw).
    ABZ,
    /// Displacement east in metres, negative for west.
    DAE,
    /// Displacement north in metres, negative for south.
    DAN,
    /// Environmental noise level, three digits.
    ENL,
    /// Fix accuracy: the estimated position error in metres, three digits.
    FXA,
    /// Magnetic heading in degrees clockwise from north, three digits.
    HDM,
    /// True heading in degrees clockwise from north, three digits.
    HDT,
    /// Indicated airspeed in kilometres per hour.
    IAS,
    /// Further decimal places of the minutes of latitude.
    LAD,
    /// Further decimal places of the minutes of longitude.
    LOD,
    /// Means of propulsion: the signal of an engine sensor, three digits.
    MOP,
    /// Outside air temperature in degrees Celsius.
    OAT,
    /// RAIM, a parameter of the GPS receiver.
    RAI,
    /// Record addition defined by the manufacturer.
    REX,
    /// Satellites in use, two characters.
    SIU,
    /// True airspeed.
    TAS,
    /// Decimal places of the seconds of the time.
    TDS,
    /// Total energy altitude in metres.
    TEN,
    /// Uncompensated variometer: vertical speed in tenths of metres per second.
    VAR,
    /// Compensated variometer: vertical speed in tenths of metres per second.
    VAT,
    /// Vertical fix accuracy in metres, three characters.
    VXA,
    /// Direction that the wind comes from, in degrees clockwise from north.
    WDI,
    /// Wind speed in kilometres per hour.
    WSP,
    /// A code that this library does not know, kept as it was written.
    Other(String),
}

/// The mathematical value of a [`AdditionCode`].
pub enum AdditionCodeView {
    ACX,
    ACY,
    ACZ,
    ANX,
    ANY,
    ABZ,
    DAE,
    DAN,
    ENL,
    FXA,
    HDM,
    HDT,
    IAS,
    LAD,
    LOD,
    MOP,
    OAT,
    RAI,
    REX,
    SIU,
    TAS,
    TDS,
    TEN,
    VAR,
    VAT,
    VXA,
    WDI,
    WSP,
    Other(Seq<char>),
}

impl View for AdditionCode {
    type V = AdditionCodeView;

    open spec fn view(&self) -> AdditionCodeView {
        match *self {
            AdditionCode::ACX => AdditionCodeView::ACX,
            AdditionCode::ACY => AdditionCodeView::ACY,
            AdditionCode::ACZ => AdditionCodeView::ACZ,
            AdditionCode::ANX => AdditionCodeView::ANX,
            AdditionCode::ANY => AdditionCodeView::ANY,
            AdditionCode::ABZ => AdditionCodeView::ABZ,
            AdditionCode::DAE => AdditionCodeView::DAE,
            AdditionCode::DAN => AdditionCodeView::DAN,
            AdditionCode::ENL => AdditionCodeView::ENL,
            AdditionCode::FXA => AdditionCodeView::FXA,
            AdditionCode::HDM => AdditionCodeView::HDM,
            AdditionCode::HDT => AdditionCodeView::HDT,
            AdditionCode::IAS => AdditionCodeView::IAS,
            AdditionCode::LAD => AdditionCodeView::LAD,
            AdditionCode::LOD => AdditionCodeView::LOD,
            AdditionCode::MOP => AdditionCodeView::MOP,
            AdditionCode::OAT => AdditionCodeView::OAT,
            AdditionCode::RAI => AdditionCodeView::RAI,
            AdditionCode::REX => AdditionCodeView::REX,
            AdditionCode::SIU => AdditionCodeView::SIU,
            AdditionCode::TAS => AdditionCodeView::TAS,
            AdditionCode::TDS => AdditionCodeView::TDS,
            AdditionCode::TEN => AdditionCodeView::TEN,
            AdditionCode::VAR => AdditionCodeView::VAR,
            AdditionCode::VAT => AdditionCodeView::VAT,
            AdditionCode::VXA => AdditionCodeView::VXA,
            AdditionCode::WDI => AdditionCodeView::WDI,
            AdditionCode::WSP => AdditionCodeView::WSP,
            AdditionCode::Other(s) => AdditionCodeView::Other(s@),
        }
    }
}

/// The addition code that the text `t` names: one of the known codes where `t` is its
/// three characters, in upper case, and else `t` itself, kept as it is.
pub open spec fn addition_code_of(t: Seq<char>) -> AdditionCodeView {
    if t.len() != 3 {
        AdditionCodeView::Other(t)
    } else if t[0] == 'A' && t[1] == 'C' && t[2] == 'X' {
        AdditionCodeView::ACX
    } else if t[0] == 'A' && t[1] == 'C' && t[2] == 'Y' {
        AdditionCodeView::ACY
    } else if t[0] == 'A' && t[1] == 'C' && t[2] == 'Z' {
        AdditionCodeView::ACZ
    } else if t[0] == 'A' && t[1] == 'N' && t[2] == 'X' {
        AdditionCodeView::ANX
    } else if t[0] == 'A' && t[1] == 'N' && t[2] == 'Y' {
        AdditionCodeView::ANY
    } else if t[0] == 'A' && t[1] == 'B' && t[2] == 'Z' {
        AdditionCodeView::ABZ
    } else if t[0] == 'D' && t[1] == 'A' && t[2] == 'E' {
        AdditionCodeView::DAE
    } else if t[0] == 'D' && t[1] == 'A' && t[2] == 'N' {
        AdditionCodeView::DAN
    } else if t[0] == 'E' && t[1] == 'N' && t[2] == 'L' {
        AdditionCodeView::ENL
    } else if t[0] == 'F' && t[1] == 'X' && t[2] == 'A' {
        AdditionCodeView::FXA
    } else if t[0] == 'H' && t[1] == 'D' && t[2] == 'M' {
        AdditionCodeView::HDM
    } else if t[0] == 'H' && t[1] == 'D' && t[2] == 'T' {
        AdditionCodeView::HDT
    } else if t[0] == 'I' && t[1] == 'A' && t[2] == 'S' {
        AdditionCodeView::IAS
    } else if t[0] == 'L' && t[1] == 'A' && t[2] == 'D' {
        AdditionCodeView::LAD
    } else if t[0] == 'L' && t[1] == 'O' && t[2] == 'D' {
        AdditionCodeView::LOD
    } else if t[0] == 'M' && t[1] == 'O' && t[2] == 'P' {
        AdditionCodeView::MOP
    } else if t[0] == 'O' && t[1] == 'A' && t[2] == 'T' {
        AdditionCodeView::OAT
    } else if t[0] == 'R' && t[1] == 'A' && t[2] == 'I' {
        AdditionCodeView::RAI
    } else if t[0] == 'R' && t[1] == 'E' && t[2] == 'X' {
        AdditionCodeView::REX
    } else if t[0] == 'S' && t[1] == 'I' && t[2] == 'U' {
        AdditionCodeView::SIU
    } else if t[0] == 'T' && t[1] == 'A' && t[2] == 'S' {
        AdditionCodeView::TAS
    } else if t[0] == 'T' && t[1] == 'D' && t[2] == 'S' {
        AdditionCodeView::TDS
    } else if t[0] == 'T' && t[1] == 'E' && t[2] == 'N' {
        AdditionCodeView::TEN
    } else if t[0] == 'V' && t[1] == 'A' && t[2] == 'R' {
        AdditionCodeView::VAR
    } else if t[0] == 'V' && t[1] == 'A' && t[2] == 'T' {
        AdditionCodeView::VAT
    } else if t[0] == 'V' && t[1] == 'X' && t[2] == 'A' {
        AdditionCodeView::VXA
    } else if t[0] == 'W' && t[1] == 'D' && t[2] == 'I' {
        AdditionCodeView::WDI
    } else if t[0] == 'W' && t[1] == 'S' && t[2] == 'P' {
        AdditionCodeView::WSP
    } else {
        AdditionCodeView::Other(t)
    }
}

impl Clone for AdditionCode {
    fn clone(&self) -> (r: Self)
        ensures
            r@ == self@,
    {
        match self {
            AdditionCode::ACX => AdditionCode::ACX,
            AdditionCode::ACY => AdditionCode::ACY,
            AdditionCode::ACZ => AdditionCode::ACZ,
            AdditionCode::ANX => AdditionCode::ANX,
            AdditionCode::ANY => AdditionCode::ANY,
            AdditionCode::ABZ => AdditionCode::ABZ,
            AdditionCode::DAE => AdditionCode::DAE,
            AdditionCode::DAN => AdditionCode::DAN,
            AdditionCode::ENL => AdditionCode::ENL,
            AdditionCode::FXA => AdditionCode::FXA,
            AdditionCode::HDM => AdditionCode::HDM,
            AdditionCode::HDT => AdditionCode::HDT,
            AdditionCode::IAS => AdditionCode::IAS,
            AdditionCode::LAD => AdditionCode::LAD,
            AdditionCode::LOD => AdditionCode::LOD,
            AdditionCode::MOP => AdditionCode::MOP,
            AdditionCode::OAT => AdditionCode::OAT,
            AdditionCode::RAI => AdditionCode::RAI,
            AdditionCode::REX => AdditionCode::REX,
            AdditionCode::SIU => AdditionCode::SIU,
            AdditionCode::TAS => AdditionCode::TAS,
            AdditionCode::TDS => AdditionCode::TDS,
            AdditionCode::TEN => AdditionCode::TEN,
            AdditionCode::VAR => AdditionCode::VAR,
            AdditionCode::VAT => AdditionCode::VAT,
            AdditionCode::VXA => AdditionCode::VXA,
            AdditionCode::WDI => AdditionCode::WDI,
            AdditionCode::WSP => AdditionCode::WSP,
            AdditionCode::Other(s) => AdditionCode::Other(s.clone()),
        }
    }
}

/// A code and its value are of the same kind.
proof fn lemma_same_kind(code: AdditionCode)
    ensures
        code@ is ACX <==> code is ACX,
        code@ is ACY <==> code is ACY,
        code@ is ACZ <==> code is ACZ,
        code@ is ANX <==> code is ANX,
        code@ is ANY <==> code is ANY,
        code@ is ABZ <==> code is ABZ,
        code@ is DAE <==> code is DAE,
        code@ is DAN <==> code is DAN,
        code@ is ENL <==> code is ENL,
        code@ is FXA <==> code is FXA,
        code@ is HDM <==> code is HDM,
        code@ is HDT <==> code is HDT,
        code@ is IAS <==> code is IAS,
        code@ is LAD <==> code is LAD,
        code@ is LOD <==> code is LOD,
        code@ is MOP <==> code is MOP,
        code@ is OAT <==> code is OAT,
        code@ is RAI <==> code is RAI,
        code@ is REX <==> code is REX,
        code@ is SIU <==> code is SIU,
        code@ is TAS <==> code is TAS,
        code@ is TDS <==> code is TDS,
        code@ is TEN <==> code is TEN,
        code@ is VAR <==> code is VAR,
        code@ is VAT <==> code is VAT,
        code@ is VXA <==> code is VXA,
        code@ is WDI <==> code is WDI,
        code@ is WSP <==> code is WSP,
        code@ is Other <==> code is Other,
{
    match code {
        AdditionCode::ACX => {},
        AdditionCode::ACY => {},
        AdditionCode::ACZ => {},
        AdditionCode::ANX => {},
        AdditionCode::ANY => {},
        AdditionCode::ABZ => {},
        AdditionCode::DAE => {},
        AdditionCode::DAN => {},
        AdditionCode::ENL => {},
        AdditionCode::FXA => {},
        AdditionCode::HDM => {},
        AdditionCode::HDT => {},
        AdditionCode::IAS => {},
        AdditionCode::LAD => {},
        AdditionCode::LOD => {},
        AdditionCode::MOP => {},
        AdditionCode::OAT => {},
        AdditionCode::RAI => {},
        AdditionCode::REX => {},
        AdditionCode::SIU => {},
        AdditionCode::TAS => {},
        AdditionCode::TDS => {},
        AdditionCode::TEN => {},
        AdditionCode::VAR => {},
        AdditionCode::VAT => {},
        AdditionCode::VXA => {},
        AdditionCode::WDI => {},
        AdditionCode::WSP => {},
        AdditionCode::Other(_) => {},
    }
}

impl AdditionCode {
    /// The addition code that `bytes` name. The caller knows them to be ASCII.
    pub fn from_bytes_unchecked(bytes: &[u8]) -> (r: AdditionCode)
        requires
            is_ascii_bytes(bytes@),
        ensures
            r@ == addition_code_of(byte_chars(bytes@)),
    {
        if bytes.len() == 3 {
            let (a, b, c) = (bytes[0], bytes[1], bytes[2]);
            if a == LETTER_A && b == LETTER_C && c == LETTER_X {
                return AdditionCode::ACX;
            } else if a == LETTER_A && b == LETTER_C && c == LETTER_Y {
                return AdditionCode::ACY;
            } else if a == LETTER_A && b == LETTER_C && c == LETTER_Z {
                return AdditionCode::ACZ;
            } else if a == LETTER_A && b == LETTER_N && c == LETTER_X {
                return AdditionCode::ANX;
            } else if a == LETTER_A && b == LETTER_N && c == LETTER_Y {
                return AdditionCode::ANY;
            } else if a == LETTER_A && b == LETTER_B && c == LETTER_Z {
                return AdditionCode::ABZ;
            } else if a == LETTER_D && b == LETTER_A && c == LETTER_E {
                return AdditionCode::DAE;
            } else if a == LETTER_D && b == LETTER_A && c == LETTER_N {
                return AdditionCode::DAN;
            } else if a == LETTER_E && b == LETTER_N && c == LETTER_L {
                return AdditionCode::ENL;
            } else if a == LETTER_F && b == LETTER_X && c == LETTER_A {
                return AdditionCode::FXA;
            } else if a == LETTER_H && b == LETTER_D && c == LETTER_M {
                return AdditionCode::HDM;
            } else if a == LETTER_H && b == LETTER_D && c == LETTER_T {
                return AdditionCode::HDT;
            } else if a == LETTER_I && b == LETTER_A && c == LETTER_S {
                return AdditionCode::IAS;
            } else if a == LETTER_L && b == LETTER_A && c == LETTER_D {
                return AdditionCode::LAD;
            } else if a == LETTER_L && b == LETTER_O && c == LETTER_D {
                return AdditionCode::LOD;
            } else if a == LETTER_M && b == LETTER_O && c == LETTER_P {
                return AdditionCode::MOP;
            } else if a == LETTER_O && b == LETTER_A && c == LETTER_T {
                return AdditionCode::OAT;
            } else if a == LETTER_R && b == LETTER_A && c == LETTER_I {
                return AdditionCode::RAI;
            } else if a == LETTER_R && b == LETTER_E && c == LETTER_X {
                return AdditionCode::REX;
            } else if a == LETTER_S && b == LETTER_I && c == LETTER_U {
                return AdditionCode::SIU;
            } else if a == LETTER_T && b == LETTER_A && c == LETTER_S {
                return AdditionCode::TAS;
            } else if a == LETTER_T && b == LETTER_D && c == LETTER_S {
                return AdditionCode::TDS;
            } else if a == LETTER_T && b == LETTER_E && c == LETTER_N {
                return AdditionCode::TEN;
            } else if a == LETTER_V && b == LETTER_A && c == LETTER_R {
                return AdditionCode::VAR;
            } else if a == LETTER_V && b == LETTER_A && c == LETTER_T {
                return AdditionCode::VAT;
            } else if a == LETTER_V && b == LETTER_X && c == LETTER_A {
                return AdditionCode::VXA;
            } else if a == LETTER_W && b == LETTER_D && c == LETTER_I {
                return AdditionCode::WDI;
            } else if a == LETTER_W && b == LETTER_S && c == LETTER_P {
                return AdditionCode::WSP;
            }
        }
        match decode_ascii(bytes) {
            Some(s) => AdditionCode::Other(s),
            None => AdditionCode::Other(String::new()),
        }
    }

    /// Whether the two are the same code.
    pub fn same_as(&self, other: &Self) -> (r: bool)
        ensures
            r == (self@ == other@),
    {
        proof {
            lemma_same_kind(*other);
        }
        match self {
            AdditionCode::ACX => matches!(other, AdditionCode::ACX),
            AdditionCode::ACY => matches!(other, AdditionCode::ACY),
            AdditionCode::ACZ => matches!(other, AdditionCode::ACZ),
            AdditionCode::ANX => matches!(other, AdditionCode::ANX),
            AdditionCode::ANY => matches!(other, AdditionCode::ANY),
            AdditionCode::ABZ => matches!(other, AdditionCode::ABZ),
            AdditionCode::DAE => matches!(other, AdditionCode::DAE),
            AdditionCode::DAN => matches!(other, AdditionCode::DAN),
            AdditionCode::ENL => matches!(other, AdditionCode::ENL),
            AdditionCode::FXA => matches!(other, AdditionCode::FXA),
            AdditionCode::HDM => matches!(other, AdditionCode::HDM),
            AdditionCode::HDT => matches!(other, AdditionCode::HDT),
            AdditionCode::IAS => matches!(other, AdditionCode::IAS),
            AdditionCode::LAD => matches!(other, AdditionCode::LAD),
            AdditionCode::LOD => matches!(other, AdditionCode::LOD),
            AdditionCode::MOP => matches!(other, AdditionCode::MOP),
            AdditionCode::OAT => matches!(other, AdditionCode::OAT),
            AdditionCode::RAI => matches!(other, AdditionCode::RAI),
            AdditionCode::REX => matches!(other, AdditionCode::REX),
            AdditionCode::SIU => matches!(other, AdditionCode::SIU),
            AdditionCode::TAS => matches!(other, AdditionCode::TAS),
            AdditionCode::TDS => matches!(other, AdditionCode::TDS),
            AdditionCode::TEN => matches!(other, AdditionCode::TEN),
            AdditionCode::VAR => matches!(other, AdditionCode::VAR),
            AdditionCode::VAT => matches!(other, AdditionCode::VAT),
            AdditionCode::VXA => matches!(other, AdditionCode::VXA),
            AdditionCode::WDI => matches!(other, AdditionCode::WDI),
            AdditionCode::WSP => matches!(other, AdditionCode::WSP),
            AdditionCode::Other(a) => match other {
                AdditionCode::Other(b) => *a == *b,
                _ => false,
            },
        }
    }

    /// The addition code that `s` names. Any text names one: what is no known code
    /// is kept as it is.
    pub fn from_text(s: &str) -> (r: AdditionCode)
        ensures
            r@ == addition_code_of(s@),
    {
        if s.is_ascii() {
            let bytes = s.as_bytes();
            proof {
                is_ascii_spec_bytes(s);
                vstd::utf8::is_ascii_chars_nat_bound(s@);
                assert(is_ascii_bytes(bytes@));
                assert(byte_chars(bytes@) =~= s@);
            }
            AdditionCode::from_bytes_unchecked(bytes)
        } else {
            AdditionCode::Other(s.to_owned())
        }
    }
}

impl core::str::FromStr for AdditionCode {
    type Err = core::convert::Infallible;

    fn from_str(s: &str) -> (r: Result<AdditionCode, core::convert::Infallible>)
        ensures
            r matches Ok(code) && code@ == addition_code_of(s@),
    {
        Ok(AdditionCode::from_text(s))
    }
}

} // verus!
