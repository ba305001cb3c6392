//! The three-letter codes of events.

use vstd::prelude::*;
use vstd::string::is_ascii_spec_bytes;
use vstd::string::StringSliceAdditionalSpecFns;
use crate::ascii::{
    LETTER_A,
    LETTER_B,
    LETTER_C,
    LETTER_D,
    LETTER_E,
    LETTER_F,
    LETTER_G,
    LETTER_H,
    LETTER_I,
    LETTER_L,
    LETTER_M,
    LETTER_N,
    LETTER_O,
    LETTER_P,
    LETTER_S,
    LETTER_T,
    LETTER_U,
    LETTER_V,
};
use crate::text::{byte_chars, decode_ascii, is_ascii_bytes};

verus! {

/// What happened at an event.
#[derive(Debug, PartialEq, Eq, Hash)]
pub enum EventCode {
    /// Altimeter pressure setting in hundredths of a hectopascal.
    ATS,
    /// Blind flying instrument switched on or off.
    BFI,
    /// Camera connected.
    CCN,
    /// Camera disconnected.
    CDC,
    /// Change of geodetic datum.
    CGD,
    /// Engine on.
    EON,
    /// Engine off.
    EOF,
    /// Engine down.
    EDN,
    /// Engine up.
    EUP,
    /// Finish.
    FIN,
    /// Flap position.
    FLP,
    /// External GPS receiver connected.
    GCN,
    /// External GPS receiver disconnected.
    GDC,
    /// Low voltage.
    LOV,
    /// MacCready setting.
    MAC,
    /// On task: an attempt at the task has begun.
    ONT,
    /// Pilot event: the pilot pressed the event button.
    PEV,
    /// Photo taken.
    PHO,
    /// Start.
    STA,
    /// Turn point confirmed.
    TPC,
    /// Undercarriage up or down.
    UND,
    /// A code that this library does not know, kept as it was written.
    Other(String),
}

/// The mathematical value of a [`EventCode`].
pub enum EventCodeView {
    ATS,
    BFI,
    CCN,
    CDC,
    CGD,
    EON,
    EOF,
    EDN,
    EUP,
    FIN,
    FLP,
    GCN,
    GDC,
    LOV,
    MAC,
    ONT,
    PEV,
    PHO,
    STA,
    TPC,
    UND,
    Other(Seq<char>),
}

impl View for EventCode {
    type V = EventCodeView;

    open spec fn view(&self) -> EventCodeView {
        match *self {
            EventCode::ATS => EventCodeView::ATS,
            EventCode::BFI => EventCodeView::BFI,
            EventCode::CCN => EventCodeView::CCN,
            EventCode::CDC => EventCodeView::CDC,
            EventCode::CGD => EventCodeView::CGD,
            EventCode::EON => EventCodeView::EON,
            EventCode::EOF => EventCodeView::EOF,
            EventCode::EDN => EventCodeView::EDN,
            EventCode::EUP => EventCodeView::EUP,
            EventCode::FIN => EventCodeView::FIN,
            EventCode::FLP => EventCodeView::FLP,
            EventCode::GCN => EventCodeView::GCN,
            EventCode::GDC => EventCodeView::GDC,
            EventCode::LOV => EventCodeView::LOV,
            EventCode::MAC => EventCodeView::MAC,
            EventCode::ONT => EventCodeView::ONT,
            EventCode::PEV => EventCodeView::PEV,
            EventCode::PHO => EventCodeView::PHO,
            EventCode::STA => EventCodeView::STA,
            EventCode::TPC => EventCodeView::TPC,
            EventCode::UND => EventCodeView::UND,
            EventCode::Other(s) => EventCodeView::Other(s@),
        }
    }
}

/// The event code that the text `t` names: one of the known codes where `t` is its
/// three characters, in upper case, and else `t` itself, kept as it is.
pub open spec fn event_code_of(t: Seq<char>) -> EventCodeView {
    if t.len() != 3 {
        EventCodeView::Other(t)
    } else if t[0] == 'A' && t[1] == 'T' && t[2] == 'S' {
        EventCodeView::ATS
    } else if t[0] == 'B' && t[1] == 'F' && t[2] == 'I' {
        EventCodeView::BFI
    } else if t[0] == 'C' && t[1] == 'C' && t[2] == 'N' {
        EventCodeView::CCN
    } else if t[0] == 'C' && t[1] == 'D' && t[2] == 'C' {
        EventCodeView::CDC
    } else if t[0] == 'C' && t[1] == 'G' && t[2] == 'D' {
        EventCodeView::CGD
    } else if t[0] == 'E' && t[1] == 'O' && t[2] == 'N' {
        EventCodeView::EON
    } else if t[0] == 'E' && t[1] == 'O' && t[2] == 'F' {
        EventCodeView::EOF
    } else if t[0] == 'E' && t[1] == 'D' && t[2] == 'N' {
        EventCodeView::EDN
    } else if t[0] == 'E' && t[1] == 'U' && t[2] == 'P' {
        EventCodeView::EUP
    } else if t[0] == 'F' && t[1] == 'I' && t[2] == 'N' {
        EventCodeView::FIN
    } else if t[0] == 'F' && t[1] == 'L' && t[2] == 'P' {
        EventCodeView::FLP
    } else if t[0] == 'G' && t[1] == 'C' && t[2] == 'N' {
        EventCodeView::GCN
    } else if t[0] == 'G' && t[1] == 'D' && t[2] == 'C' {
        EventCodeView::GDC
    } else if t[0] == 'L' && t[1] == 'O' && t[2] == 'V' {
        EventCodeView::LOV
    } else if t[0] == 'M' && t[1] == 'A' && t[2] == 'C' {
        EventCodeView::MAC
    } else if t[0] == 'O' && t[1] == 'N' && t[2] == 'T' {
        EventCodeView::ONT
    } else if t[0] == 'P' && t[1] == 'E' && t[2] == 'V' {
        EventCodeView::PEV
    } else if t[0] == 'P' && t[1] == 'H' && t[2] == 'O' {
        EventCodeView::PHO
    } else if t[0] == 'S' && t[1] == 'T' && t[2] == 'A' {
        EventCodeView::STA
    } else if t[0] == 'T' && t[1] == 'P' && t[2] == 'C' {
        EventCodeView::TPC
    } else if t[0] == 'U' && t[1] == 'N' && t[2] == 'D' {
        EventCodeView::UND
    } else {
        EventCodeView::Other(t)
    }
}

impl Clone for EventCode {
    fn clone(&self) -> (r: Self)
        ensures
            r@ == self@,
    {
        match self {
            EventCode::ATS => EventCode::ATS,
            EventCode::BFI => EventCode::BFI,
            EventCode::CCN => EventCode::CCN,
            EventCode::CDC => EventCode::CDC,
            EventCode::CGD => EventCode::CGD,
            EventCode::EON => EventCode::EON,
            EventCode::EOF => EventCode::EOF,
            EventCode::EDN => EventCode::EDN,
            EventCode::EUP => EventCode::EUP,
            EventCode::FIN => EventCode::FIN,
            EventCode::FLP => EventCode::FLP,
            EventCode::GCN => EventCode::GCN,
            EventCode::GDC => EventCode::GDC,
            EventCode::LOV => EventCode::LOV,
            EventCode::MAC => EventCode::MAC,
            EventCode::ONT => EventCode::ONT,
            EventCode::PEV => EventCode::PEV,
            EventCode::PHO => EventCode::PHO,
            EventCode::STA => EventCode::STA,
            EventCode::TPC => EventCode::TPC,
            EventCode::UND => EventCode::UND,
            EventCode::Other(s) => EventCode::Other(s.clone()),
        }
    }
}

/// A code and its value are of the same kind.
proof fn lemma_same_kind(code: EventCode)
    ensures
        code@ is ATS <==> code is ATS,
        code@ is BFI <==> code is BFI,
        code@ is CCN <==> code is CCN,
        code@ is CDC <==> code is CDC,
        code@ is CGD <==> code is CGD,
        code@ is EON <==> code is EON,
        code@ is EOF <==> code is EOF,
        code@ is EDN <==> code is EDN,
        code@ is EUP <==> code is EUP,
        code@ is FIN <==> code is FIN,
        code@ is FLP <==> code is FLP,
        code@ is GCN <==> code is GCN,
        code@ is GDC <==> code is GDC,
        code@ is LOV <==> code is LOV,
        code@ is MAC <==> code is MAC,
        code@ is ONT <==> code is ONT,
        code@ is PEV <==> code is PEV,
        code@ is PHO <==> code is PHO,
        code@ is STA <==> code is STA,
        code@ is TPC <==> code is TPC,
        code@ is UND <==> code is UND,
        code@ is Other <==> code is Other,
{
    match code {
        EventCode::ATS => {},
        EventCode::BFI => {},
        EventCode::CCN => {},
        EventCode::CDC => {},
        EventCode::CGD => {},
        EventCode::EON => {},
        EventCode::EOF => {},
        EventCode::EDN => {},
        EventCode::EUP => {},
        EventCode::FIN => {},
        EventCode::FLP => {},
        EventCode::GCN => {},
        EventCode::GDC => {},
        EventCode::LOV => {},
        EventCode::MAC => {},
        EventCode::ONT => {},
        EventCode::PEV => {},
        EventCode::PHO => {},
        EventCode::STA => {},
        EventCode::TPC => {},
        EventCode::UND => {},
        EventCode::Other(_) => {},
    }
}

impl EventCode {
    /// The event code that `bytes` name. The caller knows them to be ASCII.
    pub fn from_bytes_unchecked(bytes: &[u8]) -> (r: EventCode)
        requires
            is_ascii_bytes(bytes@),
        ensures
            r@ == event_code_of(byte_chars(bytes@)),
    {
        if bytes.len() == 3 {
            let (a, b, c) = (bytes[0], bytes[1], bytes[2]);
            if a == LETTER_A && b == LETTER_T && c == LETTER_S {
                return EventCode::ATS;
            } else if a == LETTER_B && b == LETTER_F && c == LETTER_I {
                return EventCode::BFI;
            } else if a == LETTER_C && b == LETTER_C && c == LETTER_N {
                return EventCode::CCN;
            } else if a == LETTER_C && b == LETTER_D && c == LETTER_C {
                return EventCode::CDC;
            } else if a == LETTER_C && b == LETTER_G && c == LETTER_D {
                return EventCode::CGD;
            } else if a == LETTER_E && b == LETTER_O && c == LETTER_N {
                return EventCode::EON;
            } else if a == LETTER_E && b == LETTER_O && c == LETTER_F {
                return EventCode::EOF;
            } else if a == LETTER_E && b == LETTER_D && c == LETTER_N {
                return EventCode::EDN;
            } else if a == LETTER_E && b == LETTER_U && c == LETTER_P {
                return EventCode::EUP;
            } else if a == LETTER_F && b == LETTER_I && c == LETTER_N {
                return EventCode::FIN;
            } else if a == LETTER_F && b == LETTER_L && c == LETTER_P {
                return EventCode::FLP;
            } else if a == LETTER_G && b == LETTER_C && c == LETTER_N {
                return EventCode::GCN;
            } else if a == LETTER_G && b == LETTER_D && c == LETTER_C {
                return EventCode::GDC;
            } else if a == LETTER_L && b == LETTER_O && c == LETTER_V {
                return EventCode::LOV;
            } else if a == LETTER_M && b == LETTER_A && c == LETTER_C {
                return EventCode::MAC;
            } else if a == LETTER_O && b == LETTER_N && c == LETTER_T {
                return EventCode::ONT;
            } else if a == LETTER_P && b == LETTER_E && c == LETTER_V {
                return EventCode::PEV;
            } else if a == LETTER_P && b == LETTER_H && c == LETTER_O {
                return EventCode::PHO;
            } else if a == LETTER_S && b == LETTER_T && c == LETTER_A {
                return EventCode::STA;
            } else if a == LETTER_T && b == LETTER_P && c == LETTER_C {
                return EventCode::TPC;
            } else if a == LETTER_U && b == LETTER_N && c == LETTER_D {
                return EventCode::UND;
            }
        }
        match decode_ascii(bytes) {
            Some(s) => EventCode::Other(s),
            None => EventCode::Other(String::new()),
        }
    }

    /// Whether the two are the same code.
    pub fn same_as(&self, other: &Self) -> (r: bool)
        ensures
            r == (self@ == other@),
    {
        proof {
            lemma_same_kind(*other);
        }
        match self {
            EventCode::ATS => matches!(other, EventCode::ATS),
            EventCode::BFI => matches!(other, EventCode::BFI),
            EventCode::CCN => matches!(other, EventCode::CCN),
            EventCode::CDC => matches!(other, EventCode::CDC),
            EventCode::CGD => matches!(other, EventCode::CGD),
            EventCode::EON => matches!(other, EventCode::EON),
            EventCode::EOF => matches!(other, EventCode::EOF),
            EventCode::EDN => matches!(other, EventCode::EDN),
            EventCode::EUP => matches!(other, EventCode::EUP),
            EventCode::FIN => matches!(other, EventCode::FIN),
            EventCode::FLP => matches!(other, EventCode::FLP),
            EventCode::GCN => matches!(other, EventCode::GCN),
            EventCode::GDC => matches!(other, EventCode::GDC),
            EventCode::LOV => matches!(other, EventCode::LOV),
            EventCode::MAC => matches!(other, EventCode::MAC),
            EventCode::ONT => matches!(other, EventCode::ONT),
            EventCode::PEV => matches!(other, EventCode::PEV),
            EventCode::PHO => matches!(other, EventCode::PHO),
            EventCode::STA => matches!(other, EventCode::STA),
            EventCode::TPC => matches!(other, EventCode::TPC),
            EventCode::UND => matches!(other, EventCode::UND),
            EventCode::Other(a) => match other {
                EventCode::Other(b) => *a == *b,
                _ => false,
            },
        }
    }

    /// The event code that `s` names. Any text names one: what is no known code
    /// is kept as it is.
    pub fn from_text(s: &str) -> (r: EventCode)
        ensures
            r@ == event_code_of(s@),
    {
        if s.is_ascii() {
            let bytes = s.as_bytes();
            proof {
                is_ascii_spec_bytes(s);
                vstd::utf8::is_ascii_chars_nat_bound(s@);
                assert(is_ascii_bytes(bytes@));
                assert(byte_chars(bytes@) =~= s@);
            }
            EventCode::from_bytes_unchecked(bytes)
        } else {
            EventCode::Other(s.to_owned())
        }
    }
}

impl core::str::FromStr for EventCode {
    type Err = core::convert::Infallible;

    fn from_str(s: &str) -> (r: Result<EventCode, core::convert::Infallible>)
        ensures
            r matches Ok(code) && code@ == event_code_of(s@),
    {
        Ok(EventCode::from_text(s))
    }
}

} // verus!
