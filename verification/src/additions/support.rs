//! Readings from the additions of a record.

use vstd::prelude::*;
use crate::additions::code::{AdditionCode, AdditionCodeView};
use crate::coordinate::Fraction;
use crate::num::{all_digits, digits_value, parse_uint, parsed_unsigned};
use crate::num::lemma_digits_3;

verus! {

/// What a map holds under a key, if anything.
pub open spec fn lookup(m: Map<AdditionCodeView, Seq<u8>>, code: AdditionCodeView) -> Option<Seq<u8>> {
    if m.contains_key(code) {
        Some(m[code])
    } else {
        None
    }
}

/// The number that an addition of exactly three digits writes.
pub open spec fn three_digits(value: Option<Seq<u8>>) -> Option<u16> {
    match value {
        Some(s) => if s.len() == 3 && all_digits(s) {
            Some(digits_value(s) as u16)
        } else {
            None
        },
        None => None,
    }
}

/// The decimal fraction that the digits of an addition write behind the point.
pub open spec fn fraction_of(value: Option<Seq<u8>>) -> Option<Fraction> {
    match value {
        Some(s) => match parsed_unsigned::<u32>(s) {
            Some(n) => Some(Fraction { numerator: n as u32, digits: s.len() as usize }),
            None => None,
        },
        None => None,
    }
}

/// A heading, which is a number of degrees below 360.
pub open spec fn heading_of(value: Option<Seq<u8>>) -> Option<u16> {
    match three_digits(value) {
        Some(n) => if n < 360 {
            Some(n)
        } else {
            None
        },
        None => None,
    }
}

/// A record with additions, and the readings that every such record offers.
pub trait AdditionSupport {
    /// The additions of the record, by their codes.
    spec fn additions_view(&self) -> Map<AdditionCodeView, Seq<u8>>;

    /// The bytes of the addition `code`, if the record has it.
    fn get_addition(&self, code: &AdditionCode) -> (r: Option<&[u8]>)
        ensures
            r.is_some() == self.additions_view().contains_key(code@),
            r matches Some(bytes) ==> bytes@ == self.additions_view()[code@],
    ;

    /// The number that the addition `code` writes, where it is three digits.
    fn get_three_digit_addition(&self, code: &AdditionCode) -> (r: Option<u16>)
        ensures
            r == three_digits(lookup(self.additions_view(), code@)),
    {
        let bytes = match self.get_addition(code) {
            Some(bytes) => bytes,
            None => {
                return None;
            },
        };
        if bytes.len() != 3 {
            return None;
        }
        proof {
            if all_digits(bytes@) {
                lemma_digits_3(bytes@);
            }
        }
        parse_uint::<u16>(bytes)
    }

    /// The addition `code` read as digits behind a decimal point.
    fn get_fraction_addition(&self, code: &AdditionCode) -> (r: Option<Fraction>)
        ensures
            r == fraction_of(lookup(self.additions_view(), code@)),
    {
        let bytes = match self.get_addition(code) {
            Some(bytes) => bytes,
            None => {
                return None;
            },
        };
        match parse_uint::<u32>(bytes) {
            Some(numerator) => Some(Fraction { numerator, digits: bytes.len() }),
            None => None,
        }
    }

    /// Fix accuracy in metres.
    fn fix_accuracy(&self) -> (r: Option<u16>)
        ensures
            r == three_digits(lookup(self.additions_view(), AdditionCodeView::FXA)),
    {
        self.get_three_digit_addition(&AdditionCode::FXA)
    }

    /// Environmental noise level.
    fn enl(&self) -> (r: Option<u16>)
        ensures
            r == three_digits(lookup(self.additions_view(), AdditionCodeView::ENL)),
    {
        self.get_three_digit_addition(&AdditionCode::ENL)
    }

    /// True heading in degrees.
    fn heading(&self) -> (r: Option<u16>)
        ensures
            r == heading_of(lookup(self.additions_view(), AdditionCodeView::HDT)),
    {
        match self.get_three_digit_addition(&AdditionCode::HDT) {
            Some(value) => if value < 360 {
                Some(value)
            } else {
                None
            },
            None => None,
        }
    }

    /// Magnetic heading in degrees.
    fn heading_magnetic(&self) -> (r: Option<u16>)
        ensures
            r == heading_of(lookup(self.additions_view(), AdditionCodeView::HDM)),
    {
        match self.get_three_digit_addition(&AdditionCode::HDM) {
            Some(value) => if value < 360 {
                Some(value)
            } else {
                None
            },
            None => None,
        }
    }
}

} // verus!
