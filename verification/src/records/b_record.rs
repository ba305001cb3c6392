//! Fixes: time, position, validity and two altitudes, then the additions.

use vstd::prelude::*;
use crate::ascii::{LETTER_A, LETTER_B, LETTER_V};
use crate::additions::code::{AdditionCode, AdditionCodeView};
use crate::additions::definition::{defs_view, AdditionDef, AdditionDefView};
use crate::additions::map::{additions_of, all_fit, AdditionsMap, ParseAdditions};
use crate::additions::support::{fraction_of, lookup, AdditionSupport};
use crate::coordinate::{latitude_of, longitude_of, parse_latitude, parse_longitude, Angle, Fraction};
use crate::error::{outcome, Error, ErrorView, Line};
use crate::num::{parse_int, parsed};
use crate::records::grammar::{text_from, text_part};
use crate::time::{parse_time, time_of, Time};

verus! {

/// One fix of a flight.
#[derive(Debug)]
pub struct BRecord {
    pub time: Time,
    /// Latitude as the fixed part of the record gives it.
    pub latitude: Angle,
    /// Longitude as the fixed part of the record gives it.
    pub longitude: Angle,
    /// Whether the fix is a valid, three-dimensional one.
    pub is_valid: bool,
    /// Altitude by the pressure sensor, in metres.
    pub altitude_pressure: i16,
    /// Altitude by GPS, in metres.
    pub altitude_gps: i16,
    /// What the declarations in force took from the line.
    pub additions: AdditionsMap,
    /// The text behind the fixed part, as it stands.
    pub extra: Vec<u8>,
}

/// The mathematical value of a [`BRecord`].
pub struct BRecordView {
    pub time: Time,
    pub latitude: Angle,
    pub longitude: Angle,
    pub is_valid: bool,
    pub altitude_pressure: i16,
    pub altitude_gps: i16,
    pub additions: Map<AdditionCodeView, Seq<u8>>,
    pub extra: Seq<u8>,
}

impl View for BRecord {
    type V = BRecordView;

    open spec fn view(&self) -> BRecordView {
        BRecordView {
            time: self.time,
            latitude: self.latitude,
            longitude: self.longitude,
            is_valid: self.is_valid,
            altitude_pressure: self.altitude_pressure,
            altitude_gps: self.altitude_gps,
            additions: self.additions@,
            extra: self.extra@,
        }
    }
}

/// The number of bytes that every fix has: tag, time, position, validity
/// and two altitudes.
pub const B_RECORD_FIXED_LENGTH: usize = 35;

/// The altitude that five bytes write: five digits, or a minus sign and
/// four, and no more than sixteen bits hold. Zero is an altitude like any other.
pub open spec fn altitude_of(s: Seq<u8>) -> Option<i16> {
    if s.len() == 5 {
        match parsed::<i16>(s) {
            Some(v) => Some(v as i16),
            None => None,
        }
    } else {
        None
    }
}

/// What the validity flag says: `A` for a valid fix, `V` for a void one.
pub open spec fn validity_of(flag: u8) -> Option<bool> {
    if flag == LETTER_A {
        Some(true)
    } else if flag == LETTER_V {
        Some(false)
    } else {
        None
    }
}

/// The fix that `line` writes under the declarations `defs`, or what is
/// wrong with it. The fields are held against the format in the order in
/// which the line has them, and the first that fails decides the error.
pub open spec fn b_record_of(line: Seq<u8>, defs: Seq<AdditionDefView>) -> Result<BRecordView, ErrorView> {
    if line.len() < B_RECORD_FIXED_LENGTH {
        Err(ErrorView::LineTooShort { line })
    } else if line[0] != LETTER_B {
        Err(ErrorView::InvalidRecord { line })
    } else if time_of(line.subrange(1, 7)) is None {
        Err(ErrorView::InvalidTime { text: line.subrange(1, 7) })
    } else if latitude_of(line.subrange(7, 15)) is None {
        Err(ErrorView::InvalidLatitude { text: line.subrange(7, 15) })
    } else if longitude_of(line.subrange(15, 24)) is None {
        Err(ErrorView::InvalidLongitude { text: line.subrange(15, 24) })
    } else if validity_of(line[24]) is None {
        Err(ErrorView::InvalidValidity { text: line.subrange(24, 25) })
    } else if altitude_of(line.subrange(25, 30)) is None || altitude_of(line.subrange(30, 35)) is None
        || !all_fit(defs, line.len()) {
        Err(ErrorView::InvalidRecord { line })
    } else {
        Ok(
            BRecordView {
                time: time_of(line.subrange(1, 7))->0,
                latitude: latitude_of(line.subrange(7, 15))->0,
                longitude: longitude_of(line.subrange(15, 24))->0,
                is_valid: validity_of(line[24])->0,
                altitude_pressure: altitude_of(line.subrange(25, 30))->0,
                altitude_gps: altitude_of(line.subrange(30, 35))->0,
                additions: additions_of(defs, line),
                extra: text_part(line.skip(B_RECORD_FIXED_LENGTH as int)),
            },
        )
    }
}

/// The angle `base` with the further decimals `more`, where there are any.
pub open spec fn refined(base: Angle, more: Option<Fraction>) -> Angle {
    match more {
        Some(fraction) => Angle { negative: base.negative, milli_minutes: base.milli_minutes, fraction },
        None => base,
    }
}

/// Decodes the validity flag of a fix.
pub fn parse_validity(flag: u8) -> (r: Option<bool>)
    ensures
        r == validity_of(flag),
{
    if flag == LETTER_A {
        Some(true)
    } else if flag == LETTER_V {
        Some(false)
    } else {
        None
    }
}

/// Decodes an altitude field.
pub fn parse_altitude(bytes: &[u8]) -> (r: Option<i16>)
    ensures
        r == altitude_of(bytes@),
{
    if bytes.len() != 5 {
        return None;
    }
    parse_int::<i16>(bytes)
}

impl BRecord {
    /// Decodes a fix of a file that declares no additions.
    pub fn parse(line: &[u8]) -> (r: Result<BRecord, Error>)
        ensures
            outcome(r) == b_record_of(line@, Seq::<AdditionDefView>::empty()),
    {
        let none: Vec<AdditionDef> = Vec::new();
        assert(defs_view(none@) =~= Seq::<AdditionDefView>::empty());
        BRecord::parse_with_additions(line, &none)
    }

    /// Decodes a fix and takes from the line the additions that
    /// `addition_defs` declares.
    pub fn parse_with_additions(line: &[u8], addition_defs: &Vec<AdditionDef>) -> (r: Result<
        BRecord,
        Error,
    >)
        ensures
            outcome(r) == b_record_of(line@, defs_view(addition_defs@)),
    {
        if line.len() < B_RECORD_FIXED_LENGTH {
            return Err(Error::LineTooShort { line: Line::new(line) });
        }
        if line[0] != LETTER_B {
            return Err(Error::invalid_record(line));
        }
        let time = match parse_time(&line[1..7]) {
            Ok(time) => time,
            Err(e) => {
                return Err(e);
            },
        };
        let latitude = match parse_latitude(&line[7..15]) {
            Ok(angle) => angle,
            Err(e) => {
                return Err(e);
            },
        };
        let longitude = match parse_longitude(&line[15..24]) {
            Ok(angle) => angle,
            Err(e) => {
                return Err(e);
            },
        };
        let is_valid = match parse_validity(line[24]) {
            Some(flag) => flag,
            None => {
                return Err(Error::InvalidValidity { text: Line::new(&line[24..25]) });
            },
        };
        let altitude_pressure = match parse_altitude(&line[25..30]) {
            Some(metres) => metres,
            None => {
                return Err(Error::invalid_record(line));
            },
        };
        let altitude_gps = match parse_altitude(&line[30..35]) {
            Some(metres) => metres,
            None => {
                return Err(Error::invalid_record(line));
            },
        };
        let additions = match addition_defs.parse(line) {
            Ok(additions) => additions,
            Err(e) => {
                return Err(e);
            },
        };
        let extra = vstd::slice::slice_to_vec(text_from(line, B_RECORD_FIXED_LENGTH));
        Ok(
            BRecord {
                time,
                latitude,
                longitude,
                is_valid,
                altitude_pressure,
                altitude_gps,
                additions,
                extra,
            },
        )
    }

    /// Latitude of the fix: the field of the record, with the further
    /// decimals of the `LAD` addition where the record has them.
    pub fn latitude(&self) -> (r: Angle)
        ensures
            r == refined(self.latitude, fraction_of(lookup(self.additions@, AdditionCodeView::LAD))),
    {
        match self.get_fraction_addition(&AdditionCode::LAD) {
            None => self.latitude,
            Some(fraction) => Angle {
                negative: self.latitude.negative,
                milli_minutes: self.latitude.milli_minutes,
                fraction,
            },
        }
    }

    /// Longitude of the fix: the field of the record, with the further
    /// decimals of the `LOD` addition where the record has them.
    pub fn longitude(&self) -> (r: Angle)
        ensures
            r == refined(self.longitude, fraction_of(lookup(self.additions@, AdditionCodeView::LOD))),
    {
        match self.get_fraction_addition(&AdditionCode::LOD) {
            None => self.longitude,
            Some(fraction) => Angle {
                negative: self.longitude.negative,
                milli_minutes: self.longitude.milli_minutes,
                fraction,
            },
        }
    }
}

impl AdditionSupport for BRecord {
    open spec fn additions_view(&self) -> Map<AdditionCodeView, Seq<u8>> {
        self.additions@
    }

    fn get_addition(&self, code: &AdditionCode) -> (r: Option<&[u8]>) {
        match self.additions.get(code) {
            Some(value) => Some(value.as_slice()),
            None => None,
        }
    }
}

/// Decodes a fix of a file that declares no additions.
pub fn b_record(input: &[u8]) -> (r: Result<BRecord, Error>)
    ensures
        outcome(r) == b_record_of(input@, Seq::<AdditionDefView>::empty()),
{
    BRecord::parse(input)
}

} // verus!
