//! Task lines: the declaration of a task, then one line for each turnpoint.

use vstd::prelude::*;
use crate::ascii::LETTER_C;
use crate::coordinate::{latitude_of, longitude_of, parse_latitude, parse_longitude, Angle};
use crate::error::{outcome, Error, ErrorView, Line};
use crate::num::{all_digits, digits_value, parse_uint};
use crate::num::{lemma_digits_2, lemma_value_bound};
use crate::records::grammar::{
    encoding_after,
    optional_chars,
    optional_text,
    optional_text_in,
    text_from,
    text_part,
};
use crate::text::BufEncoding;
use crate::time::{date_of, parse_date, parse_time, time_of, Date, Time};

verus! {

/// The first C record of a task: when it was declared and what follows.
#[derive(Debug, PartialEq, Eq)]
pub struct CRecordDeclaration {
    /// Day of the declaration.
    pub date: Date,
    /// Time of the declaration.
    pub time: Time,
    /// Day of the flight, where the line gives one.
    pub flight_date: Option<Date>,
    /// Number of the task on that day, where the line gives one.
    pub task_number: Option<u16>,
    /// Number of turnpoints, start and finish not counted.
    pub num_turnpoints: u8,
    pub text: Option<String>,
}

/// The mathematical value of a [`CRecordDeclaration`].
pub struct CRecordDeclarationView {
    pub date: Date,
    pub time: Time,
    pub flight_date: Option<Date>,
    pub task_number: Option<u16>,
    pub num_turnpoints: u8,
    pub text: Option<Seq<char>>,
}

impl View for CRecordDeclaration {
    type V = CRecordDeclarationView;

    open spec fn view(&self) -> CRecordDeclarationView {
        CRecordDeclarationView {
            date: self.date,
            time: self.time,
            flight_date: self.flight_date,
            task_number: self.task_number,
            num_turnpoints: self.num_turnpoints,
            text: optional_chars(self.text),
        }
    }
}

/// One point of a task.
#[derive(Debug, PartialEq, Eq)]
pub struct CRecordTurnpoint {
    pub latitude: Angle,
    pub longitude: Angle,
    pub text: Option<String>,
}

/// The mathematical value of a [`CRecordTurnpoint`].
pub struct CRecordTurnpointView {
    pub latitude: Angle,
    pub longitude: Angle,
    pub text: Option<Seq<char>>,
}

impl View for CRecordTurnpoint {
    type V = CRecordTurnpointView;

    open spec fn view(&self) -> CRecordTurnpointView {
        CRecordTurnpointView {
            latitude: self.latitude,
            longitude: self.longitude,
            text: optional_chars(self.text),
        }
    }
}

/// The day of the flight: six zeros stand for none.
pub open spec fn flight_date_of(date: Date) -> Option<Date> {
    if date.day == 0 && date.month == 0 && date.year == 0 {
        None
    } else {
        Some(date)
    }
}

/// The number of the task: zero stands for none.
pub open spec fn task_number_of(number: nat) -> Option<u16> {
    if number == 0 {
        None
    } else {
        Some(number as u16)
    }
}

/// What is wrong with the fixed part of a task declaration, if anything.
pub open spec fn declaration_error(line: Seq<u8>) -> Option<ErrorView> {
    if line.len() < 25 {
        Some(ErrorView::LineTooShort { line })
    } else if line[0] != LETTER_C || date_of(line.subrange(1, 7)) is None {
        Some(ErrorView::InvalidRecord { line })
    } else if time_of(line.subrange(7, 13)) is None {
        Some(ErrorView::InvalidTime { text: line.subrange(7, 13) })
    } else if date_of(line.subrange(13, 19)) is None || !all_digits(line.subrange(19, 23))
        || !all_digits(line.subrange(23, 25)) {
        Some(ErrorView::InvalidRecord { line })
    } else {
        None
    }
}

/// The task declaration that `line` writes for a stream in the state
/// `mode`: the tag, date and time of the declaration, the day of the flight,
/// the number of the task in four digits, the number of turnpoints in two,
/// and text or nothing.
pub open spec fn declaration_of(line: Seq<u8>, mode: BufEncoding) -> Result<
    CRecordDeclarationView,
    ErrorView,
> {
    match declaration_error(line) {
        Some(error) => Err(error),
        None => match optional_text_in(mode, text_part(line.skip(25))) {
            Ok(text) => Ok(
                CRecordDeclarationView {
                    date: date_of(line.subrange(1, 7))->0,
                    time: time_of(line.subrange(7, 13))->0,
                    flight_date: flight_date_of(date_of(line.subrange(13, 19))->0),
                    task_number: task_number_of(digits_value(line.subrange(19, 23))),
                    num_turnpoints: digits_value(line.subrange(23, 25)) as u8,
                    text,
                },
            ),
            Err(error) => Err(error),
        },
    }
}

/// The state of a stream in the state `mode` after it has read the task
/// declaration `line`.
pub open spec fn declaration_encoding(line: Seq<u8>, mode: BufEncoding) -> BufEncoding {
    if declaration_error(line) is None {
        encoding_after(mode, text_part(line.skip(25)))
    } else {
        mode
    }
}

/// What is wrong with the fixed part of a turnpoint, if anything.
pub open spec fn turnpoint_error(line: Seq<u8>) -> Option<ErrorView> {
    if line.len() < 18 {
        Some(ErrorView::LineTooShort { line })
    } else if line[0] != LETTER_C {
        Some(ErrorView::InvalidRecord { line })
    } else if latitude_of(line.subrange(1, 9)) is None {
        Some(ErrorView::InvalidLatitude { text: line.subrange(1, 9) })
    } else if longitude_of(line.subrange(9, 18)) is None {
        Some(ErrorView::InvalidLongitude { text: line.subrange(9, 18) })
    } else {
        None
    }
}

/// The turnpoint that `line` writes for a stream in the state `mode`: the
/// tag, latitude, longitude, and text or nothing.
pub open spec fn turnpoint_of(line: Seq<u8>, mode: BufEncoding) -> Result<
    CRecordTurnpointView,
    ErrorView,
> {
    match turnpoint_error(line) {
        Some(error) => Err(error),
        None => match optional_text_in(mode, text_part(line.skip(18))) {
            Ok(text) => Ok(
                CRecordTurnpointView {
                    latitude: latitude_of(line.subrange(1, 9))->0,
                    longitude: longitude_of(line.subrange(9, 18))->0,
                    text,
                },
            ),
            Err(error) => Err(error),
        },
    }
}

/// The state of a stream in the state `mode` after it has read the
/// turnpoint `line`.
pub open spec fn turnpoint_encoding(line: Seq<u8>, mode: BufEncoding) -> BufEncoding {
    if turnpoint_error(line) is None {
        encoding_after(mode, text_part(line.skip(18)))
    } else {
        mode
    }
}

impl CRecordDeclaration {
    /// Decodes a task declaration by itself, its encoding unknown.
    pub fn parse(line: &[u8]) -> (r: Result<CRecordDeclaration, Error>)
        ensures
            outcome(r) == declaration_of(line@, BufEncoding::Auto),
    {
        let mut encoding = BufEncoding::Auto;
        CRecordDeclaration::parse_with_encoding(line, &mut encoding)
    }

    /// Decodes a task declaration of a stream whose state is `encoding`.
    pub fn parse_with_encoding(line: &[u8], encoding: &mut BufEncoding) -> (r: Result<
        CRecordDeclaration,
        Error,
    >)
        ensures
            outcome(r) == declaration_of(line@, *old(encoding)),
            *final(encoding) == declaration_encoding(line@, *old(encoding)),
    {
        if line.len() < 25 {
            return Err(Error::LineTooShort { line: Line::new(line) });
        }
        if line[0] != LETTER_C {
            return Err(Error::invalid_record(line));
        }
        let date = match parse_date(&line[1..7]) {
            Some(date) => date,
            None => {
                return Err(Error::invalid_record(line));
            },
        };
        let time = match parse_time(&line[7..13]) {
            Ok(time) => time,
            Err(e) => {
                return Err(e);
            },
        };
        let flight_date = match parse_date(&line[13..19]) {
            Some(day) => if day.day == 0 && day.month == 0 && day.year == 0 {
                None
            } else {
                Some(day)
            },
            None => {
                return Err(Error::invalid_record(line));
            },
        };
        proof {
            let number = line@.subrange(19, 23);
            let count = line@.subrange(23, 25);
            if all_digits(number) {
                lemma_value_bound(number);
                reveal_with_fuel(vstd::arithmetic::power::pow, 5);
            }
            if all_digits(count) {
                lemma_digits_2(count);
            }
        }
        let task_number = match parse_uint::<u16>(&line[19..23]) {
            Some(number) => if number == 0 {
                None
            } else {
                Some(number)
            },
            None => {
                return Err(Error::invalid_record(line));
            },
        };
        let num_turnpoints = match parse_uint::<u8>(&line[23..25]) {
            Some(count) => count,
            None => {
                return Err(Error::invalid_record(line));
            },
        };
        let tail = text_from(line, 25);
        match optional_text(tail, encoding) {
            Ok(text) => Ok(
                CRecordDeclaration { date, time, flight_date, task_number, num_turnpoints, text },
            ),
            Err(e) => Err(e),
        }
    }
}

impl CRecordTurnpoint {
    /// Decodes a turnpoint by itself, its encoding unknown.
    pub fn parse(line: &[u8]) -> (r: Result<CRecordTurnpoint, Error>)
        ensures
            outcome(r) == turnpoint_of(line@, BufEncoding::Auto),
    {
        let mut encoding = BufEncoding::Auto;
        CRecordTurnpoint::parse_with_encoding(line, &mut encoding)
    }

    /// Decodes a turnpoint of a stream whose state is `encoding`.
    pub fn parse_with_encoding(line: &[u8], encoding: &mut BufEncoding) -> (r: Result<
        CRecordTurnpoint,
        Error,
    >)
        ensures
            outcome(r) == turnpoint_of(line@, *old(encoding)),
            *final(encoding) == turnpoint_encoding(line@, *old(encoding)),
    {
        if line.len() < 18 {
            return Err(Error::LineTooShort { line: Line::new(line) });
        }
        if line[0] != LETTER_C {
            return Err(Error::invalid_record(line));
        }
        let latitude = match parse_latitude(&line[1..9]) {
            Ok(angle) => angle,
            Err(e) => {
                return Err(e);
            },
        };
        let longitude = match parse_longitude(&line[9..18]) {
            Ok(angle) => angle,
            Err(e) => {
                return Err(e);
            },
        };
        let tail = text_from(line, 18);
        match optional_text(tail, encoding) {
            Ok(text) => Ok(CRecordTurnpoint { latitude, longitude, text }),
            Err(e) => Err(e),
        }
    }
}

} // verus!
