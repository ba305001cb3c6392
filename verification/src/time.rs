//! Times of day and dates as the format writes them: three pairs of digits.

use vstd::prelude::*;
use crate::ascii::DIGIT_0;
use crate::error::{Error, ErrorView, Line};
use crate::num::{all_digits, digits_value, is_digit, pair_text, parse_uint};
use crate::num::{lemma_all_digits_subrange, lemma_digits_2, lemma_pair_round_trip};

verus! {

/// A time of day in UTC.
#[derive(Debug, PartialEq, Eq, Clone, Copy, Structural)]
pub struct Time {
    pub hour: u8,
    pub minute: u8,
    pub second: u8,
}

/// A date. The format writes the last two digits of the year only.
#[derive(Debug, PartialEq, Eq, Clone, Copy, Structural)]
pub struct Date {
    pub year: u8,
    pub month: u8,
    pub day: u8,
}

/// The number that the two bytes of `s` from `at` on write.
pub open spec fn pair_value(s: Seq<u8>, at: int) -> nat {
    digits_value(s.subrange(at, at + 2))
}

/// The three numbers that six digits write, read without any check of range.
pub open spec fn raw_triple(s: Seq<u8>) -> (u8, u8, u8) {
    (pair_value(s, 0) as u8, pair_value(s, 2) as u8, pair_value(s, 4) as u8)
}

/// The time that `s` writes: six digits, the hour below 24, minute and second below 60.
pub open spec fn time_of(s: Seq<u8>) -> Option<Time> {
    if s.len() == 6 && all_digits(s) && pair_value(s, 0) < 24 && pair_value(s, 2) < 60
        && pair_value(s, 4) < 60 {
        Some(Time { hour: raw_triple(s).0, minute: raw_triple(s).1, second: raw_triple(s).2 })
    } else {
        None
    }
}

/// The date that `s` writes: six digits, day first and year last. No calendar is consulted.
pub open spec fn date_of(s: Seq<u8>) -> Option<Date> {
    if s.len() == 6 && all_digits(s) {
        Some(Date { day: raw_triple(s).0, month: raw_triple(s).1, year: raw_triple(s).2 })
    } else {
        None
    }
}

/// Each of three pairs of digits writes a number below 100.
pub proof fn lemma_triple_bounds(s: Seq<u8>)
    requires
        s.len() >= 6,
        all_digits(s.take(6)),
    ensures
        pair_value(s, 0) <= 99,
        pair_value(s, 2) <= 99,
        pair_value(s, 4) <= 99,
        all_digits(s.subrange(0, 2)),
        all_digits(s.subrange(2, 4)),
        all_digits(s.subrange(4, 6)),
{
    let head = s.take(6);
    lemma_all_digits_subrange(head, 0, 2);
    lemma_all_digits_subrange(head, 2, 4);
    lemma_all_digits_subrange(head, 4, 6);
    assert(head.subrange(0, 2) =~= s.subrange(0, 2));
    assert(head.subrange(2, 4) =~= s.subrange(2, 4));
    assert(head.subrange(4, 6) =~= s.subrange(4, 6));
    lemma_digits_2(s.subrange(0, 2));
    lemma_digits_2(s.subrange(2, 4));
    lemma_digits_2(s.subrange(4, 6));
}

/// Reads three pairs of digits from the first six bytes, if they are digits.
fn read_triple(bytes: &[u8]) -> (r: Option<(u8, u8, u8)>)
    requires
        bytes@.len() >= 6,
    ensures
        r.is_some() == all_digits(bytes@.take(6)),
        r matches Some(t) ==> t == raw_triple(bytes@),
{
    let first = parse_uint::<u8>(&bytes[0..2]);
    let second = parse_uint::<u8>(&bytes[2..4]);
    let third = parse_uint::<u8>(&bytes[4..6]);
    proof {
        let head = bytes@.take(6);
        if all_digits(head) {
            lemma_triple_bounds(bytes@);
        } else {
            if all_digits(bytes@.subrange(0, 2)) && all_digits(bytes@.subrange(2, 4))
                && all_digits(bytes@.subrange(4, 6)) {
                assert forall|i: int| 0 <= i < head.len() implies is_digit(
                    #[trigger] head[i],
                ) by {
                    if i < 2 {
                        assert(head[i] == bytes@.subrange(0, 2)[i]);
                    } else if i < 4 {
                        assert(head[i] == bytes@.subrange(2, 4)[i - 2]);
                    } else {
                        assert(head[i] == bytes@.subrange(4, 6)[i - 4]);
                    }
                }
            }
        }
    }
    match (first, second, third) {
        (Some(a), Some(b), Some(c)) => Some((a, b, c)),
        _ => None,
    }
}

impl Time {
    /// Whether the hour is below 24 and minute and second are below 60.
    pub open spec fn is_valid(self) -> bool {
        self.hour < 24 && self.minute < 60 && self.second < 60
    }

    /// The time with the given hour, minute and second, whatever they are.
    pub fn from_hms(hour: u8, minute: u8, second: u8) -> (r: Time)
        ensures
            r == (Time { hour, minute, second }),
    {
        Time { hour, minute, second }
    }

    pub fn hour(&self) -> (r: u8)
        ensures
            r == self.hour,
    {
        self.hour
    }

    pub fn minute(&self) -> (r: u8)
        ensures
            r == self.minute,
    {
        self.minute
    }

    pub fn second(&self) -> (r: u8)
        ensures
            r == self.second,
    {
        self.second
    }

    /// Reads hour, minute and second from the first six bytes, which the
    /// caller knows to be digits. The numbers are taken as they stand.
    pub fn parse_unchecked(bytes: &[u8]) -> (r: Time)
        requires
            bytes@.len() >= 6,
            all_digits(bytes@.take(6)),
        ensures
            r.hour == raw_triple(bytes@).0,
            r.minute == raw_triple(bytes@).1,
            r.second == raw_triple(bytes@).2,
    {
        match read_triple(bytes) {
            Some((hour, minute, second)) => Time { hour, minute, second },
            None => Time { hour: 0, minute: 0, second: 0 },
        }
    }

    /// The bytes that write this time: two for each of hour, minute and
    /// second, which are digits where the time is valid.
    pub fn format(&self) -> (r: Vec<u8>)
        ensures
            r@ == pair_text(self.hour) + pair_text(self.minute) + pair_text(self.second),
    {
        let mut out: Vec<u8> = Vec::new();
        out.push(DIGIT_0 + self.hour / 10);
        out.push(DIGIT_0 + self.hour % 10);
        out.push(DIGIT_0 + self.minute / 10);
        out.push(DIGIT_0 + self.minute % 10);
        out.push(DIGIT_0 + self.second / 10);
        out.push(DIGIT_0 + self.second % 10);
        assert(out@ =~= pair_text(self.hour) + pair_text(self.minute) + pair_text(self.second));
        out
    }
}

impl Date {
    /// The date with the given two-digit year, month and day, whatever they are.
    pub fn new(year: u8, month: u8, day: u8) -> (r: Date)
        ensures
            r == (Date { year, month, day }),
    {
        Date { year, month, day }
    }

    /// Reads day, month and year from the first six bytes, which the caller
    /// knows to be digits.
    pub fn parse_unchecked(bytes: &[u8]) -> (r: Date)
        requires
            bytes@.len() >= 6,
            all_digits(bytes@.take(6)),
        ensures
            r.day == raw_triple(bytes@).0,
            r.month == raw_triple(bytes@).1,
            r.year == raw_triple(bytes@).2,
    {
        match read_triple(bytes) {
            Some((day, month, year)) => Date { year, month, day },
            None => Date { year: 0, month: 0, day: 0 },
        }
    }
}

/// Decodes a time field. Anything but six digits that write an hour below 24
/// and a minute and a second below 60 is refused, with the field in the error.
pub fn parse_time(input: &[u8]) -> (r: Result<Time, Error>)
    ensures
        match time_of(input@) {
            Some(t) => r == Ok::<Time, Error>(t),
            None => r matches Err(e) && e@ == (ErrorView::InvalidTime { text: input@ }),
        },
{
    if input.len() != 6 {
        return Err(Error::InvalidTime { text: Line::new(input) });
    }
    assert(input@.take(6) =~= input@);
    match read_triple(input) {
        Some((hour, minute, second)) => {
            if hour >= 24 || minute >= 60 || second >= 60 {
                Err(Error::InvalidTime { text: Line::new(input) })
            } else {
                proof {
                    lemma_triple_bounds(input@);
                }
                Ok(Time { hour, minute, second })
            }
        },
        None => Err(Error::InvalidTime { text: Line::new(input) }),
    }
}

/// Decodes a date field: six digits, day first and year last. The numbers are
/// not held against a calendar.
pub fn parse_date(input: &[u8]) -> (r: Option<Date>)
    ensures
        r == date_of(input@),
{
    if input.len() != 6 {
        return None;
    }
    assert(input@.take(6) =~= input@);
    match read_triple(input) {
        Some((day, month, year)) => Some(Date { year, month, day }),
        None => None,
    }
}

/// Writing a valid time as six digits and decoding them gives the time back.
pub proof fn lemma_time_round_trip(hour: u8, minute: u8, second: u8)
    requires
        hour < 24,
        minute < 60,
        second < 60,
    ensures
        time_of(pair_text(hour) + pair_text(minute) + pair_text(second)) == Some(
            Time { hour, minute, second },
        ),
{
    let s = pair_text(hour) + pair_text(minute) + pair_text(second);
    assert(s.len() == 6);
    assert(s.subrange(0, 2) =~= pair_text(hour));
    assert(s.subrange(2, 4) =~= pair_text(minute));
    assert(s.subrange(4, 6) =~= pair_text(second));
    lemma_pair_round_trip(hour);
    lemma_pair_round_trip(minute);
    lemma_pair_round_trip(second);
    assert forall|i: int| 0 <= i < s.len() implies is_digit(#[trigger] s[i]) by {
        if i < 2 {
            assert(s[i] == pair_text(hour)[i]);
        } else if i < 4 {
            assert(s[i] == pair_text(minute)[i - 2]);
        } else {
            assert(s[i] == pair_text(second)[i - 4]);
        }
    }
}

/// A time that decodes is a time of day: its hour is below 24, its minute
/// and its second are below 60.
pub proof fn lemma_decoded_time_is_valid(s: Seq<u8>)
    ensures
        time_of(s) matches Some(time) ==> time.is_valid(),
{
    if time_of(s) is Some {
        assert(s.take(6) =~= s);
        lemma_triple_bounds(s);
    }
}

} // verus!
