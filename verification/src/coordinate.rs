//! Latitudes and longitudes as the format writes them: degrees, minutes and
//! thousandths of a minute in digits, then a letter for the hemisphere.

use vstd::prelude::*;
use crate::ascii::{DIGIT_0, LETTER_E, LETTER_N, LETTER_S, LETTER_W};
use crate::error::{Error, ErrorView, Line};
use crate::num::{all_digits, digits_value, is_digit, pair_text, parse_uint, triple_text};
use crate::num::{
    lemma_all_digits_subrange,
    lemma_digits_2,
    lemma_digits_3,
    lemma_pair_round_trip,
    lemma_triple_round_trip,
    lemma_value_bound,
};

verus! {

/// A decimal fraction: `numerator` over ten to the power `digits`.
#[derive(Debug, PartialEq, Eq, Clone, Copy, Structural)]
pub struct Fraction {
    pub numerator: u32,
    pub digits: usize,
}

/// An angle of latitude or longitude, held in whole numbers.
///
/// Its size in degrees is `milli_minutes` plus `fraction`, over 60000. It lies
/// south of the equator or west of Greenwich where `negative` is set, also
/// where its size is zero.
#[derive(Debug, PartialEq, Eq, Clone, Copy, Structural)]
pub struct Angle {
    pub negative: bool,
    /// Thousandths of a minute of arc.
    pub milli_minutes: u32,
    /// What the record holds beyond the thousandths, as a part of one thousandth.
    pub fraction: Fraction,
}

impl Fraction {
    /// The fraction that is zero.
    pub open spec fn zero() -> Fraction {
        Fraction { numerator: 0, digits: 0 }
    }
}

impl Angle {
    /// The angle of the given sign and size, with nothing beyond the thousandths.
    pub open spec fn plain(negative: bool, milli_minutes: nat) -> Angle {
        Angle { negative, milli_minutes: milli_minutes as u32, fraction: Fraction::zero() }
    }

    /// The size of the angle in whole degrees.
    pub fn degrees(&self) -> (r: u32)
        ensures
            r == self.milli_minutes / 60000,
    {
        self.milli_minutes / 60000
    }

    /// The whole minutes beyond the whole degrees.
    pub fn minutes(&self) -> (r: u32)
        ensures
            r == (self.milli_minutes % 60000) / 1000,
    {
        (self.milli_minutes % 60000) / 1000
    }
}

/// The number that the bytes of `s` from `from` up to `to` write.
pub open spec fn field(s: Seq<u8>, from: int, to: int) -> nat {
    digits_value(s.subrange(from, to))
}

/// The latitude that `s` writes: two digits of degrees below 90, two of
/// minutes below 60, three of thousandths, and `N` or `S`.
pub open spec fn latitude_of(s: Seq<u8>) -> Option<Angle> {
    if s.len() == 8 && all_digits(s.take(7)) && field(s, 0, 2) < 90 && field(s, 2, 4) < 60 && (s[7]
        == LETTER_N || s[7] == LETTER_S) {
        Some(Angle::plain(s[7] == LETTER_S, field(s, 0, 2) * 60000 + field(s, 2, 4) * 1000 + field(s, 4, 7)))
    } else {
        None
    }
}

/// The longitude that `s` writes: three digits of degrees below 180, two of
/// minutes below 60, three of thousandths, and `E` or `W`.
pub open spec fn longitude_of(s: Seq<u8>) -> Option<Angle> {
    if s.len() == 9 && all_digits(s.take(8)) && field(s, 0, 3) < 180 && field(s, 3, 5) < 60 && (s[8]
        == LETTER_E || s[8] == LETTER_W) {
        Some(
            Angle::plain(s[8] == LETTER_W, field(s, 0, 3) * 60000 + field(s, 3, 5) * 1000 + field(s, 5, 8)),
        )
    } else {
        None
    }
}

/// What the letter of a latitude says: `N` is north, `S` is south.
pub fn parse_latitude_invert(input: u8) -> (r: Option<bool>)
    ensures
        r == (if input == LETTER_N {
            Some(false)
        } else if input == LETTER_S {
            Some(true)
        } else {
            None
        }),
{
    if input == LETTER_N {
        Some(false)
    } else if input == LETTER_S {
        Some(true)
    } else {
        None
    }
}

/// What the letter of a longitude says: `E` is east, `W` is west.
pub fn parse_longitude_invert(input: u8) -> (r: Option<bool>)
    ensures
        r == (if input == LETTER_E {
            Some(false)
        } else if input == LETTER_W {
            Some(true)
        } else {
            None
        }),
{
    if input == LETTER_E {
        Some(false)
    } else if input == LETTER_W {
        Some(true)
    } else {
        None
    }
}

/// Degrees, minutes and thousandths as one number of thousandths of a minute.
fn dms_to_milli_minutes(deg: u32, min: u32, min_dec: u32) -> (r: u32)
    requires
        deg < 1000,
        min < 100,
        min_dec < 1000,
    ensures
        r == deg * 60000 + min * 1000 + min_dec,
{
    deg * 60000 + min * 1000 + min_dec
}

/// A digit string is one where its parts are.
proof fn lemma_all_digits_join(s: Seq<u8>, a: int, b: int, c: int)
    requires
        0 <= a <= b <= c <= s.len(),
        all_digits(s.subrange(0, a)),
        all_digits(s.subrange(a, b)),
        all_digits(s.subrange(b, c)),
    ensures
        all_digits(s.take(c)),
{
    let head = s.take(c);
    assert forall|i: int| 0 <= i < head.len() implies is_digit(#[trigger] head[i]) by {
        if i < a {
            assert(head[i] == s.subrange(0, a)[i]);
        } else if i < b {
            assert(head[i] == s.subrange(a, b)[i - a]);
        } else {
            assert(head[i] == s.subrange(b, c)[i - b]);
        }
    }
}

/// The parts of the digits in front of the letter are digit strings.
proof fn lemma_all_digits_split(s: Seq<u8>, a: int, b: int, c: int)
    requires
        0 <= a <= b <= c <= s.len(),
        all_digits(s.take(c)),
    ensures
        all_digits(s.subrange(0, a)),
        all_digits(s.subrange(a, b)),
        all_digits(s.subrange(b, c)),
{
    let head = s.take(c);
    lemma_all_digits_subrange(head, 0, a);
    lemma_all_digits_subrange(head, a, b);
    lemma_all_digits_subrange(head, b, c);
    assert(head.subrange(0, a) =~= s.subrange(0, a));
    assert(head.subrange(a, b) =~= s.subrange(a, b));
    assert(head.subrange(b, c) =~= s.subrange(b, c));
}

/// Decodes a latitude field of eight bytes. Anything else, degrees of 90 or
/// more and minutes of 60 or more are refused, with the field in the error.
pub fn parse_latitude(input: &[u8]) -> (r: Result<Angle, Error>)
    ensures
        match latitude_of(input@) {
            Some(angle) => r == Ok::<Angle, Error>(angle),
            None => r matches Err(e) && e@ == (ErrorView::InvalidLatitude { text: input@ }),
        },
{
    if input.len() != 8 {
        return Err(Error::InvalidLatitude { text: Line::new(input) });
    }
    let deg = parse_uint::<u32>(&input[0..2]);
    let min = parse_uint::<u32>(&input[2..4]);
    let min_dec = parse_uint::<u32>(&input[4..7]);
    let invert = parse_latitude_invert(input[7]);
    proof {
        if all_digits(input@.take(7)) {
            lemma_all_digits_split(input@, 2, 4, 7);
            lemma_digits_2(input@.subrange(0, 2));
            lemma_digits_2(input@.subrange(2, 4));
            lemma_digits_3(input@.subrange(4, 7));
        } else if all_digits(input@.subrange(0, 2)) && all_digits(input@.subrange(2, 4))
            && all_digits(input@.subrange(4, 7)) {
            lemma_all_digits_join(input@, 2, 4, 7);
        }
    }
    match (deg, min, min_dec, invert) {
        (Some(deg), Some(min), Some(min_dec), Some(negative)) => {
            if deg >= 90 || min >= 60 {
                Err(Error::InvalidLatitude { text: Line::new(input) })
            } else {
                proof {
                    lemma_digits_3(input@.subrange(4, 7));
                }
                Ok(
                    Angle {
                        negative,
                        milli_minutes: dms_to_milli_minutes(deg, min, min_dec),
                        fraction: Fraction { numerator: 0, digits: 0 },
                    },
                )
            }
        },
        _ => Err(Error::InvalidLatitude { text: Line::new(input) }),
    }
}

/// Decodes a longitude field of nine bytes. Anything else, degrees of 180 or
/// more and minutes of 60 or more are refused, with the field in the error.
pub fn parse_longitude(input: &[u8]) -> (r: Result<Angle, Error>)
    ensures
        match longitude_of(input@) {
            Some(angle) => r == Ok::<Angle, Error>(angle),
            None => r matches Err(e) && e@ == (ErrorView::InvalidLongitude { text: input@ }),
        },
{
    if input.len() != 9 {
        return Err(Error::InvalidLongitude { text: Line::new(input) });
    }
    let deg = parse_uint::<u32>(&input[0..3]);
    let min = parse_uint::<u32>(&input[3..5]);
    let min_dec = parse_uint::<u32>(&input[5..8]);
    let invert = parse_longitude_invert(input[8]);
    proof {
        if all_digits(input@.take(8)) {
            lemma_all_digits_split(input@, 3, 5, 8);
            lemma_digits_3(input@.subrange(0, 3));
            lemma_digits_2(input@.subrange(3, 5));
            lemma_digits_3(input@.subrange(5, 8));
        } else if all_digits(input@.subrange(0, 3)) && all_digits(input@.subrange(3, 5))
            && all_digits(input@.subrange(5, 8)) {
            lemma_all_digits_join(input@, 3, 5, 8);
        }
    }
    match (deg, min, min_dec, invert) {
        (Some(deg), Some(min), Some(min_dec), Some(negative)) => {
            if deg >= 180 || min >= 60 {
                Err(Error::InvalidLongitude { text: Line::new(input) })
            } else {
                proof {
                    lemma_digits_3(input@.subrange(5, 8));
                }
                Ok(
                    Angle {
                        negative,
                        milli_minutes: dms_to_milli_minutes(deg, min, min_dec),
                        fraction: Fraction { numerator: 0, digits: 0 },
                    },
                )
            }
        },
        _ => Err(Error::InvalidLongitude { text: Line::new(input) }),
    }
}

/// A string of five digits writes a number below 100000.
proof fn lemma_five_digits(s: Seq<u8>)
    requires
        s.len() == 5,
        all_digits(s),
    ensures
        digits_value(s) <= 99999,
{
    lemma_value_bound(s);
    reveal_with_fuel(vstd::arithmetic::power::pow, 6);
}

/// Reads a latitude of eight bytes whose first seven the caller knows to be
/// digits: two of degrees and five of thousandths of a minute, taken as they
/// stand. The angle is negative where the last byte is `S`.
pub fn parse_latitude_unchecked(bytes: &[u8]) -> (r: Angle)
    requires
        bytes@.len() == 8,
        all_digits(bytes@.take(7)),
    ensures
        r == Angle::plain(bytes@[7] == LETTER_S, field(bytes@, 0, 2) * 60000 + field(bytes@, 2, 7)),
{
    proof {
        lemma_all_digits_split(bytes@, 2, 7, 7);
        lemma_digits_2(bytes@.subrange(0, 2));
        lemma_five_digits(bytes@.subrange(2, 7));
    }
    let deg = parse_uint::<u32>(&bytes[0..2]);
    let min = parse_uint::<u32>(&bytes[2..7]);
    let milli_minutes = match (deg, min) {
        (Some(deg), Some(min)) => deg * 60000 + min,
        _ => 0,
    };
    Angle { negative: bytes[7] == LETTER_S, milli_minutes, fraction: Fraction { numerator: 0, digits: 0 } }
}

/// Reads a longitude of nine bytes whose first eight the caller knows to be
/// digits: three of degrees and five of thousandths of a minute, taken as
/// they stand. The angle is negative where the last byte is `W`.
pub fn parse_longitude_unchecked(bytes: &[u8]) -> (r: Angle)
    requires
        bytes@.len() == 9,
        all_digits(bytes@.take(8)),
    ensures
        r == Angle::plain(bytes@[8] == LETTER_W, field(bytes@, 0, 3) * 60000 + field(bytes@, 3, 8)),
{
    proof {
        lemma_all_digits_split(bytes@, 3, 8, 8);
        lemma_digits_3(bytes@.subrange(0, 3));
        lemma_five_digits(bytes@.subrange(3, 8));
    }
    let deg = parse_uint::<u32>(&bytes[0..3]);
    let min = parse_uint::<u32>(&bytes[3..8]);
    let milli_minutes = match (deg, min) {
        (Some(deg), Some(min)) => deg * 60000 + min,
        _ => 0,
    };
    Angle { negative: bytes[8] == LETTER_W, milli_minutes, fraction: Fraction { numerator: 0, digits: 0 } }
}

/// The eight bytes that write a latitude of `deg` degrees, `min` minutes and
/// `dec` thousandths of a minute, south of the equator where `south`.
pub open spec fn latitude_text(deg: u8, min: u8, dec: u16, south: bool) -> Seq<u8> {
    pair_text(deg) + pair_text(min) + triple_text(dec) + seq![if south {
        LETTER_S
    } else {
        LETTER_N
    }]
}

/// The nine bytes that write a longitude of `deg` degrees, `min` minutes and
/// `dec` thousandths of a minute, west of Greenwich where `west`.
pub open spec fn longitude_text(deg: u8, min: u8, dec: u16, west: bool) -> Seq<u8> {
    seq![(DIGIT_0 + deg / 100) as u8] + pair_text(deg % 100) + pair_text(min) + triple_text(dec)
        + seq![if west {
        LETTER_W
    } else {
        LETTER_E
    }]
}

/// Writing a latitude and decoding what was written gives the latitude back:
/// degrees below 90, minutes below 60 and thousandths below 1000 all come
/// out as they went in, and so does the hemisphere.
pub proof fn lemma_latitude_round_trip(deg: u8, min: u8, dec: u16, south: bool)
    requires
        deg < 90,
        min < 60,
        dec < 1000,
    ensures
        latitude_of(latitude_text(deg, min, dec, south)) == Some(
            Angle::plain(south, (deg * 60000 + min * 1000 + dec) as nat),
        ),
{
    let s = latitude_text(deg, min, dec, south);
    assert(s.len() == 8);
    assert(s.subrange(0, 2) =~= pair_text(deg));
    assert(s.subrange(2, 4) =~= pair_text(min));
    assert(s.subrange(4, 7) =~= triple_text(dec));
    lemma_pair_round_trip(deg);
    lemma_pair_round_trip(min);
    lemma_triple_round_trip(dec);
    lemma_all_digits_join(s, 2, 4, 7);
}

/// Writing a longitude and decoding what was written gives the longitude
/// back: degrees below 180, minutes below 60 and thousandths below 1000 all
/// come out as they went in, and so does the hemisphere.
pub proof fn lemma_longitude_round_trip(deg: u8, min: u8, dec: u16, west: bool)
    requires
        deg < 180,
        min < 60,
        dec < 1000,
    ensures
        longitude_of(longitude_text(deg, min, dec, west)) == Some(
            Angle::plain(west, (deg * 60000 + min * 1000 + dec) as nat),
        ),
{
    let s = longitude_text(deg, min, dec, west);
    assert(s.len() == 9);
    let degrees = s.subrange(0, 3);
    assert(s.subrange(3, 5) =~= pair_text(min));
    assert(s.subrange(5, 8) =~= triple_text(dec));
    assert(degrees[0] == DIGIT_0 + deg / 100 && degrees[1] == DIGIT_0 + (deg % 100) / 10 && degrees[2] == DIGIT_0
        + (deg % 100) % 10);
    assert forall|i: int| 0 <= i < degrees.len() implies is_digit(#[trigger] degrees[i]) by {}
    lemma_digits_3(degrees);
    lemma_pair_round_trip(min);
    lemma_triple_round_trip(dec);
    lemma_all_digits_join(s, 3, 5, 8);
}

/// A latitude that decodes lies strictly between the poles, and a longitude
/// that decodes strictly within half a turn of Greenwich.
pub proof fn lemma_angles_are_bounded(s: Seq<u8>)
    ensures
        latitude_of(s) matches Some(angle) ==> angle.milli_minutes < 90 * 60000,
        longitude_of(s) matches Some(angle) ==> angle.milli_minutes < 180 * 60000,
{
    if latitude_of(s) is Some {
        lemma_all_digits_split(s, 2, 4, 7);
        lemma_digits_3(s.subrange(4, 7));
    }
    if longitude_of(s) is Some {
        lemma_all_digits_split(s, 3, 5, 8);
        lemma_digits_3(s.subrange(5, 8));
    }
}

} // verus!
