use igc::{
    parse_latitude, parse_latitude_unchecked, parse_longitude, parse_longitude_unchecked, Angle,
    Error, Fraction, Line,
};

fn degrees(angle: &Angle) -> f64 {
    let beyond = angle.fraction.numerator as f64 / 10f64.powi(angle.fraction.digits as i32);
    let deg = (angle.milli_minutes / 60000) as f64;
    let min = ((angle.milli_minutes % 60000) / 1000) as f64;
    let min_dec = (angle.milli_minutes % 1000) as f64 + beyond;
    let size = deg + min / 60. + min_dec / 60000.;
    if angle.negative {
        -size
    } else {
        size
    }
}

fn close(a: f64, b: f64) -> bool {
    let difference = (a - b).abs();
    a == b || difference <= f64::EPSILON || difference <= f64::EPSILON * a.abs().max(b.abs())
}

#[test]
fn coordinate_test_latitude() {
    assert!(close(degrees(&parse_latitude(b"0000000N").unwrap()), 0.));
    assert!(close(degrees(&parse_latitude(b"0000000S").unwrap()), 0.));
    assert!(close(degrees(&parse_latitude(b"5016925N").unwrap()), 50.28208333333333));
    assert!(close(degrees(&parse_latitude(b"5016925S").unwrap()), -50.28208333333333));
    assert!(close(degrees(&parse_latitude(b"8959999N").unwrap()), 89.99998333333333));
    assert!(parse_latitude(b"9000000N").is_err());
    assert!(parse_latitude(b"0060000N").is_err());
    assert!(parse_latitude(b"0000000X").is_err());
    assert!(parse_latitude(b"00000x0N").is_err());
}

#[test]
fn coordinate_test_longitude() {
    assert!(close(degrees(&parse_longitude(b"00000000E").unwrap()), 0.));
    assert!(close(degrees(&parse_longitude(b"00000000W").unwrap()), 0.));
    assert!(close(degrees(&parse_longitude(b"05016925E").unwrap()), 50.28208333333333));
    assert!(close(degrees(&parse_longitude(b"05016925W").unwrap()), -50.28208333333333));
    assert!(close(degrees(&parse_longitude(b"00953112E").unwrap()), 9.8852));
    assert!(close(degrees(&parse_longitude(b"17959999E").unwrap()), 179.99998333333333));
    assert!(parse_longitude(b"18000000E").is_err());
    assert!(parse_longitude(b"00060000E").is_err());
    assert!(parse_longitude(b"00000000X").is_err());
    assert!(parse_longitude(b"00000x00E").is_err());
}

#[test]
fn test_parse_latitude_unchecked() {
    assert!(close(degrees(&parse_latitude_unchecked(b"5016925N")), 50.28208333333333));
}

#[test]
fn test_parse_longitude_unchecked() {
    assert!(close(degrees(&parse_longitude_unchecked(b"00953112E")), 9.8852));
}

#[test]
fn latitude_in_whole_numbers() {
    let angle = parse_latitude(b"5016925N").unwrap();
    assert_eq!(
        angle,
        Angle {
            negative: false,
            milli_minutes: 50 * 60000 + 16 * 1000 + 925,
            fraction: Fraction { numerator: 0, digits: 0 },
        }
    );
    assert_eq!(angle.degrees(), 50);
    assert_eq!(angle.minutes(), 16);
    let angle = parse_latitude(b"0000000S").unwrap();
    assert!(angle.negative);
    assert_eq!(angle.milli_minutes, 0);
}

#[test]
fn longitude_in_whole_numbers() {
    let angle = parse_longitude(b"17959999W").unwrap();
    assert_eq!(
        angle,
        Angle {
            negative: true,
            milli_minutes: 179 * 60000 + 59 * 1000 + 999,
            fraction: Fraction { numerator: 0, digits: 0 },
        }
    );
    assert_eq!(angle.degrees(), 179);
    assert_eq!(angle.minutes(), 59);
}

#[test]
fn latitude_bounds() {
    assert!(parse_latitude(b"8900000N").is_ok());
    assert!(parse_latitude(b"8959999S").is_ok());
    assert!(parse_latitude(b"9000000N").is_err());
    assert!(parse_latitude(b"9000000S").is_err());
    assert!(parse_latitude(b"9900000N").is_err());
    assert!(parse_latitude(b"0059999N").is_ok());
    assert!(parse_latitude(b"0060000N").is_err());
    assert!(parse_latitude(b"0099999N").is_err());
}

#[test]
fn longitude_bounds() {
    assert!(parse_longitude(b"17900000E").is_ok());
    assert!(parse_longitude(b"17959999W").is_ok());
    assert!(parse_longitude(b"18000000E").is_err());
    assert!(parse_longitude(b"18000000W").is_err());
    assert!(parse_longitude(b"99900000E").is_err());
    assert!(parse_longitude(b"00059999E").is_ok());
    assert!(parse_longitude(b"00060000E").is_err());
}

#[test]
fn coordinates_round_trip() {
    for deg in [0u32, 1, 45, 89] {
        for min in 0..60u32 {
            for dec in [0u32, 1, 9, 10, 99, 100, 500, 999] {
                for (letter, negative) in [('N', false), ('S', true)] {
                    let text = format!("{:02}{:02}{:03}{}", deg, min, dec, letter);
                    let angle = parse_latitude(text.as_bytes()).unwrap();
                    assert_eq!(angle.negative, negative);
                    assert_eq!(angle.milli_minutes, deg * 60000 + min * 1000 + dec);
                    assert_eq!(angle.degrees(), deg);
                    assert_eq!(angle.minutes(), min);
                }
            }
        }
    }
    for deg in [0u32, 9, 10, 99, 100, 179] {
        for min in [0u32, 7, 59] {
            for dec in 0..1000u32 {
                for (letter, negative) in [('E', false), ('W', true)] {
                    let text = format!("{:03}{:02}{:03}{}", deg, min, dec, letter);
                    let angle = parse_longitude(text.as_bytes()).unwrap();
                    assert_eq!(angle.negative, negative);
                    assert_eq!(angle.milli_minutes, deg * 60000 + min * 1000 + dec);
                }
            }
        }
    }
}

#[test]
fn coordinate_errors_carry_the_field() {
    assert_eq!(
        parse_latitude(b"9000000N").unwrap_err(),
        Error::InvalidLatitude { text: Line(b"9000000N".to_vec()) }
    );
    assert_eq!(
        parse_longitude(b"18000000E").unwrap_err(),
        Error::InvalidLongitude { text: Line(b"18000000E".to_vec()) }
    );
    assert_eq!(parse_latitude(b"").unwrap_err(), Error::InvalidLatitude { text: Line(vec![]) });
    assert!(parse_latitude(b"5016925").is_err());
    assert!(parse_latitude(b"5016925NN").is_err());
    assert!(parse_latitude(b"5016925n").is_err());
    assert!(parse_latitude(b"5016925E").is_err());
    assert!(parse_longitude(b"00953112N").is_err());
    assert!(parse_longitude(b"0953112E").is_err());
    assert!(parse_latitude(b"+016925N").is_err());
    assert!(parse_latitude(b"50+6925N").is_err());
    assert!(parse_latitude(b"5016+25N").is_err());
}

#[test]
fn unchecked_readers_take_the_numbers_as_they_stand() {
    let angle = parse_latitude_unchecked(b"9999999S");
    assert!(angle.negative);
    assert_eq!(angle.milli_minutes, 99 * 60000 + 99999);
    let angle = parse_longitude_unchecked(b"99999999W");
    assert!(angle.negative);
    assert_eq!(angle.milli_minutes, 999 * 60000 + 99999);
    let angle = parse_longitude_unchecked(b"00953112X");
    assert!(!angle.negative);
}

#[test]
fn test_latitude() {
    assert!(close(degrees(&parse_latitude("0000000N".as_bytes()).unwrap()), 0.));
    assert!(close(degrees(&parse_latitude("0000000S".as_bytes()).unwrap()), 0.));
    assert!(close(degrees(&parse_latitude("5016925N".as_bytes()).unwrap()), 50.28208333333333));
    assert!(close(degrees(&parse_latitude("5016925S".as_bytes()).unwrap()), -50.28208333333333));
    assert!(close(degrees(&parse_latitude("8959999N".as_bytes()).unwrap()), 89.99998333333333));
    assert!(parse_latitude("9000000N".as_bytes()).is_err());
    assert!(parse_latitude("0060000N".as_bytes()).is_err());
    assert!(parse_latitude("0000000X".as_bytes()).is_err());
    assert!(parse_latitude("00000x0N".as_bytes()).is_err());
}

#[test]
fn test_longitude() {
    assert!(close(degrees(&parse_longitude("00000000E".as_bytes()).unwrap()), 0.));
    assert!(close(degrees(&parse_longitude("00000000W".as_bytes()).unwrap()), 0.));
    assert!(close(degrees(&parse_longitude("05016925E".as_bytes()).unwrap()), 50.28208333333333));
    assert!(close(degrees(&parse_longitude("05016925W".as_bytes()).unwrap()), -50.28208333333333));
    assert!(close(degrees(&parse_longitude("00953112E".as_bytes()).unwrap()), 9.8852));
    assert!(close(degrees(&parse_longitude("17959999E".as_bytes()).unwrap()), 179.99998333333333));
    assert!(parse_longitude("18000000E".as_bytes()).is_err());
    assert!(parse_longitude("00060000E".as_bytes()).is_err());
    assert!(parse_longitude("00000000X".as_bytes()).is_err());
    assert!(parse_longitude("00000x00E".as_bytes()).is_err());
}
