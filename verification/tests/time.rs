use igc::{parse_date, parse_time, Date, Error, Line, Time};

#[test]
fn time_test_time() {
    assert_eq!(parse_time(b"000000").unwrap(), Time::from_hms(0, 0, 0));
    assert_eq!(parse_time(b"123456").unwrap(), Time::from_hms(12, 34, 56));
    assert_eq!(parse_time(b"235959").unwrap(), Time::from_hms(23, 59, 59));
    assert!(parse_time(b"612345").is_err());
}

#[test]
fn test_time_parse_unchecked() {
    assert_eq!(Time::parse_unchecked(b"000000"), Time::from_hms(0, 0, 0));
    assert_eq!(Time::parse_unchecked(b"012345"), Time::from_hms(1, 23, 45));
    assert_eq!(Time::parse_unchecked(b"123456"), Time::from_hms(12, 34, 56));
    assert_eq!(Time::parse_unchecked(b"235959"), Time::from_hms(23, 59, 59));
    assert_eq!(Time::parse_unchecked(b"999999"), Time::from_hms(99, 99, 99));
}

#[test]
fn test_date_parse_unchecked() {
    assert_eq!(Date::parse_unchecked(b"000000"), Date::new(0, 0, 0));
    assert_eq!(Date::parse_unchecked(b"012345"), Date::new(45, 23, 1));
    assert_eq!(Date::parse_unchecked(b"123456"), Date::new(56, 34, 12));
    assert_eq!(Date::parse_unchecked(b"235959"), Date::new(59, 59, 23));
    assert_eq!(Date::parse_unchecked(b"999999"), Date::new(99, 99, 99));
}

#[test]
fn parses_all_valid_times() {
    for h in 0..24u8 {
        for m in 0..60u8 {
            for s in 0..60u8 {
                let text = format!("{:02}{:02}{:02}", h, m, s);
                let time = parse_time(text.as_bytes()).unwrap();
                assert_eq!(time, Time::from_hms(h, m, s));
                assert_eq!(time.hour(), h);
                assert_eq!(time.minute(), m);
                assert_eq!(time.second(), s);
                assert_eq!(time.format(), text.as_bytes());
            }
        }
    }
}

#[test]
fn time_refuses_each_part_that_is_out_of_range() {
    assert!(parse_time(b"240000").is_err());
    assert!(parse_time(b"006000").is_err());
    assert!(parse_time(b"000060").is_err());
    assert!(parse_time(b"235960").is_err());
    assert_eq!(parse_time(b"235959").unwrap(), Time::from_hms(23, 59, 59));
}

#[test]
fn time_refuses_what_is_not_six_digits() {
    for input in [&b""[..], b"12345", b"1234567", b"12345a", b"+1+2+3", b"-10000", b"12 456"] {
        assert_eq!(
            parse_time(input).unwrap_err(),
            Error::InvalidTime { text: Line(input.to_vec()) }
        );
    }
    assert!(parse_time("１２３４５６".as_bytes()).is_err());
    assert!(parse_time(&[0xff, 0xfe, 0x31, 0x32, 0x33, 0x34]).is_err());
}

#[test]
fn date_is_not_held_against_a_calendar() {
    assert_eq!(parse_date(b"311399"), Some(Date::new(99, 13, 31)));
    assert_eq!(parse_date(b"000000"), Some(Date::new(0, 0, 0)));
    assert_eq!(parse_date(b"150709"), Some(Date::new(9, 7, 15)));
    assert_eq!(parse_date(b"15070"), None);
    assert_eq!(parse_date(b"1507099"), None);
    assert_eq!(parse_date(b"15o709"), None);
}

#[test]
fn unchecked_readers_look_at_the_first_six_bytes_only() {
    assert_eq!(Time::parse_unchecked(b"123456789"), Time::from_hms(12, 34, 56));
    assert_eq!(Date::parse_unchecked(b"123456xyz"), Date::new(56, 34, 12));
}

#[test]
fn test_time() {
    assert_eq!(parse_time("000000".as_bytes()).unwrap(), Time::from_hms(0, 0, 0));
    assert_eq!(parse_time("123456".as_bytes()).unwrap(), Time::from_hms(12, 34, 56));
    assert_eq!(parse_time("235959".as_bytes()).unwrap(), Time::from_hms(23, 59, 59));
    assert!(parse_time("612345".as_bytes()).is_err());
}
