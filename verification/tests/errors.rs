use igc::error::decimal;
use igc::{Error, Expected, Found, Line, Record};

#[test]
fn an_invalid_record_shows_its_line() {
    assert_eq!(Error::invalid_record(b"K1234560009").message(), "invalid record: K1234560009");
    assert_eq!(
        Error::invalid_record(b"K1234560009"),
        Error::InvalidRecord { line: Line(b"K1234560009".to_vec()) }
    );
    assert_eq!(Error::invalid_record("Jörg".as_bytes()).message(), "invalid record: Jörg");
    assert_eq!(Error::invalid_record(b"").message(), "invalid record: ");
}

#[test]
fn a_line_that_is_no_utf8_is_shown_as_numbers() {
    assert_eq!(Line(vec![0xff]).text(), "[255]");
    assert_eq!(Line(vec![0x4a, 0xf6, 0x72, 0x67]).text(), "[74, 246, 114, 103]");
    assert_eq!(Line(vec![0x00, 0x80, 0x09]).text(), "[0, 128, 9]");
    assert_eq!(Line(b"abc".to_vec()).text(), "abc");
    assert_eq!(Line::new(b"abc"), Line(b"abc".to_vec()));
    assert_eq!(
        Error::invalid_record(&[0x4b, 0xff]).message(),
        format!("invalid record: {:?}", &[0x4bu8, 0xff][..])
    );
}

#[test]
fn numbers_in_words() {
    assert_eq!(decimal(0), "0");
    assert_eq!(decimal(7), "7");
    assert_eq!(decimal(10), "10");
    assert_eq!(decimal(1785), "1785");
    assert_eq!(decimal(u64::MAX), "18446744073709551615");
    for n in 0..3000u64 {
        assert_eq!(decimal(n), n.to_string());
    }
}

#[test]
fn every_error_has_its_words() {
    let line = |s: &str| Line(s.as_bytes().to_vec());
    assert_eq!(Error::UnknownRecordType { tag: b'X' }.message(), "unknown record type: X");
    assert_eq!(Error::UnknownRecordType { tag: 0xff }.message(), "unknown record type: [255]");
    assert_eq!(Error::LineTooShort { line: line("B12") }.message(), "line too short: B12");
    assert_eq!(Error::InvalidTime { text: line("256199") }.message(), "invalid time: 256199");
    assert_eq!(
        Error::InvalidLatitude { text: line("9000000N") }.message(),
        "invalid latitude: 9000000N"
    );
    assert_eq!(
        Error::InvalidLongitude { text: line("18000000E") }.message(),
        "invalid longitude: 18000000E"
    );
    assert_eq!(Error::InvalidValidity { text: line("X") }.message(), "invalid validity: X");
    assert_eq!(Error::Encoding { text: Line(vec![0xf6]) }.message(), "invalid encoding: [246]");
    assert_eq!(
        Error::unexpected(Expected::AsciiCharacters, Found::Text(line("IÄ"))).message(),
        "Expected: ASCII characters; Found: IÄ"
    );
    assert_eq!(
        Error::unexpected(Expected::AtLeastCharacters(3), Found::Text(line("I"))).message(),
        "Expected: at least 3 characters; Found: I"
    );
    assert_eq!(
        Error::unexpected(Expected::Digits, Found::Text(line("AB"))).message(),
        "Expected: digits; Found: AB"
    );
    assert_eq!(
        Error::unexpected(Expected::Additions(99), Found::Characters(0)).message(),
        "Expected: 99 additions (= 693 characters); Found: 0 characters"
    );
    assert_eq!(
        Error::unexpected(Expected::Additions(255), Found::Characters(usize::MAX)).message(),
        format!("Expected: 255 additions (= 1785 characters); Found: {} characters", usize::MAX)
    );
    assert_eq!(
        Error::unexpected(Expected::StartBeforeEnd, Found::Bounds { start: 255, end: 0 }).message(),
        "Expected: start byte <= end byte; Found: start=255 end=0"
    );
    assert_eq!(Expected::Digits.text(), "digits");
    assert_eq!(Found::Characters(11).text(), "11 characters");
}

#[test]
fn the_error_of_a_record_in_words() {
    assert_eq!(Record::parse(b"Z").unwrap_err().message(), "unknown record type: Z");
    assert_eq!(Record::parse(b"B141406").unwrap_err().message(), "line too short: B141406");
    assert_eq!(
        Record::parse(b"I01000").unwrap_err().message(),
        "Expected: 1 additions (= 7 characters); Found: 3 characters"
    );
}
