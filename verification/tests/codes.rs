use igc::{AdditionCode, EventCode, HeaderCode, HeaderSource, LRecordSource};
use std::str::FromStr;

#[test]
fn test_from_str() {
    assert_eq!(AdditionCode::from_str("FXA").unwrap(), AdditionCode::FXA);
    assert_eq!(AdditionCode::from_str("SIU").unwrap(), AdditionCode::SIU);
    assert_eq!(AdditionCode::from_str("siu").unwrap(), AdditionCode::Other("siu".into()));
    assert_eq!(AdditionCode::from_str("???").unwrap(), AdditionCode::Other("???".into()));
    assert_eq!(AdditionCode::from_str("").unwrap(), AdditionCode::Other("".into()));
    assert_eq!(AdditionCode::from_str("foobar").unwrap(), AdditionCode::Other("foobar".into()));
}

#[test]
fn events_test_from_str() {
    assert_eq!(EventCode::from_str("PEV").unwrap(), EventCode::PEV);
    assert_eq!(EventCode::from_str("MAC").unwrap(), EventCode::MAC);
    assert_eq!(EventCode::from_str("pev").unwrap(), EventCode::Other("pev".into()));
    assert_eq!(EventCode::from_str("???").unwrap(), EventCode::Other("???".into()));
    assert_eq!(EventCode::from_str("").unwrap(), EventCode::Other("".into()));
    assert_eq!(EventCode::from_str("foobar").unwrap(), EventCode::Other("foobar".into()));
}

#[test]
fn code_test_from_str() {
    assert_eq!(HeaderCode::from_str("PLT").unwrap(), HeaderCode::PLT);
    assert_eq!(HeaderCode::from_str("CM2").unwrap(), HeaderCode::CM2);
    assert_eq!(HeaderCode::from_str("cm2").unwrap(), HeaderCode::Other("cm2".into()));
    assert_eq!(HeaderCode::from_str("???").unwrap(), HeaderCode::Other("???".into()));
    assert_eq!(HeaderCode::from_str("").unwrap(), HeaderCode::Other("".into()));
    assert_eq!(HeaderCode::from_str("foobar").unwrap(), HeaderCode::Other("foobar".into()));
}

#[test]
fn test_from_bytes() {
    assert_eq!(AdditionCode::from_bytes_unchecked(b"FXA"), AdditionCode::FXA);
    assert_eq!(AdditionCode::from_bytes_unchecked(b"SIU"), AdditionCode::SIU);
    assert_eq!(AdditionCode::from_bytes_unchecked(b"siu"), AdditionCode::Other("siu".into()));
    assert_eq!(AdditionCode::from_bytes_unchecked(b"???"), AdditionCode::Other("???".into()));
    assert_eq!(AdditionCode::from_bytes_unchecked(b""), AdditionCode::Other("".into()));
    assert_eq!(AdditionCode::from_bytes_unchecked(b"foobar"), AdditionCode::Other("foobar".into()));
}

#[test]
fn events_test_from_bytes() {
    assert_eq!(EventCode::from_bytes_unchecked(b"PEV"), EventCode::PEV);
    assert_eq!(EventCode::from_bytes_unchecked(b"MAC"), EventCode::MAC);
    assert_eq!(EventCode::from_bytes_unchecked(b"pev"), EventCode::Other("pev".into()));
    assert_eq!(EventCode::from_bytes_unchecked(b"???"), EventCode::Other("???".into()));
    assert_eq!(EventCode::from_bytes_unchecked(b""), EventCode::Other("".into()));
    assert_eq!(EventCode::from_bytes_unchecked(b"foobar"), EventCode::Other("foobar".into()));
}

#[test]
fn code_test_from_bytes() {
    assert_eq!(HeaderCode::from_bytes_unchecked(b"PLT"), HeaderCode::PLT);
    assert_eq!(HeaderCode::from_bytes_unchecked(b"CM2"), HeaderCode::CM2);
    assert_eq!(HeaderCode::from_bytes_unchecked(b"cm2"), HeaderCode::Other("cm2".into()));
    assert_eq!(HeaderCode::from_bytes_unchecked(b"???"), HeaderCode::Other("???".into()));
    assert_eq!(HeaderCode::from_bytes_unchecked(b""), HeaderCode::Other("".into()));
    assert_eq!(HeaderCode::from_bytes_unchecked(b"foobar"), HeaderCode::Other("foobar".into()));
}

#[test]
fn test_from_byte() {
    assert_eq!(HeaderSource::from_byte_unchecked(b'F'), HeaderSource::FlightRecorder);
    assert_eq!(HeaderSource::from_byte_unchecked(b'O'), HeaderSource::Observer);
    assert_eq!(HeaderSource::from_byte_unchecked(b'2'), HeaderSource::Other('2'));
    assert_eq!(HeaderSource::from_byte_unchecked(b'?'), HeaderSource::Other('?'));
}

#[test]
fn from_byte_takes_every_ascii_byte() {
    for b in 0..128u8 {
        let source = HeaderSource::from_byte_unchecked(b);
        match b {
            b'F' => assert_eq!(source, HeaderSource::FlightRecorder),
            b'O' => assert_eq!(source, HeaderSource::Observer),
            _ => assert_eq!(source, HeaderSource::Other(b as char)),
        }
    }
}

#[test]
fn every_addition_code_is_read_from_its_name() {
    let all = [
        ("ACX", AdditionCode::ACX),
        ("ACY", AdditionCode::ACY),
        ("ACZ", AdditionCode::ACZ),
        ("ANX", AdditionCode::ANX),
        ("ANY", AdditionCode::ANY),
        ("ABZ", AdditionCode::ABZ),
        ("DAE", AdditionCode::DAE),
        ("DAN", AdditionCode::DAN),
        ("ENL", AdditionCode::ENL),
        ("FXA", AdditionCode::FXA),
        ("HDM", AdditionCode::HDM),
        ("HDT", AdditionCode::HDT),
        ("IAS", AdditionCode::IAS),
        ("LAD", AdditionCode::LAD),
        ("LOD", AdditionCode::LOD),
        ("MOP", AdditionCode::MOP),
        ("OAT", AdditionCode::OAT),
        ("RAI", AdditionCode::RAI),
        ("REX", AdditionCode::REX),
        ("SIU", AdditionCode::SIU),
        ("TAS", AdditionCode::TAS),
        ("TDS", AdditionCode::TDS),
        ("TEN", AdditionCode::TEN),
        ("VAR", AdditionCode::VAR),
        ("VAT", AdditionCode::VAT),
        ("VXA", AdditionCode::VXA),
        ("WDI", AdditionCode::WDI),
        ("WSP", AdditionCode::WSP),
    ];
    for (name, code) in all.iter() {
        assert_eq!(&AdditionCode::from_text(name), code);
        assert_eq!(&AdditionCode::from_bytes_unchecked(name.as_bytes()), code);
        assert_eq!(format!("{:?}", code), *name);
        assert!(code.same_as(code));
        assert_eq!(&code.clone(), code);
        let lower = name.to_lowercase();
        assert_eq!(AdditionCode::from_text(&lower), AdditionCode::Other(lower.clone()));
        assert!(!code.same_as(&AdditionCode::Other(name.to_string())));
    }
    for (i, (_, a)) in all.iter().enumerate() {
        for (j, (_, b)) in all.iter().enumerate() {
            assert_eq!(a.same_as(b), i == j);
            assert_eq!(a == b, i == j);
        }
    }
}

#[test]
fn every_event_code_is_read_from_its_name() {
    let all = [
        ("ATS", EventCode::ATS),
        ("BFI", EventCode::BFI),
        ("CCN", EventCode::CCN),
        ("CDC", EventCode::CDC),
        ("CGD", EventCode::CGD),
        ("EON", EventCode::EON),
        ("EOF", EventCode::EOF),
        ("EDN", EventCode::EDN),
        ("EUP", EventCode::EUP),
        ("FIN", EventCode::FIN),
        ("FLP", EventCode::FLP),
        ("GCN", EventCode::GCN),
        ("GDC", EventCode::GDC),
        ("LOV", EventCode::LOV),
        ("MAC", EventCode::MAC),
        ("ONT", EventCode::ONT),
        ("PEV", EventCode::PEV),
        ("PHO", EventCode::PHO),
        ("STA", EventCode::STA),
        ("TPC", EventCode::TPC),
        ("UND", EventCode::UND),
    ];
    for (name, code) in all.iter() {
        assert_eq!(&EventCode::from_text(name), code);
        assert_eq!(&EventCode::from_bytes_unchecked(name.as_bytes()), code);
        assert!(code.same_as(&code.clone()));
    }
}

#[test]
fn every_header_code_is_read_from_its_name() {
    let all = [
        ("DTE", HeaderCode::DTE),
        ("PLT", HeaderCode::PLT),
        ("CM2", HeaderCode::CM2),
        ("DOB", HeaderCode::DOB),
        ("DB1", HeaderCode::DB1),
        ("DB2", HeaderCode::DB2),
        ("GTY", HeaderCode::GTY),
        ("GID", HeaderCode::GID),
        ("CID", HeaderCode::CID),
        ("CCL", HeaderCode::CCL),
        ("DTM", HeaderCode::DTM),
        ("FTY", HeaderCode::FTY),
        ("RFW", HeaderCode::RFW),
        ("RHW", HeaderCode::RHW),
        ("GPS", HeaderCode::GPS),
        ("PRS", HeaderCode::PRS),
        ("FRS", HeaderCode::FRS),
        ("MOP", HeaderCode::MOP),
    ];
    for (name, code) in all.iter() {
        assert_eq!(&HeaderCode::from_text(name), code);
        assert_eq!(&HeaderCode::from_bytes_unchecked(name.as_bytes()), code);
        assert!(code.same_as(&code.clone()));
    }
}

#[test]
fn sources_of_comments() {
    assert_eq!(LRecordSource::from_text("PLT"), LRecordSource::PLT);
    assert_eq!(LRecordSource::from_text("PFC"), LRecordSource::PFC);
    assert_eq!(LRecordSource::from_text("OOI"), LRecordSource::OOI);
    assert_eq!(LRecordSource::from_text("XXX"), LRecordSource::Other("XXX".into()));
    assert_eq!(LRecordSource::from_bytes_unchecked(b"OOI"), LRecordSource::OOI);
    assert_eq!("PFC".parse::<LRecordSource>().unwrap(), LRecordSource::PFC);
}

#[test]
fn unknown_codes_are_kept_by_their_text() {
    let a = AdditionCode::Other("XYZ".into());
    let b = AdditionCode::Other("XYZ".into());
    let c = AdditionCode::Other("XYz".into());
    assert!(a.same_as(&b));
    assert!(!a.same_as(&c));
    assert_eq!(a, b);
    assert_ne!(a, c);
    assert_eq!(AdditionCode::from_text("Jörg"), AdditionCode::Other("Jörg".into()));
    assert_eq!(AdditionCode::from_text("FXAA"), AdditionCode::Other("FXAA".into()));
    assert_eq!(AdditionCode::from_text("FX"), AdditionCode::Other("FX".into()));
}
