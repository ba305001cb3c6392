//! Holds the decoders against the grammars of the records, written as
//! regular expressions over bytes.

use igc::{
    BRecord, CRecordDeclaration, CRecordTurnpoint, DRecord, ERecord, FRecord, GPSQualifier,
    GRecord, HRecord, HeaderSource, IRecord, JRecord, KRecord, LRecord,
};
use regex::bytes::Regex;

struct Random(u64);

impl Random {
    fn next(&mut self) -> u64 {
        self.0 ^= self.0 << 13;
        self.0 ^= self.0 >> 7;
        self.0 ^= self.0 << 17;
        self.0
    }

    fn below(&mut self, n: usize) -> usize {
        (self.next() % n as u64) as usize
    }

    fn byte(&mut self) -> u8 {
        const SOME: &[u8] =
            b"0123456789012345678901234567890123456789ABCDEFGHIJKLMNOPQRSTUVWXYZNSEWAVFOP-+:: az\xf6\xc3\xa4\x00\xff\n\n\r";
        SOME[self.below(SOME.len())]
    }
}

fn variants(samples: &[&[u8]], count: usize, seed: u64) -> Vec<Vec<u8>> {
    let mut random = Random(seed);
    let mut all: Vec<Vec<u8>> = samples.iter().map(|s| s.to_vec()).collect();
    for sample in samples {
        for cut in 0..=sample.len() {
            all.push(sample[..cut].to_vec());
        }
    }
    for _ in 0..count {
        let mut line = samples[random.below(samples.len())].to_vec();
        for _ in 0..=random.below(3) {
            match random.below(4) {
                0 if !line.is_empty() => {
                    let at = random.below(line.len());
                    line[at] = random.byte();
                }
                1 if !line.is_empty() => {
                    let at = random.below(line.len());
                    line.remove(at);
                }
                2 => {
                    let at = random.below(line.len() + 1);
                    line.insert(at, random.byte());
                }
                _ => {
                    let at = random.below(line.len() + 1);
                    line.truncate(at);
                }
            }
        }
        all.push(line);
    }
    all
}

fn number(digits: &[u8]) -> i64 {
    std::str::from_utf8(digits).unwrap().parse().unwrap()
}

fn time_is_valid(field: &[u8]) -> bool {
    number(&field[0..2]) < 24 && number(&field[2..4]) < 60 && number(&field[4..6]) < 60
}

fn text(bytes: &[u8]) -> String {
    match std::str::from_utf8(bytes) {
        Ok(s) => s.to_string(),
        Err(_) => bytes.iter().map(|b| *b as char).collect(),
    }
}

fn latitude_is_valid(field: &[u8]) -> bool {
    number(&field[0..2]) < 90 && number(&field[2..4]) < 60
}

fn longitude_is_valid(field: &[u8]) -> bool {
    number(&field[0..3]) < 180 && number(&field[3..5]) < 60
}

#[test]
fn b_records_follow_their_grammar() {
    let grammar = Regex::new(
        r"(?x-u)
        ^B
        (\d{6})
        (\d{7}[NS])
        (\d{8}[EW])
        ([AV])
        (\d{5}|-\d{4})
        (\d{5}|-\d{4})
        (.*)
    ",
    )
    .unwrap();
    let samples: [&[u8]; 4] = [
        b"B1414065016925N00953112EA021640228700309",
        b"B2359598959999S17959999WV-9999-0001",
        b"B0000000000000N00000000EA0000032767xyz",
        b"B1305105240678N00748278WA0077900769033011",
    ];
    let mut accepted = 0;
    for line in variants(&samples, 30000, 1) {
        let decoded = BRecord::parse(&line);
        match grammar.captures(&line) {
            None => assert!(decoded.is_err(), "{:?}", text(&line)),
            Some(cap) => {
                let in_range = time_is_valid(&cap[1])
                    && latitude_is_valid(&cap[2])
                    && longitude_is_valid(&cap[3])
                    && number(&cap[5]) <= i16::MAX as i64
                    && number(&cap[6]) <= i16::MAX as i64;
                assert_eq!(decoded.is_ok(), in_range, "{:?}", text(&line));
                if let Ok(record) = decoded {
                    accepted += 1;
                    assert_eq!(record.time.hour as i64, number(&cap[1][0..2]));
                    assert_eq!(record.time.minute as i64, number(&cap[1][2..4]));
                    assert_eq!(record.time.second as i64, number(&cap[1][4..6]));
                    assert_eq!(
                        record.latitude.milli_minutes as i64,
                        number(&cap[2][0..2]) * 60000 + number(&cap[2][2..7])
                    );
                    assert_eq!(record.latitude.negative, cap[2][7] == b'S');
                    assert_eq!(
                        record.longitude.milli_minutes as i64,
                        number(&cap[3][0..3]) * 60000 + number(&cap[3][3..8])
                    );
                    assert_eq!(record.longitude.negative, cap[3][8] == b'W');
                    assert_eq!(record.is_valid, &cap[4] == b"A");
                    assert_eq!(record.altitude_pressure as i64, number(&cap[5]));
                    assert_eq!(record.altitude_gps as i64, number(&cap[6]));
                    assert_eq!(record.extra, &cap[7]);
                }
            }
        }
    }
    assert!(accepted > 1000);
}

#[test]
fn c_declarations_follow_their_grammar() {
    let grammar = Regex::new(
        r"(?x-u)
        ^C
        (\d{6})
        (\d{6})
        (\d{6})
        (\d{4})
        (\d{2})
        (.*)
    ",
    )
    .unwrap();
    let samples: [&[u8]; 3] = [
        b"C040516072924000000000002Task",
        b"C150709112124150709000114",
        b"C210815093841000000000002500K Triangle",
    ];
    let mut accepted = 0;
    for line in variants(&samples, 20000, 2) {
        let decoded = CRecordDeclaration::parse(&line);
        match grammar.captures(&line) {
            None => assert!(decoded.is_err(), "{:?}", text(&line)),
            Some(cap) => {
                assert_eq!(decoded.is_ok(), time_is_valid(&cap[2]), "{:?}", text(&line));
                if let Ok(record) = decoded {
                    accepted += 1;
                    assert_eq!(record.date.day as i64, number(&cap[1][0..2]));
                    assert_eq!(record.date.month as i64, number(&cap[1][2..4]));
                    assert_eq!(record.date.year as i64, number(&cap[1][4..6]));
                    assert_eq!(record.time.hour as i64, number(&cap[2][0..2]));
                    assert_eq!(record.flight_date.is_none(), &cap[3] == b"000000");
                    if let Some(date) = record.flight_date {
                        assert_eq!(date.day as i64, number(&cap[3][0..2]));
                        assert_eq!(date.month as i64, number(&cap[3][2..4]));
                        assert_eq!(date.year as i64, number(&cap[3][4..6]));
                    }
                    assert_eq!(record.task_number.is_none(), &cap[4] == b"0000");
                    if let Some(task) = record.task_number {
                        assert_eq!(task as i64, number(&cap[4]));
                    }
                    assert_eq!(record.num_turnpoints as i64, number(&cap[5]));
                    assert_eq!(record.text.is_none(), cap[6].is_empty());
                    if let Some(found) = record.text {
                        assert_eq!(found, text(&cap[6]));
                    }
                }
            }
        }
    }
    assert!(accepted > 1000);
}

#[test]
fn c_turnpoints_follow_their_grammar() {
    let grammar = Regex::new(
        r"(?x-u)
        ^C
        (\d{7}[NS])
        (\d{8}[EW])
        (.*)
    ",
    )
    .unwrap();
    let samples: [&[u8]; 3] = [
        b"C5111359N00101899WTAKEOFF Lasham Clubhouse",
        b"C8911359S17901899E",
        b"C0000000N00000000EJ\xf6rg",
    ];
    let mut accepted = 0;
    for line in variants(&samples, 20000, 3) {
        let decoded = CRecordTurnpoint::parse(&line);
        match grammar.captures(&line) {
            None => assert!(decoded.is_err(), "{:?}", text(&line)),
            Some(cap) => {
                let in_range = latitude_is_valid(&cap[1]) && longitude_is_valid(&cap[2]);
                assert_eq!(decoded.is_ok(), in_range, "{:?}", text(&line));
                if let Ok(record) = decoded {
                    accepted += 1;
                    assert_eq!(
                        record.latitude.milli_minutes as i64,
                        number(&cap[1][0..2]) * 60000 + number(&cap[1][2..7])
                    );
                    assert_eq!(record.latitude.negative, cap[1][7] == b'S');
                    assert_eq!(
                        record.longitude.milli_minutes as i64,
                        number(&cap[2][0..3]) * 60000 + number(&cap[2][3..8])
                    );
                    assert_eq!(record.longitude.negative, cap[2][8] == b'W');
                    assert_eq!(record.text.is_none(), cap[3].is_empty());
                    if let Some(found) = record.text {
                        assert_eq!(found, text(&cap[3]));
                    }
                }
            }
        }
    }
    assert!(accepted > 1000);
}

#[test]
fn d_records_follow_their_grammar() {
    let grammar = Regex::new(
        r"(?x-u)
        ^D
        ([12])
        (.{4})?
    ",
    )
    .unwrap();
    let samples: [&[u8]; 4] = [b"D1", b"D2abc3", b"D20331more", b"D2ab"];
    let mut accepted = 0;
    for line in variants(&samples, 10000, 4) {
        let decoded = DRecord::parse(&line);
        match grammar.captures(&line) {
            None => assert!(decoded.is_err(), "{:?}", text(&line)),
            Some(cap) => {
                accepted += 1;
                let record = decoded.unwrap();
                let qualifier =
                    if &cap[1] == b"1" { GPSQualifier::GPS } else { GPSQualifier::DGPS };
                assert_eq!(record.gps_qualifier, qualifier);
                assert_eq!(record.dgps_station_id, cap.get(2).map(|m| m.as_bytes().to_vec()));
            }
        }
    }
    assert!(accepted > 1000);
}

#[test]
fn e_records_follow_their_grammar() {
    let grammar = Regex::new(
        r"(?x-u)
        ^E
        (\d{6})
        ([A-Z0-9]{3})
        (.+)?
    ",
    )
    .unwrap();
    let samples: [&[u8]; 3] = [b"E104533PEV", b"E104544ATS102312", b"E235959XY9J\xf6rg"];
    let mut accepted = 0;
    for line in variants(&samples, 20000, 5) {
        let decoded = ERecord::parse(&line);
        match grammar.captures(&line) {
            None => assert!(decoded.is_err(), "{:?}", text(&line)),
            Some(cap) => {
                assert_eq!(decoded.is_ok(), time_is_valid(&cap[1]), "{:?}", text(&line));
                if let Ok(record) = decoded {
                    accepted += 1;
                    assert_eq!(record.time.second as i64, number(&cap[1][4..6]));
                    assert_eq!(record.code, text(&cap[2]).parse().unwrap());
                    assert_eq!(record.text, cap.get(3).map(|m| text(m.as_bytes())));
                }
            }
        }
    }
    assert!(accepted > 1000);
}

#[test]
fn f_records_follow_their_grammar() {
    let grammar = Regex::new(
        r"(?x-u)
        ^F
        (\d{6})
        ((?:[A-Z0-9]{2})*)
    ",
    )
    .unwrap();
    let samples: [&[u8]; 3] = [b"F1234560102ABC342", b"F123456", b"F00000099ZZ0A"];
    let mut accepted = 0;
    for line in variants(&samples, 20000, 6) {
        let decoded = FRecord::parse(&line);
        match grammar.captures(&line) {
            None => assert!(decoded.is_err(), "{:?}", text(&line)),
            Some(cap) => {
                assert_eq!(decoded.is_ok(), time_is_valid(&cap[1]), "{:?}", text(&line));
                if let Ok(record) = decoded {
                    accepted += 1;
                    let ids: Vec<String> = cap[2].chunks(2).map(text).collect();
                    assert_eq!(record.satellite_ids, ids);
                }
            }
        }
    }
    assert!(accepted > 1000);
}

#[test]
fn g_records_follow_their_grammar() {
    let grammar = Regex::new(
        r"(?x-u)
        ^G
        (.+)
    ",
    )
    .unwrap();
    let samples: [&[u8]; 3] = [b"G0AD873C2B7B20B7BECBFF52F1581601F7AAE3769", b"G", b"GJ\xf6rg"];
    let mut accepted = 0;
    for line in variants(&samples, 5000, 7) {
        let decoded = GRecord::parse(&line);
        match grammar.captures(&line) {
            None => assert!(decoded.is_err(), "{:?}", text(&line)),
            Some(cap) => {
                accepted += 1;
                assert_eq!(decoded.unwrap().text, text(&cap[1]));
            }
        }
    }
    assert!(accepted > 1000);
}

#[test]
fn h_records_follow_their_grammar() {
    let grammar = Regex::new(
        r"(?x-u)
        ^H
        ([FOP])
        ([A-Z\d]{3})
        (?:[^:]+:|:)?
        (.*)
    ",
    )
    .unwrap();
    let samples: [&[u8]; 8] = [
        b"HFRFWFlarm-IGC04.07",
        b"HFRFW:Flarm-IGC04.07",
        b"HFRFWFirmwareVersion:Flarm-IGC04.07",
        b"HOGTYGliderType:A350",
        b"HPCM2Crew2:",
        b"HFPLT:J\xf6rg M\xfcller",
        b"HFDTM100GPSDatum:WGS84:more::",
        b"HFPLT::",
    ];
    let mut accepted = 0;
    for line in variants(&samples, 30000, 8) {
        let decoded = HRecord::parse(&line);
        match grammar.captures(&line) {
            None => assert!(decoded.is_err(), "{:?}", text(&line)),
            Some(cap) => {
                accepted += 1;
                let record = decoded.unwrap();
                let source = match cap[1][0] {
                    b'F' => HeaderSource::FlightRecorder,
                    b'O' => HeaderSource::Observer,
                    other => HeaderSource::Other(other as char),
                };
                assert_eq!(record.source, source);
                assert_eq!(record.code, text(&cap[2]).parse().unwrap());
                assert_eq!(record.text, text(&cap[3]), "{:?}", text(&line));
            }
        }
    }
    assert!(accepted > 1000);
}

#[test]
fn k_records_follow_their_grammar() {
    let grammar = Regex::new(
        r"(?x-u)
        ^K
        (\d{6})
        (.*)
    ",
    )
    .unwrap();
    let samples: [&[u8]; 3] = [b"K160310090", b"K235959", b"K000000090299"];
    let mut accepted = 0;
    for line in variants(&samples, 10000, 9) {
        let decoded = KRecord::parse(&line);
        match grammar.captures(&line) {
            None => assert!(decoded.is_err(), "{:?}", text(&line)),
            Some(cap) => {
                assert_eq!(decoded.is_ok(), time_is_valid(&cap[1]), "{:?}", text(&line));
                if let Ok(record) = decoded {
                    accepted += 1;
                    assert_eq!(record.time.hour as i64, number(&cap[1][0..2]));
                    assert_eq!(record.time.minute as i64, number(&cap[1][2..4]));
                }
            }
        }
    }
    assert!(accepted > 1000);
}

#[test]
fn l_records_follow_their_grammar() {
    let grammar = Regex::new(
        r"(?x-u)
        ^L
        ([A-Z0-9]{3})
        (.+)
    ",
    )
    .unwrap();
    let samples: [&[u8]; 4] = [
        b"LPLTThis flight was my second 1000km attempt",
        b"LOOIfrom Eagle Field",
        b"LOOI",
        b"LXY9J\xf6rg",
    ];
    let mut accepted = 0;
    for line in variants(&samples, 20000, 10) {
        let decoded = LRecord::parse(&line);
        match grammar.captures(&line) {
            None => assert!(decoded.is_err(), "{:?}", text(&line)),
            Some(cap) => {
                accepted += 1;
                let record = decoded.unwrap();
                assert_eq!(record.source, text(&cap[1]).parse().unwrap());
                assert_eq!(record.text, text(&cap[2]));
            }
        }
    }
    assert!(accepted > 1000);
}

#[test]
fn declaration_lines_are_within_their_grammar() {
    let i_grammar = Regex::new(
        r"(?x-u)
        ^I
        (\d{2})
        ((?:\d{4}[[:alnum:]]{3})+)
    ",
    )
    .unwrap();
    let j_grammar = Regex::new(
        r"(?x-u)
        ^J
        (\d{2})
        ((?:\d{4}[[:alnum:]]{3})+)
    ",
    )
    .unwrap();
    let samples: [&[u8]; 6] = [
        b"I023638FXA3941ENL",
        b"I013638ENL",
        b"J010810HDT",
        b"J020810HDT1113HDM",
        b"I033638FXA3940SIU4143abc",
        b"I00",
    ];
    let mut accepted = 0;
    for line in variants(&samples, 30000, 11) {
        // where a decoder takes a line, the grammar takes its leading
        // declarations under codes of letters and digits, and they are the
        // declarations that the decoder found
        let checks = [
            (IRecord::parse(&line).map(|r| (r.num_additions, r.addition_defs)), &i_grammar),
            (JRecord::parse(&line).map(|r| (r.num_additions, r.addition_defs)), &j_grammar),
        ];
        for (decoded, grammar) in checks {
            let (count, defs) = match decoded {
                Ok(found) => found,
                Err(_) => continue,
            };
            assert_eq!(count as usize, defs.len());
            assert_eq!(line.len(), 3 + 7 * defs.len());
            assert_eq!(count as i64, number(&line[1..3]));
            for def in defs.iter() {
                assert!(def.start_byte <= def.end_byte);
            }
            let leading = line[3..]
                .chunks(7)
                .take_while(|c| c[4..].iter().all(u8::is_ascii_alphanumeric))
                .count();
            if leading == 0 {
                assert!(grammar.captures(&line).is_none());
                continue;
            }
            accepted += 1;
            let cap = grammar.captures(&line).unwrap();
            assert_eq!(&cap[2], &line[3..3 + 7 * leading]);
            for (def, group) in defs.iter().zip(cap[2].chunks(7)) {
                assert_eq!(def.start_byte as i64, number(&group[0..2]));
                assert_eq!(def.end_byte as i64, number(&group[2..4]));
                assert_eq!(def.code, text(&group[4..7]).parse().unwrap());
            }
        }
    }
    assert!(accepted > 1000);
}
