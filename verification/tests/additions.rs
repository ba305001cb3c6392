use igc::additions::definition::clone_defs;
use igc::{
    parse_additions, parse_from_record_line, AdditionCode, AdditionDef, AdditionsMap, Error,
    Expected, Found, Line, ParseAdditions,
};

#[test]
fn additions_parse_def_example_1() {
    let def = AdditionDef::parse_unchecked(b"3638FXA");
    assert_eq!(def, AdditionDef::new(AdditionCode::FXA, 36, 38));
}

#[test]
fn additions_parse_def_example_2() {
    let def = AdditionDef::parse_unchecked(b"3940SIU");
    assert_eq!(def, AdditionDef::new(AdditionCode::SIU, 39, 40));
}

#[test]
fn definition_parse_def_example_1() {
    let def = AdditionDef::parse_unchecked(b"3638FXA");
    assert_eq!(def, AdditionDef::new(AdditionCode::FXA, 36, 38));
}

#[test]
fn definition_parse_def_example_2() {
    let def = AdditionDef::parse_unchecked(b"3940SIU");
    assert_eq!(def, AdditionDef::new(AdditionCode::SIU, 39, 40));
}

#[test]
fn additions_parse_example_1() {
    let additions_defs = vec![AdditionDef::new(AdditionCode::HDT, 8, 12)];
    let additions = additions_defs.parse(b"K12345600090").unwrap();
    assert_eq!(additions.len(), 1);
    assert_eq!(additions.get(&AdditionCode::HDT), Some(&b"00090".to_vec()));
}

#[test]
fn additions_parse_example_2() {
    let additions_defs = vec![
        AdditionDef::new(AdditionCode::FXA, 36, 38),
        AdditionDef::new(AdditionCode::SIU, 39, 40),
    ];
    let additions = additions_defs.parse(b"B0818265049456N00610940EA011730132000308").unwrap();
    assert_eq!(additions.len(), 2);
    assert_eq!(additions.get(&AdditionCode::FXA), Some(&b"003".to_vec()));
    assert_eq!(additions.get(&AdditionCode::SIU), Some(&b"08".to_vec()));
}

#[test]
fn additions_parse_errors() {
    let additions_defs = vec![AdditionDef::new(AdditionCode::HDT, 8, 12)];
    let result = additions_defs.parse(b"K1234560009");
    assert_eq!(result.unwrap_err().message(), "invalid record: K1234560009");
}

#[test]
fn map_parse_example_1() {
    let additions_defs = vec![AdditionDef::new(AdditionCode::HDT, 8, 12)];
    let additions = additions_defs.parse(b"K12345600090").unwrap();
    assert_eq!(additions.len(), 1);
    assert_eq!(additions.get(&AdditionCode::HDT), Some(&b"00090".to_vec()));
}

#[test]
fn map_parse_example_2() {
    let additions_defs = vec![
        AdditionDef::new(AdditionCode::FXA, 36, 38),
        AdditionDef::new(AdditionCode::SIU, 39, 40),
    ];
    let additions = additions_defs.parse(b"B0818265049456N00610940EA011730132000308").unwrap();
    assert_eq!(additions.len(), 2);
    assert_eq!(additions.get(&AdditionCode::FXA), Some(&b"003".to_vec()));
    assert_eq!(additions.get(&AdditionCode::SIU), Some(&b"08".to_vec()));
}

#[test]
fn map_parse_errors() {
    let additions_defs = vec![AdditionDef::new(AdditionCode::HDT, 8, 12)];
    let result = additions_defs.parse(b"K1234560009");
    assert_eq!(result.unwrap_err().message(), "invalid record: K1234560009");
}

#[test]
fn additions_test_example_1() {
    let additions_decl = parse_from_record_line(b"J010812HDT").unwrap();
    let additions = parse_additions(b"K12345600090", &additions_decl).unwrap();
    assert_eq!(additions.len(), 1);
    assert_eq!(additions.get(&AdditionCode::HDT), Some(&b"00090".to_vec()));
}

#[test]
fn additions_test_example_2() {
    let additions_decl = parse_from_record_line(b"I023638FXA3940SIU").unwrap();
    let additions =
        parse_additions(b"B0818265049456N00610940EA011730132000308", &additions_decl).unwrap();
    assert_eq!(additions.len(), 2);
    assert_eq!(additions.get(&AdditionCode::FXA), Some(&b"003".to_vec()));
    assert_eq!(additions.get(&AdditionCode::SIU), Some(&b"08".to_vec()));
}

#[test]
fn additions_test_errors() {
    let additions_decl = parse_from_record_line(b"J010812HDT").unwrap();
    let result = parse_additions(b"K1234560009", &additions_decl);
    assert_eq!(
        result.unwrap_err().message(),
        "Expected: at least 12 characters; Found: 11 characters"
    );
}

#[test]
fn fxa_is_cut_from_bytes_36_to_38() {
    let defs = vec![AdditionDef::new(AdditionCode::FXA, 36, 38)];
    let line = b"B1414065016925N00953112EA021640228700309";
    let additions = defs.parse(line).unwrap();
    assert_eq!(additions.get(&AdditionCode::FXA).unwrap(), b"003");
    assert_eq!(additions.get(&AdditionCode::FXA).unwrap(), &line[35..38]);
    assert!(additions.contains_key(&AdditionCode::FXA));
    assert!(!additions.contains_key(&AdditionCode::ENL));
    assert_eq!(additions.get(&AdditionCode::ENL), None);
}

#[test]
fn a_declaration_beyond_the_line_fails() {
    let line = b"B1414065016925N00953112EA021640228700309";
    assert_eq!(line.len(), 40);
    let fits = vec![AdditionDef::new(AdditionCode::FXA, 38, 40)];
    assert_eq!(fits.parse(line).unwrap().get(&AdditionCode::FXA).unwrap(), b"309");
    let beyond = vec![AdditionDef::new(AdditionCode::FXA, 38, 41)];
    assert_eq!(
        beyond.parse(line).unwrap_err(),
        Error::InvalidRecord { line: Line(line.to_vec()) }
    );
    let far = vec![AdditionDef::new(AdditionCode::FXA, 41, 42)];
    assert!(far.parse(line).is_err());
    let second = vec![
        AdditionDef::new(AdditionCode::FXA, 36, 38),
        AdditionDef::new(AdditionCode::ENL, 39, 41),
    ];
    assert!(second.parse(line).is_err());
}

#[test]
fn a_declaration_out_of_order_fails() {
    let line = b"K160310090";
    let zero = vec![AdditionDef::new(AdditionCode::HDT, 0, 3)];
    assert!(zero.parse(line).is_err());
    let reversed = vec![AdditionDef::new(AdditionCode::HDT, 9, 8)];
    assert!(reversed.parse(line).is_err());
    assert_eq!(
        parse_additions(line, &reversed).unwrap_err(),
        Error::Unexpected {
            expected: Expected::StartBeforeEnd,
            found: Found::Bounds { start: 9, end: 8 },
        }
    );
    let one = vec![AdditionDef::new(AdditionCode::HDT, 1, 1)];
    assert_eq!(one.parse(line).unwrap().get(&AdditionCode::HDT).unwrap(), b"K");
}

#[test]
fn the_later_of_two_declarations_of_a_code_counts() {
    let defs = vec![
        AdditionDef::new(AdditionCode::HDT, 8, 10),
        AdditionDef::new(AdditionCode::HDM, 8, 10),
        AdditionDef::new(AdditionCode::HDT, 11, 13),
    ];
    let additions = defs.parse(b"K160310090299").unwrap();
    assert_eq!(additions.len(), 2);
    assert_eq!(additions.get(&AdditionCode::HDT).unwrap(), b"299");
    assert_eq!(additions.get(&AdditionCode::HDM).unwrap(), b"090");
}

#[test]
fn no_declarations_give_no_additions() {
    let defs: Vec<AdditionDef> = vec![];
    let additions = defs.parse(b"").unwrap();
    assert_eq!(additions.len(), 0);
    assert!(additions.is_empty());
}

#[test]
fn a_map_is_filled_by_hand() {
    let mut map = AdditionsMap::new();
    assert!(map.is_empty());
    map.insert(AdditionCode::ENL, b"001".to_vec());
    map.insert(AdditionCode::Other("XYZ".into()), b"a".to_vec());
    map.insert(AdditionCode::ENL, b"002".to_vec());
    assert_eq!(map.len(), 2);
    assert_eq!(map.get(&AdditionCode::ENL).unwrap(), b"002");
    assert_eq!(map.get(&AdditionCode::Other("XYZ".into())).unwrap(), b"a");
    assert_eq!(map.get(&AdditionCode::Other("ENL".into())), None);
}

#[test]
fn declarations_are_read_in_order() {
    let defs = parse_from_record_line(b"I023638FXA3941ENL").unwrap();
    assert_eq!(
        defs,
        vec![
            AdditionDef::new(AdditionCode::FXA, 36, 38),
            AdditionDef::new(AdditionCode::ENL, 39, 41),
        ]
    );
    assert_eq!(clone_defs(&defs), defs);
    assert_eq!(parse_from_record_line(b"I00").unwrap(), vec![]);
    assert_eq!(
        parse_from_record_line(b"J010000abc").unwrap(),
        vec![AdditionDef::new(AdditionCode::Other("abc".into()), 0, 0)]
    );
}

#[test]
fn a_wrong_count_names_both_numbers() {
    assert_eq!(
        parse_from_record_line(b"I01000").unwrap_err(),
        Error::Unexpected { expected: Expected::Additions(1), found: Found::Characters(3) }
    );
    assert_eq!(
        parse_from_record_line(b"I01000").unwrap_err().message(),
        "Expected: 1 additions (= 7 characters); Found: 3 characters"
    );
    assert_eq!(
        parse_from_record_line(b"I023638FXA").unwrap_err().message(),
        "Expected: 2 additions (= 14 characters); Found: 7 characters"
    );
    assert_eq!(
        parse_from_record_line(b"I003638FXA").unwrap_err().message(),
        "Expected: 0 additions (= 0 characters); Found: 7 characters"
    );
}

#[test]
fn a_definition_is_seven_bytes() {
    assert_eq!(AdditionDef::parse(b"3638FXA"), Some(AdditionDef::new(AdditionCode::FXA, 36, 38)));
    assert_eq!(AdditionDef::parse(b"9900???"), Some(AdditionDef::new(AdditionCode::Other("???".into()), 99, 0)));
    assert_eq!(AdditionDef::parse(b"3638FX"), None);
    assert_eq!(AdditionDef::parse(b"3638FXAA"), None);
    assert_eq!(AdditionDef::parse(b"3a38FXA"), None);
    assert_eq!(AdditionDef::parse(b"36-8FXA"), None);
    assert_eq!(AdditionDef::parse(&[0x33, 0x36, 0x33, 0x38, 0xc3, 0x84, 0x41]), None);
}
