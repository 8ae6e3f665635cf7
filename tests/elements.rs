use aamva::elements::{
    by_id, split_at_id, CustomerFamilyName, CustomerFirstName, DocumentType, ElementRegistry,
    JurisdictionSpecificVehicleClass, VeteranIndicator,
};
use aamva::error::Error;
use aamva::text::{remove_padding, split_lines};

#[test]
fn test_by_id() {
    println!("{:#?}", by_id("DCA".to_string()).unwrap());
}

#[test]
fn peepeepoopoo() {
    let poo: Vec<&str> = "test\u{00}another\u{00}\u{00}\u{00}\u{00}".split("\u{00}").collect();
    println!("{:#?}", poo)
}

#[test]
fn by_id_returns_the_registered_definition() {
    let d = by_id("DCA".to_string()).unwrap();
    assert_eq!(d.id, "DCA");
    assert!(d.alpha && d.numeric && d.special);
    assert!(!d.fixed_length);
    assert_eq!(d.length, 6);
    assert_eq!(d.document_type, DocumentType::DL);

    let d = by_id("DDL".to_string()).unwrap();
    assert_eq!(d.length, 1);
    assert!(d.fixed_length);
    assert_eq!(d.document_type, DocumentType::Both);
}

#[test]
fn by_id_unknown_identifier_is_not_found() {
    match by_id("ZZZ".to_string()) {
        Err(Error::ElementNotFound { element_name }) => assert_eq!(element_name, "ZZZ"),
        other => panic!("unexpected {:?}", other),
    }
}

#[test]
fn registry_knows_fifty_elements() {
    let registry = ElementRegistry::standard();
    let ids = [
        "DCA", "DCB", "DCD", "DBA", "DCS", "DAC", "DAD", "DBD", "DBB", "DBC", "DAY", "DAU", "DAG",
        "DAI", "DAJ", "DAK", "DAQ", "DCF", "DCG", "DDE", "DDF", "DDG", "DAH", "DAZ", "DCI", "DCJ",
        "DCK", "DBN", "DBG", "DBS", "DCU", "DCE", "DCL", "DCM", "DCN", "DCO", "DCP", "DCQ", "DCR",
        "DDA", "DDB", "DDC", "DDD", "DAW", "DAX", "DDH", "DDI", "DDJ", "DDK", "DDL",
    ];
    for id in ids {
        let d = registry.definition_for(id).unwrap();
        assert_eq!(d.id, id);
        assert!(registry.recognizes(&format!("{}value", id)));
    }
    assert!(!registry.recognizes(&"XYZvalue".to_string()));
    assert!(!registry.recognizes(&"DC".to_string()));
}

#[test]
fn validate_returns_raw_value() {
    let d = CustomerFamilyName::data();
    assert_eq!(d.validate(&"DCS SMITH ".to_string()).unwrap(), " SMITH ");
    assert_eq!(d.no_error_validate(&"DCSJONES".to_string()), Some("JONES".to_string()));
}

#[test]
fn validate_mismatch_names_both_identifiers() {
    let d = CustomerFamilyName::data();
    match d.validate(&"DACJOHN".to_string()) {
        Err(Error::MatchError { var_1, var_2 }) => {
            assert_eq!(var_1, "DAC");
            assert_eq!(var_2, "DCS");
        }
        other => panic!("unexpected {:?}", other),
    }
    match d.validate(&"DC".to_string()) {
        Err(Error::MatchError { var_1, var_2 }) => {
            assert_eq!(var_1, "DC");
            assert_eq!(var_2, "DCS");
        }
        other => panic!("unexpected {:?}", other),
    }
    assert_eq!(d.no_error_validate(&"DACJOHN".to_string()), None);
}

#[test]
fn find_in_lines_takes_first_match() {
    let lines = vec!["DCSFIRST".to_string(), "DACJOHN".to_string(), "DACJANE".to_string()];
    assert_eq!(CustomerFirstName::data().find_in_lines(&lines).unwrap(), "JOHN");
    match VeteranIndicator::data().find_in_lines(&lines) {
        Err(Error::ElementNotFound { element_name }) => assert_eq!(element_name, "DDL"),
        other => panic!("unexpected {:?}", other),
    }
    assert_eq!(VeteranIndicator::data().no_error_find_in_lines(&lines), None);
}

#[test]
fn no_error_find_in_lines_strips_padding() {
    let lines = vec!["DCANONE".to_string(), "DCA C  D \r".to_string()];
    let d = JurisdictionSpecificVehicleClass::data();
    assert_eq!(d.no_error_find_in_lines(&lines), Some("NONE".to_string()));
    let lines = vec!["DCA C  D \r".to_string()];
    assert_eq!(d.no_error_find_in_lines(&lines), Some("CD".to_string()));
}

#[test]
fn remove_padding_drops_every_space() {
    assert_eq!(remove_padding("123 SMITH".to_string()), "123SMITH");
    assert_eq!(remove_padding("  SAN  JOSE  ".to_string()), "SANJOSE");
    assert_eq!(remove_padding("".to_string()), "");
    assert_eq!(remove_padding("   ".to_string()), "");
}

#[test]
fn remove_padding_drops_lone_carriage_returns_only() {
    assert_eq!(remove_padding("AB \r".to_string()), "AB");
    assert_eq!(remove_padding("\r".to_string()), "");
    assert_eq!(remove_padding("AB\r".to_string()), "AB\r");
    assert_eq!(remove_padding("A \r\r B".to_string()), "A\r\rB");
}

#[test]
fn split_lines_keeps_empty_pieces() {
    assert_eq!(split_lines("a\nbc\n"), vec!["a".to_string(), "bc".to_string(), "".to_string()]);
    assert_eq!(split_lines(""), vec!["".to_string()]);
    assert_eq!(split_lines("\n\n"), vec!["".to_string(), "".to_string(), "".to_string()]);
    assert_eq!(split_lines("é\nü"), vec!["é".to_string(), "ü".to_string()]);
}

#[test]
fn split_at_id_separates_identifier() {
    assert_eq!(split_at_id(&"DAQ123 456".to_string()), ("DAQ".to_string(), "123 456".to_string()));
    assert_eq!(split_at_id(&"DA".to_string()), ("DA".to_string(), "".to_string()));
    assert_eq!(split_at_id(&"ÉÀÜx".to_string()), ("ÉÀÜ".to_string(), "x".to_string()));
}
