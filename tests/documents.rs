use aamva::documents::{get_header_and_lines, unknown_elements, DriversLicense, IdentificationCard};
use aamva::elements::ElementRegistry;
use aamva::error::Error;
use aamva::header::Header;

const HEADER: &str = "\u{1e}\rANSI 636014090102DL00410278ZC03190008";

fn payload(lines: &[&str]) -> String {
    let mut text = format!("@\n{}", HEADER);
    for line in lines {
        text.push('\n');
        text.push_str(line);
    }
    text
}

fn sample_lines() -> Vec<&'static str> {
    vec![
        "DCAC",
        "DCBNONE",
        "DCDNONE",
        "DBA08312029",
        "DCS123 SMITH",
        "DACJOHN",
        "DADQUINCY",
        "DBD08312021",
        "DBB01021990",
        "DBC1",
        "DAYBRO",
        "DAU070 IN",
        "DAG123 MAIN ST",
        "DAISAN JOSE",
        "DAJCA",
        "DAK951250000  ",
        "DAQD1234567",
        "DCF12345AB6789",
        "DCGUSA",
        "DDEN",
        "DDFN",
        "DDGN",
    ]
}

#[test]
fn sample_family_name_loses_every_space() {
    let (_, dl) = DriversLicense::new(payload(&sample_lines())).unwrap();
    assert_eq!(dl.customer_family_name, Some("123SMITH".to_string()));
    assert_eq!(dl.address_city, Some("SANJOSE".to_string()));
    assert_eq!(dl.physical_description_height, Some("070IN".to_string()));
    assert_eq!(dl.address_postal_code, Some("951250000".to_string()));
    assert_eq!(dl.customer_first_name, Some("JOHN".to_string()));
    assert_eq!(dl.jurisdiction_specific_vehicle_class, Some("C".to_string()));
    assert_eq!(dl.veteran_indicator, None);
    assert_eq!(dl.hair_color, None);
}

#[test]
fn sample_header_subfields() {
    let (header, _) = DriversLicense::new(payload(&sample_lines())).unwrap();
    assert_eq!(header.file_type, "ANSI ");
    assert_eq!(header.issuer_identification_number, "636014");
    assert_eq!(header.aamva_version_number, "09");
    assert_eq!(header.jurisdiction_version_number, "01");
    assert_eq!(header.number_of_entries, "02");
    assert_eq!(header.subfile_type, "DL");
    assert_eq!(header.offset, "0041");
    assert_eq!(header.length, "0278");
    assert_eq!(header.extra_characters, "ZC03190008");
}

#[test]
fn header_without_extra_characters() {
    let header = Header::from("\u{1e}\rANSI 636014090102ID00410278".to_string()).unwrap();
    assert_eq!(header.subfile_type, "ID");
    assert_eq!(header.extra_characters, "");
    assert!(header.describe().contains("Subfile Type:            'ID'"));
    assert!(header.describe().starts_with("Header {\n    File Type:               'ANSI '\n"));
}

#[test]
fn decoding_twice_gives_the_same_result() {
    let a = DriversLicense::new(payload(&sample_lines())).unwrap();
    let b = DriversLicense::new(payload(&sample_lines())).unwrap();
    assert_eq!(format!("{:?}", a), format!("{:?}", b));
}

#[test]
fn missing_marker_is_non_compliance() {
    let text = payload(&sample_lines()).replacen("@", "#", 1);
    assert!(matches!(DriversLicense::new(text), Err(Error::NonCompliance)));
    assert!(matches!(IdentificationCard::new("".to_string()), Err(Error::NonCompliance)));
    assert!(matches!(DriversLicense::new("@@\nstuff".to_string()), Err(Error::NonCompliance)));
}

#[test]
fn missing_record_separator_is_named() {
    let text = "@\n\rANSI 636014090102DL00410278\nDCSX".to_string();
    match DriversLicense::new(text) {
        Err(Error::Formatting { violation }) => assert_eq!(violation, "Record separator not found"),
        other => panic!("unexpected {:?}", other.map(|_| ())),
    }
    match DriversLicense::new("@".to_string()) {
        Err(Error::Formatting { violation }) => assert_eq!(violation, "Record separator not found"),
        other => panic!("unexpected {:?}", other.map(|_| ())),
    }
}

#[test]
fn missing_segment_terminator_is_named() {
    let text = "@\n\u{1e}ANSI 636014090102DL00410278\nDCSX".to_string();
    match DriversLicense::new(text) {
        Err(Error::Formatting { violation }) => {
            assert_eq!(violation, "Segment terminator not found")
        }
        other => panic!("unexpected {:?}", other.map(|_| ())),
    }
}

#[test]
fn wrong_tag_is_invalid_file_type() {
    let text = "@\n\u{1e}\rANSX 636014090102DL00410278\nDCSX".to_string();
    assert!(matches!(DriversLicense::new(text), Err(Error::InvalidFileType)));
    let text = "@\n\u{1e}\rAN".to_string();
    assert!(matches!(IdentificationCard::new(text), Err(Error::InvalidFileType)));
}

#[test]
fn short_header_is_invalid_length() {
    let text = "@\n\u{1e}\rANSI 63601409".to_string();
    assert!(matches!(DriversLicense::new(text), Err(Error::InvalidStringLength)));
}

#[test]
fn get_header_and_lines_returns_element_lines() {
    let (header, lines) = get_header_and_lines(payload(&["DCSX", "DACY"])).unwrap();
    assert_eq!(header.issuer_identification_number, "636014");
    assert_eq!(lines, vec!["DCSX".to_string(), "DACY".to_string()]);
    let (_, lines) = get_header_and_lines(format!("@\n{}", HEADER)).unwrap();
    assert!(lines.is_empty());
}

#[test]
fn unknown_element_is_reported_and_changes_nothing() {
    let mut with_unknown = sample_lines();
    with_unknown.insert(3, "ZZZ42 X");
    let (_, a) = DriversLicense::new(payload(&with_unknown)).unwrap();
    let (_, b) = DriversLicense::new(payload(&sample_lines())).unwrap();
    assert_eq!(format!("{:?}", a), format!("{:?}", b));

    let (_, lines) = get_header_and_lines(payload(&with_unknown)).unwrap();
    let unknown = unknown_elements(&ElementRegistry::standard(), &lines);
    assert_eq!(unknown.len(), 1);
    assert_eq!(unknown[0].identifier, "ZZZ");
    assert_eq!(unknown[0].value, "42 X");
}

#[test]
fn trailing_newline_gives_an_unknown_empty_line() {
    let text = format!("{}\n", payload(&["DCSX"]));
    let (_, lines) = get_header_and_lines(text.clone()).unwrap();
    let unknown = unknown_elements(&ElementRegistry::standard(), &lines);
    assert_eq!(unknown.len(), 1);
    assert_eq!(unknown[0].identifier, "");
    let (_, dl) = DriversLicense::new(text).unwrap();
    assert_eq!(dl.customer_family_name, Some("X".to_string()));
}

#[test]
fn duplicate_first_name_first_wins() {
    let (_, dl) = DriversLicense::new(payload(&["DACJOHN", "DCSDOE", "DACJANE"])).unwrap();
    assert_eq!(dl.customer_first_name, Some("JOHN".to_string()));
    let (_, id) = IdentificationCard::new(payload(&["DACJOHN", "DCSDOE", "DACJANE"])).unwrap();
    assert_eq!(id.customer_first_name, Some("JOHN".to_string()));
}

#[test]
fn license_only_elements_stay_off_identification_cards() {
    let dl_only = [
        "DCAA", "DCBB", "DCDC", "DCMD", "DCNE", "DCOF", "DCPG", "DCQH", "DCRI", "DDC01012030",
        "DCSDOE",
    ];
    let (_, id) = IdentificationCard::new(payload(&dl_only)).unwrap();
    assert_eq!(id.customer_family_name, Some("DOE".to_string()));
    assert_eq!(id.customer_first_name, None);
    assert_eq!(id.document_expiration_date, None);

    let (_, dl) = DriversLicense::new(payload(&dl_only)).unwrap();
    assert_eq!(dl.jurisdiction_specific_vehicle_class, Some("A".to_string()));
    assert_eq!(dl.jurisdiction_specific_restriction_codes, Some("B".to_string()));
    assert_eq!(dl.jurisdiction_specific_endorsement_codes, Some("C".to_string()));
    assert_eq!(dl.standard_vehicle_classification, Some("D".to_string()));
    assert_eq!(dl.standard_endorsement_code, Some("E".to_string()));
    assert_eq!(dl.standard_restriction_code, Some("F".to_string()));
    assert_eq!(dl.jurisdiction_vehicle_classification_description, Some("G".to_string()));
    assert_eq!(dl.jurisdiction_specific_edorsement_code_description, Some("H".to_string()));
    assert_eq!(dl.jurisdiction_specific_restriction_code_description, Some("I".to_string()));
    assert_eq!(dl.hazmat_endorsement_expiration, Some("01012030".to_string()));
}

#[test]
fn each_card_field_is_settable_alone() {
    let (_, id) = IdentificationCard::new(payload(&["DDL1"])).unwrap();
    assert_eq!(id.veteran_indicator, Some("1".to_string()));
    assert_eq!(id.organ_donor_indicator, None);
    let (_, id) = IdentificationCard::new(payload(&["DDD1"])).unwrap();
    assert_eq!(id.limited_duration_document_indicator, Some("1".to_string()));
    assert_eq!(id.veteran_indicator, None);
    let (_, dl) = DriversLicense::new(payload(&["DCE4"])).unwrap();
    assert_eq!(dl.physical_description_weight_range, Some("4".to_string()));
    assert_eq!(dl.customer_family_name, None);
}

#[test]
fn error_messages() {
    assert_eq!(
        Error::NonCompliance.message(),
        "Non compliance error, @ sign required as first character."
    );
    assert_eq!(
        Error::Formatting { violation: "Record separator not found".to_string() }.message(),
        "Formatting error, violation:\nRecord separator not found"
    );
    assert_eq!(
        Error::ElementNotFound { element_name: "DCS".to_string() }.message(),
        "Element with name 'DCS' not found"
    );
    assert_eq!(
        Error::MatchError { var_1: "DAC".to_string(), var_2: "DCS".to_string() }.message(),
        "Match error: DAC does not match DCS"
    );
    assert_eq!(Error::InvalidStringLength.message(), "Invalid length of string");
}
