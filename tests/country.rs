use iso_country::names::str_eq;
use iso_country::{Country, CountryParseError};

fn round_trip(code: &str) {
    let c: Country = code.parse().unwrap();
    assert_eq!(code, c.to_string());
}

#[test]
fn from_to_str() {
    round_trip("ZW");
    round_trip("PL");
    round_trip("");
}

#[test]
fn name() {
    assert_eq!("Poland", Country::PL.name());
    assert_eq!("", Country::Unspecified.name());
}

#[test]
fn parse_poland_and_name() {
    let c = Country::parse("PL").unwrap();
    assert_eq!(c, Country::PL);
    assert_eq!(c.name(), "Poland");
}

#[test]
fn parse_empty_is_unspecified() {
    assert_eq!(Country::parse(""), Ok(Country::Unspecified));
    assert_eq!(Country::Unspecified.to_string(), "");
    assert_eq!(Country::Unspecified.code(), "");
}

#[test]
fn parse_is_case_sensitive() {
    assert_eq!(
        Country::parse("ru"),
        Err(CountryParseError::InvalidCountryCode("ru".to_string()))
    );
    assert_eq!(Country::parse("RU"), Ok(Country::RU));
}

#[test]
fn parse_unknown_code_carries_input() {
    match Country::parse("ZZ") {
        Err(CountryParseError::InvalidCountryCode(s)) => assert_eq!(s, "ZZ"),
        Ok(c) => panic!("unexpected country {:?}", c),
    }
    let e: Result<Country, CountryParseError> = "ZZ".parse();
    assert_eq!(e, Err(CountryParseError::InvalidCountryCode("ZZ".to_string())));
}

#[test]
fn parse_rejects_untrimmed_and_long_input() {
    assert!(Country::parse(" PL").is_err());
    assert!(Country::parse("PL ").is_err());
    assert!(Country::parse("POL").is_err());
    assert!(Country::parse("P").is_err());
    assert!(Country::parse("ÅX").is_err());
}

#[test]
fn every_code_round_trips() {
    let mut found = 0;
    let mut last = String::new();
    for a in b'A'..=b'Z' {
        for b in b'A'..=b'Z' {
            let code: String = [a as char, b as char].iter().collect();
            if let Ok(c) = Country::parse(&code) {
                assert_eq!(c.code(), code);
                assert_eq!(c.to_string(), code);
                assert_eq!(Country::parse(c.code()), Ok(c));
                assert!(last < code);
                last = code;
                found += 1;
            }
        }
    }
    assert_eq!(found, 249);
}

#[test]
fn first_and_last_codes() {
    assert_eq!(Country::parse("AD"), Ok(Country::AD));
    assert_eq!(Country::parse("ZW"), Ok(Country::ZW));
    assert_eq!(Country::AD.code(), "AD");
    assert_eq!(Country::ZW.code(), "ZW");
}

#[test]
fn aliases_of_iran() {
    let ir = Country::parse("IR").unwrap();
    assert_eq!(Country::from_name("Iran"), Some(ir));
    assert_eq!(Country::from_name("Iran (Islamic Republic of)"), Some(ir));
}

#[test]
fn alias_of_tanzania() {
    let tz = Country::parse("TZ").unwrap();
    assert_eq!(Country::from_name("Tanzania"), Some(tz));
    assert_eq!(Country::from_name("Tanzania, United Republic of"), Some(tz));
}

#[test]
fn other_aliases() {
    assert_eq!(Country::from_name("Micronesia"), Some(Country::FM));
    assert_eq!(Country::from_name("United Kingdom of Great Britain"), Some(Country::GB));
    assert_eq!(
        Country::from_name("United Kingdom of Great Britain and Northern Ireland"),
        Some(Country::GB)
    );
    assert_eq!(Country::from_name("Macedonia"), Some(Country::MK));
}

#[test]
fn unknown_name_is_absent() {
    assert_eq!(Country::from_name("Atlantis"), None);
    assert_eq!(Country::from_name(""), None);
    assert_eq!(Country::from_name("poland"), None);
    assert_eq!(Country::from_name("Poland "), None);
}

#[test]
fn from_name_exact_names() {
    assert_eq!(Country::from_name("Poland"), Some(Country::PL));
    assert_eq!(Country::from_name("Andorra"), Some(Country::AD));
    assert_eq!(Country::from_name("Ukraine"), Some(Country::UA));
    assert_eq!(Country::from_name("Åland Islands"), Some(Country::AX));
    assert_eq!(Country::from_name("Côte d'Ivoire"), Some(Country::CI));
}

#[test]
fn from_name_covers_the_end_of_the_table() {
    assert_eq!(Country::from_name("Uganda"), Some(Country::UG));
    assert_eq!(Country::from_name("Zimbabwe"), Some(Country::ZW));
    assert_eq!(Country::from_name("Venezuela"), Some(Country::VE));
    assert_eq!(
        Country::from_name("Venezuela (Bolivarian Republic of)"),
        Some(Country::VE)
    );
    assert_eq!(Country::UG.name(), "Uganda");
}

#[test]
fn every_name_finds_its_country() {
    let mut found = 0;
    for a in b'A'..=b'Z' {
        for b in b'A'..=b'Z' {
            let code: String = [a as char, b as char].iter().collect();
            if let Ok(c) = Country::parse(&code) {
                assert_eq!(Country::from_name(c.name()), Some(c));
                found += 1;
            }
        }
    }
    assert_eq!(found, 249);
    assert_eq!(Country::from_name(Country::Unspecified.name()), None);
}

#[test]
fn names_of_countries() {
    assert_eq!(Country::AX.name(), "Åland Islands");
    assert_eq!(Country::US.name(), "United States of America");
    assert_eq!(Country::ZW.name(), "Zimbabwe");
    assert_eq!(Country::IR.name(), "Iran (Islamic Republic of)");
}

#[test]
fn numeric_codes() {
    assert_eq!(Country::PL.numeric(), 616);
    assert_eq!(Country::US.numeric(), 840);
    assert_eq!(Country::AF.numeric(), 4);
    assert_eq!(Country::ZM.numeric(), 894);
    assert_eq!(Country::Unspecified.numeric(), 0);
}

#[test]
fn parse_error_description() {
    let e = Country::parse("XX").unwrap_err();
    assert_eq!(e.description(), "error parsing country code");
}

#[test]
fn ordering_follows_codes() {
    assert!(Country::Unspecified < Country::AD);
    assert!(Country::AD < Country::AE);
    assert!(Country::PL < Country::RU);
}

#[test]
fn str_eq_compares_exactly() {
    assert!(str_eq("Poland", "Poland"));
    assert!(str_eq("", ""));
    assert!(!str_eq("Poland", "poland"));
    assert!(!str_eq("Å", "A"));
    assert!(!str_eq("Pol", "Poland"));
}
