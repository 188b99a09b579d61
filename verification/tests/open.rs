use fretboard_layout::open::{require_field, Error};
use fretboard_layout::ParseHandednessError;

#[test]
fn require_field_present() {
    let r = require_field(Some(String::from("655")), "Scale");
    assert!(matches!(r, Ok(s) if s == "655"));
}

#[test]
fn require_field_absent() {
    let r = require_field(None, "Scale");
    assert!(matches!(r, Err(Error::MissingField("Scale"))));
    let r = require_field(None, "BridgeSpacing");
    assert!(matches!(r, Err(Error::MissingField("BridgeSpacing"))));
}

#[test]
fn error_from_io() {
    let e = std::io::Error::new(std::io::ErrorKind::NotFound, "gone");
    assert!(matches!(Error::from(e), Error::Io(_)));
}

#[test]
fn error_from_parse_float() {
    let e = "not a number".parse::<f64>().unwrap_err();
    assert!(matches!(Error::from(e), Error::ParseFloat(_)));
}

#[test]
fn error_from_parse_int() {
    let e = "not a number".parse::<u32>().unwrap_err();
    assert!(matches!(Error::from(e), Error::ParseInt(_)));
}

#[test]
fn error_from_parse_handedness() {
    assert!(matches!(Error::from(ParseHandednessError), Error::ParseHandedness));
}

#[test]
fn error_messages() {
    assert_eq!(Error::ParseHandedness.message(), "Parse handedness error");
    assert_eq!(Error::NoMetadata.message(), "No metadata");
    assert_eq!(Error::MissingField("Scale").message(), "Missing field: Scale");
    let e = "not a number".parse::<u32>().unwrap_err();
    assert_eq!(Error::ParseInt(e.clone()).message(), e.to_string());
}
