use fretboard_layout::config::{ParseUnitsError, Units};
use std::str::FromStr;

#[test]
fn units_parse_tokens() {
    assert_eq!(Ok(Units::Metric), Units::from_str("metric"));
    assert_eq!(Ok(Units::Metric), Units::from_str("Metric"));
    assert_eq!(Ok(Units::Imperial), Units::from_str("imperial"));
    assert_eq!(Ok(Units::Imperial), Units::from_str("Imperial"));
}

#[test]
fn units_parse_rejects() {
    assert_eq!(Err(ParseUnitsError), Units::from_str("METRIC"));
    assert_eq!(Err(ParseUnitsError), Units::from_str("mm"));
    assert_eq!(Err(ParseUnitsError), Units::from_str(""));
}

#[test]
fn units_names() {
    assert_eq!(Units::Metric.name(), "metric");
    assert_eq!(Units::Imperial.name(), "imperial");
}

#[test]
fn units_name_round_trip() {
    for units in [Units::Metric, Units::Imperial] {
        assert_eq!(Ok(units), Units::from_str(units.name()));
    }
}

#[test]
fn units_default_is_metric() {
    assert_eq!(Units::default(), Units::Metric);
}
