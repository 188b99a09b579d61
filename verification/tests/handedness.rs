use fretboard_layout::{Handedness, ParseHandednessError};
use std::str::FromStr;

#[test]
fn handedness_parse_tokens() {
    assert_eq!(Ok(Handedness::Right), Handedness::from_str("right"));
    assert_eq!(Ok(Handedness::Right), Handedness::from_str("Right"));
    assert_eq!(Ok(Handedness::Left), Handedness::from_str("left"));
    assert_eq!(Ok(Handedness::Left), Handedness::from_str("Left"));
}

#[test]
fn handedness_parse_rejects() {
    assert!(matches!(Handedness::from_str("RIGHT"), Err(ParseHandednessError)));
    assert!(matches!(Handedness::from_str(""), Err(ParseHandednessError)));
    assert!(matches!(Handedness::from_str("sinister"), Err(ParseHandednessError)));
}

#[test]
fn handedness_names() {
    assert_eq!(Handedness::Right.name(), "right");
    assert_eq!(Handedness::Left.name(), "left");
}

#[test]
fn handedness_name_round_trip() {
    for hand in [Handedness::Right, Handedness::Left] {
        assert_eq!(Ok(hand), Handedness::from_str(hand.name()));
    }
}

#[test]
fn handedness_default_is_right() {
    assert_eq!(Handedness::default(), Handedness::Right);
}
