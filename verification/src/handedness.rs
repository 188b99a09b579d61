//! Whether a neck is laid out for a right or a left handed player.

use crate::text::str_eq;
use vstd::prelude::*;

verus! {

/// Whether the output represents a right handed or left handed neck style
#[derive(Clone, Copy, Debug, Eq, PartialEq, Structural)]
pub enum Handedness {
    Right,
    Left,
}

/// An error occurred parsing the neck's Handedness from a str
#[derive(Clone, Copy, Debug, Eq, PartialEq, Structural)]
pub struct ParseHandednessError;

impl Default for Handedness {
    /// Returns `Handedness::Right`
    fn default() -> (r: Self)
        ensures
            r == Handedness::Right,
    {
        Handedness::Right
    }
}

/// Which `Handedness` a token names: `"right"` and `"Right"` name `Right`,
/// `"left"` and `"Left"` name `Left`, and anything else is an error.
pub open spec fn parse_handedness(s: Seq<char>) -> Result<Handedness, ParseHandednessError> {
    if s == "right"@ || s == "Right"@ {
        Ok(Handedness::Right)
    } else if s == "left"@ || s == "Left"@ {
        Ok(Handedness::Left)
    } else {
        Err(ParseHandednessError)
    }
}

impl Handedness {
    /// The lower-case token naming this value, as written into and read back
    /// from rendered metadata.
    pub open spec fn token(self) -> Seq<char> {
        match self {
            Handedness::Right => "right"@,
            Handedness::Left => "left"@,
        }
    }

    /// Returns the token naming this value: `"right"` or `"left"`.
    pub fn name(&self) -> (r: &'static str)
        ensures
            r@ == self.token(),
    {
        match self {
            Handedness::Right => "right",
            Handedness::Left => "left",
        }
    }

    /// Parses a `Handedness` from its token; accepts the capitalized
    /// spelling as well.
    pub fn parse(s: &str) -> (r: Result<Handedness, ParseHandednessError>)
        ensures
            r == parse_handedness(s@),
    {
        if str_eq(s, "right") || str_eq(s, "Right") {
            Ok(Handedness::Right)
        } else if str_eq(s, "left") || str_eq(s, "Left") {
            Ok(Handedness::Left)
        } else {
            Err(ParseHandednessError)
        }
    }
}

/// Law: the token a `Handedness` writes into rendered metadata parses back
/// to the same value, so the handedness survives a save and re-open
/// unchanged.
pub proof fn lemma_handedness_token_round_trip(h: Handedness)
    ensures
        parse_handedness(h.token()) == Ok::<Handedness, ParseHandednessError>(h),
{
    reveal_strlit("right");
    reveal_strlit("Right");
    reveal_strlit("left");
    reveal_strlit("Left");
    assert("left"@.len() == 4);
    assert("right"@.len() == 5);
    assert("left"@ != "right"@);
    assert("left"@ != "Right"@);
}

impl core::str::FromStr for Handedness {
    type Err = ParseHandednessError;

    fn from_str(s: &str) -> Result<Self, Self::Err> {
        Handedness::parse(s)
    }
}

} // verus!
