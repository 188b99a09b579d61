//! Rendering preferences that the library's callers persist.

pub mod font;

use crate::text::str_eq;
use vstd::prelude::*;

verus! {

/// Whether to use Metric (millimeters) or Imperial (inches) measurements
#[derive(Clone, Copy, Debug, Eq, PartialEq, Structural)]
pub enum Units {
    /// Output measurements are given in *millimeters*
    Metric,
    /// Output measurements are given in *inches*
    Imperial,
}

/// Error returned if unable to parse the units from a given `str`
#[derive(Clone, Copy, Debug, Eq, PartialEq, Structural)]
pub struct ParseUnitsError;

impl Default for Units {
    /// Returns `Units::Metric`
    fn default() -> (r: Self)
        ensures
            r == Units::Metric,
    {
        Units::Metric
    }
}

/// Which `Units` a token names: `"metric"` and `"Metric"` name `Metric`,
/// `"imperial"` and `"Imperial"` name `Imperial`, and anything else is an
/// error.
pub open spec fn parse_units(s: Seq<char>) -> Result<Units, ParseUnitsError> {
    if s == "metric"@ || s == "Metric"@ {
        Ok(Units::Metric)
    } else if s == "imperial"@ || s == "Imperial"@ {
        Ok(Units::Imperial)
    } else {
        Err(ParseUnitsError)
    }
}

impl Units {
    /// The lower-case token naming this value.
    pub open spec fn token(self) -> Seq<char> {
        match self {
            Units::Metric => "metric"@,
            Units::Imperial => "imperial"@,
        }
    }

    /// Returns the token naming this value: `"metric"` or `"imperial"`.
    pub fn name(&self) -> (r: &'static str)
        ensures
            r@ == self.token(),
    {
        match self {
            Units::Metric => "metric",
            Units::Imperial => "imperial",
        }
    }

    /// Parses a `Units` from its token; accepts the capitalized spelling
    /// as well.
    pub fn parse(s: &str) -> (r: Result<Units, ParseUnitsError>)
        ensures
            r == parse_units(s@),
    {
        if str_eq(s, "metric") || str_eq(s, "Metric") {
            Ok(Units::Metric)
        } else if str_eq(s, "imperial") || str_eq(s, "Imperial") {
            Ok(Units::Imperial)
        } else {
            Err(ParseUnitsError)
        }
    }
}

/// Law: the token a `Units` value writes into persisted preferences parses
/// back to the same value.
pub proof fn lemma_units_token_round_trip(u: Units)
    ensures
        parse_units(u.token()) == Ok::<Units, ParseUnitsError>(u),
{
    reveal_strlit("metric");
    reveal_strlit("Metric");
    reveal_strlit("imperial");
    reveal_strlit("Imperial");
    assert("metric"@.len() == 6);
    assert("imperial"@.len() == 8);
    assert("imperial"@ != "metric"@);
    assert("imperial"@ != "Metric"@);
}

impl core::str::FromStr for Units {
    type Err = ParseUnitsError;

    fn from_str(s: &str) -> Result<Self, Self::Err> {
        Units::parse(s)
    }
}

} // verus!
