//! Errors reported when the measurements embedded in a previously rendered
//! image are read back.

use crate::handedness::ParseHandednessError;
use vstd::prelude::*;
use vstd::string::StringExecFns;

verus! {

/// std's I/O error, opaque to this crate. Relies on `std::io::Error` being
/// an ordinary owned type.
#[verifier::external_type_specification]
#[verifier::external_body]
pub struct ExIoError(std::io::Error);

/// std's error for a malformed floating-point literal, opaque to this
/// crate. Relies on `std::num::ParseFloatError` being an ordinary owned
/// type.
#[verifier::external_type_specification]
#[verifier::external_body]
pub struct ExParseFloatError(std::num::ParseFloatError);

/// std's error for a malformed integer literal, opaque to this crate.
/// Relies on `std::num::ParseIntError` being an ordinary owned type.
#[verifier::external_type_specification]
#[verifier::external_body]
pub struct ExParseIntError(std::num::ParseIntError);

/// Why a previously rendered file could not be turned back into a set of
/// measurements.
#[derive(Debug)]
pub enum Error {
    /// Error reading the file
    Io(std::io::Error),
    /// Error parsing a float type from the file's metadata
    ParseFloat(std::num::ParseFloatError),
    /// Error parsing an integer type from the file's metadata
    ParseInt(std::num::ParseIntError),
    /// Error parsing the neck's handedness from the file's metadata
    ParseHandedness,
    /// The file does not contain a Description element
    NoMetadata,
    /// The file's description is missing a metadata field
    MissingField(&'static str),
}

impl From<std::io::Error> for Error {
    fn from(e: std::io::Error) -> (r: Self)
        ensures
            r == Error::Io(e),
    {
        Error::Io(e)
    }
}

impl vstd::std_specs::convert::FromSpecImpl<std::io::Error> for Error {
    open spec fn obeys_from_spec() -> bool {
        true
    }

    open spec fn from_spec(e: std::io::Error) -> Self {
        Error::Io(e)
    }
}

impl From<std::num::ParseFloatError> for Error {
    fn from(e: std::num::ParseFloatError) -> (r: Self)
        ensures
            r == Error::ParseFloat(e),
    {
        Error::ParseFloat(e)
    }
}

impl vstd::std_specs::convert::FromSpecImpl<std::num::ParseFloatError> for Error {
    open spec fn obeys_from_spec() -> bool {
        true
    }

    open spec fn from_spec(e: std::num::ParseFloatError) -> Self {
        Error::ParseFloat(e)
    }
}

impl From<std::num::ParseIntError> for Error {
    fn from(e: std::num::ParseIntError) -> (r: Self)
        ensures
            r == Error::ParseInt(e),
    {
        Error::ParseInt(e)
    }
}

impl vstd::std_specs::convert::FromSpecImpl<std::num::ParseIntError> for Error {
    open spec fn obeys_from_spec() -> bool {
        true
    }

    open spec fn from_spec(e: std::num::ParseIntError) -> Self {
        Error::ParseInt(e)
    }
}

impl From<ParseHandednessError> for Error {
    fn from(_e: ParseHandednessError) -> (r: Self)
        ensures
            r == Error::ParseHandedness,
    {
        Error::ParseHandedness
    }
}

impl vstd::std_specs::convert::FromSpecImpl<ParseHandednessError> for Error {
    open spec fn obeys_from_spec() -> bool {
        true
    }

    open spec fn from_spec(e: ParseHandednessError) -> Self {
        Error::ParseHandedness
    }
}

impl Error {
    /// Renders the error as a short message; the first three variants
    /// defer to the carried std error's own rendering.
    pub fn message(&self) -> (r: String)
        ensures
            self is ParseHandedness ==> r@ == "Parse handedness error"@,
            self is NoMetadata ==> r@ == "No metadata"@,
            self matches Error::MissingField(name) ==> r@ == "Missing field: "@ + name@,
    {
        match self {
            Error::Io(e) => e.to_string(),
            Error::ParseFloat(e) => e.to_string(),
            Error::ParseInt(e) => e.to_string(),
            Error::ParseHandedness => String::from_str("Parse handedness error"),
            Error::NoMetadata => String::from_str("No metadata"),
            Error::MissingField(name) => {
                let mut s = String::from_str("Missing field: ");
                s.append(name);
                s
            },
        }
    }
}

/// Returns the value of a required metadata field, or reports which field
/// was absent.
pub fn require_field(value: Option<String>, name: &'static str) -> (r: Result<String, Error>)
    ensures
        match r {
            Ok(s) => value == Some(s),
            Err(e) => value is None && e == Error::MissingField(name),
        },
{
    match value {
        Some(s) => Ok(s),
        None => Err(Error::MissingField(name)),
    }
}

} // verus!
