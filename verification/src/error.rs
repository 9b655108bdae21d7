//! The closed set of rejection kinds shared by every fallible operation of
//! this crate.

use vstd::prelude::*;

verus! {

/// An error encountered when trying to parse an invalid ID string.
#[derive(Copy, Clone, Debug, PartialEq, Eq, Structural, Hash)]
pub enum Error {
    /// The ID's localpart contains invalid characters.
    ///
    /// Only relevant for user IDs.
    InvalidCharacters,
    /// The domain part of the ID string is not a valid IP address or DNS name.
    InvalidHost,
    /// The ID exceeds 255 bytes (or 32 code points for a room version ID).
    MaximumLengthExceeded,
    /// The ID is less than 4 characters (or is an empty room version ID).
    MinimumLengthNotSatisfied,
    /// The ID is missing the colon delimiter between localpart and server name.
    MissingDelimiter,
    /// The ID is missing the leading sigil.
    MissingSigil,
}

impl Error {
    /// A fixed human-readable description of the error.
    pub fn description(&self) -> (r: &'static str)
        ensures
            r@ == match *self {
                Error::InvalidCharacters => "localpart contains invalid characters"@,
                Error::InvalidHost => "server name is not a valid IP address or domain name"@,
                Error::MaximumLengthExceeded => "ID exceeds 255 bytes"@,
                Error::MinimumLengthNotSatisfied => "ID must be at least 4 characters"@,
                Error::MissingDelimiter => "colon is required between localpart and server name"@,
                Error::MissingSigil => "leading sigil is missing"@,
            },
    {
        match *self {
            Error::InvalidCharacters => "localpart contains invalid characters",
            Error::InvalidHost => "server name is not a valid IP address or domain name",
            Error::MaximumLengthExceeded => "ID exceeds 255 bytes",
            Error::MinimumLengthNotSatisfied => "ID must be at least 4 characters",
            Error::MissingDelimiter => "colon is required between localpart and server name",
            Error::MissingSigil => "leading sigil is missing",
        }
    }
}

} // verus!
