//! The error type for Haystack Number parsing.
//!
//! The Number scalar itself carries a floating-point value and lives with
//! the unverified shell; only its error type, which the library's callers
//! share, is defined here.

use vstd::prelude::*;

verus! {

/// An error indicating that a Number could not be parsed.
#[derive(Debug)]
pub struct ParseNumberError {
    unparsable_number: String,
}

impl View for ParseNumberError {
    type V = Seq<char>;

    closed spec fn view(&self) -> Seq<char> {
        self.unparsable_number@
    }
}

impl ParseNumberError {
    /// Wrap the string that would not parse as a Number.
    pub fn from_str(s: &str) -> (r: Self)
        ensures
            r@ == s@,
    {
        ParseNumberError { unparsable_number: String::from_str(s) }
    }

    /// A human-readable description of this error.
    pub fn message(&self) -> (r: String)
        ensures
            r@ == "Could not parse Number from string "@ + self@,
    {
        let mut out = String::from_str("Could not parse Number from string ");
        out.append(self.unparsable_number.as_str());
        out
    }
}

} // verus!
