//! The little the core needs to know about Grids: the shape-error type
//! raised when a response body is not grid-shaped, and the marker that
//! flags a grid as carrying a server-side error.
//!
//! The Grid container itself — a typed wrapper over a JSON document — is
//! an external collaborator; the unverified shell decodes response bodies
//! and hands the guard only the plain facts below.

use vstd::prelude::*;

use crate::text::str_eq;

verus! {

/// Error denoting that a JSON value could not be parsed into a grid.
#[derive(Debug)]
pub struct ParseJsonGridError {
    pub msg: String,
}

impl ParseJsonGridError {
    /// Wrap a description of the shape violation.
    pub fn new(msg: String) -> (r: Self)
        ensures
            r.msg@ == msg@,
    {
        ParseJsonGridError { msg }
    }
}

/// Whether a grid's `err` metadata entry is the Haystack marker literal,
/// the server's signal that the grid describes an error.
pub open spec fn spec_is_error_grid(meta_err: Option<Seq<char>>) -> bool {
    meta_err == Some("m:"@)
}

/// Decide from a grid's `err` metadata string whether the grid is an
/// error grid: it is exactly when that string is the marker literal.
pub fn is_error_grid_marker(meta_err: &Option<String>) -> (r: bool)
    ensures
        r == spec_is_error_grid(meta_err.deep_view()),
{
    match meta_err {
        Some(s) => str_eq(s.as_str(), "m:"),
        None => false,
    }
}

} // verus!
