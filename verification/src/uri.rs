//! Validation of a project API URL's path, and the small string decisions
//! around it.  The URL type itself belongs to the unverified shell; what
//! is decided here is decided on the URL's path text.

use vstd::prelude::*;

use crate::text::str_eq;

verus! {

/// Whether a URL path addresses a project API root: exactly
/// `/api/<project>/` with a non-empty project name.
pub open spec fn spec_valid_project_path(p: Seq<char>) -> bool {
    &&& p.len() >= 7
    &&& p.take(5) == "/api/"@
    &&& p.last() == '/'
    &&& forall|j: int| 5 <= j < p.len() - 1 ==> p[j] != '/'
}

/// Returns true if the given URL path has the correct segments for a
/// SkySpark project API URL: an `api` literal, a non-empty project name,
/// and a trailing slash, nothing more.
pub fn has_valid_path_segments(path: &str) -> (r: bool)
    ensures
        r == spec_valid_project_path(path@),
{
    let len = path.unicode_len();
    if len < 7 {
        return false;
    }
    let prefix = path.substring_char(0, 5);
    if !str_eq(prefix, "/api/") {
        return false;
    }
    if path.get_char(len - 1) != '/' {
        return false;
    }
    let mut i: usize = 5;
    while i < len - 1
        invariant
            5 <= i <= len - 1,
            len == path@.len(),
            len >= 7,
            forall|j: int| 5 <= j < i ==> path@[j] != '/',
        decreases len - i,
    {
        if path.get_char(i) == '/' {
            return false;
        }
        i = i + 1;
    }
    true
}

/// The project name inside a valid project API path: what stands between
/// `/api/` and the trailing slash.
pub fn project_name_of_path(path: &str) -> (r: &str)
    requires
        spec_valid_project_path(path@),
    ensures
        r@ == path@.subrange(5, path@.len() - 1),
{
    let len = path.unicode_len();
    path.substring_char(5, len - 1)
}

/// Whether a URL string needs a trailing slash appended before it can
/// serve as a base for joining: true when it does not already end in one.
pub fn needs_trailing_slash(url_str: &str) -> (r: bool)
    ensures
        r == (url_str@.len() == 0 || url_str@.last() != '/'),
{
    let len = url_str.unicode_len();
    if len == 0 {
        return true;
    }
    url_str.get_char(len - 1) != '/'
}

} // verus!
