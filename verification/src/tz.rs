//! Time-zone name matching: SkySpark addresses zones either by their full
//! IANA TZDB identifier or by a short name, the identifier's last
//! `/`-separated part.  The matching rule is decided here; the zone
//! catalogue itself comes from `chrono_tz`.

use vstd::prelude::*;

use crate::text::str_eq;

verus! {

#[verifier::external_type_specification]
#[verifier::external_body]
pub struct ExTz(chrono_tz::Tz);

/// The suffix of `s` after its last `/`, ignoring trailing slashes: the
/// short name of a zone identifier.
pub open spec fn spec_tail_run(s: Seq<char>) -> Seq<char>
    decreases s.len(),
{
    if s.len() > 0 && s.last() != '/' {
        spec_tail_run(s.drop_last()).push(s.last())
    } else {
        Seq::empty()
    }
}

/// The short time-zone name inside `s`: its last non-empty `/`-separated
/// part.
pub open spec fn spec_short_name(s: Seq<char>) -> Seq<char>
    decreases s.len(),
{
    if s.len() == 0 {
        Seq::empty()
    } else if s.last() == '/' {
        spec_short_name(s.drop_last())
    } else {
        spec_tail_run(s)
    }
}

proof fn lemma_tail_run_subrange(s: Seq<char>, start: int)
    requires
        0 <= start <= s.len(),
        forall|j: int| start <= j < s.len() ==> s[j] != '/',
        start == 0 || s[start - 1] == '/',
    ensures
        spec_tail_run(s) == s.subrange(start, s.len() as int),
    decreases s.len(),
{
    if s.len() == start {
        assert(s.subrange(start, s.len() as int) =~= Seq::<char>::empty());
    } else {
        lemma_tail_run_subrange(s.drop_last(), start);
        assert(s.drop_last().subrange(start, s.drop_last().len() as int) =~= s.subrange(
            start,
            s.len() - 1,
        ));
        assert(spec_tail_run(s) =~= s.subrange(start, s.len() as int));
    }
}

proof fn lemma_short_name_ignores_trailing_slashes(s: Seq<char>, end: int)
    requires
        0 <= end <= s.len(),
        forall|j: int| end <= j < s.len() ==> s[j] == '/',
    ensures
        spec_short_name(s) == spec_short_name(s.take(end)),
    decreases s.len() - end,
{
    if end < s.len() {
        assert(s.take(s.len() as int - 1) =~= s.drop_last());
        lemma_short_name_ignores_trailing_slashes(s.drop_last(), end);
        assert(s.drop_last().take(end) =~= s.take(end));
    } else {
        assert(s.take(end) =~= s);
    }
}

/// Given an IANA TZDB identifier like `America/New_York`, return the
/// short time-zone name used by SkySpark, like `New_York`.
pub fn time_zone_name_to_short_name(tz_name: &str) -> (r: &str)
    requires
        exists|j: int| 0 <= j < tz_name@.len() && tz_name@[j] != '/',
    ensures
        r@ == spec_short_name(tz_name@),
{
    let len = tz_name.unicode_len();
    let mut end: usize = len;
    while end > 0 && tz_name.get_char(end - 1) == '/'
        invariant
            0 <= end <= len,
            len == tz_name@.len(),
            forall|j: int| end <= j < len ==> tz_name@[j] == '/',
        decreases end,
    {
        end = end - 1;
    }
    proof {
        if end == 0 {
            let j = choose|j: int| 0 <= j < tz_name@.len() && tz_name@[j] != '/';
            assert(tz_name@[j] == '/');
        }
    }
    let mut start: usize = end;
    while start > 0 && tz_name.get_char(start - 1) != '/'
        invariant
            0 <= start <= end,
            end <= len,
            len == tz_name@.len(),
            forall|j: int| start <= j < end ==> tz_name@[j] != '/',
        decreases start,
    {
        start = start - 1;
    }
    let r = tz_name.substring_char(start, end);
    proof {
        lemma_short_name_ignores_trailing_slashes(tz_name@, end as int);
        let ghost prefix = tz_name@.take(end as int);
        assert(prefix.last() != '/');
        assert forall|j: int| start <= j < prefix.len() implies prefix[j] != '/' by {
            assert(prefix[j] == tz_name@[j]);
        }
        lemma_tail_run_subrange(prefix, start as int);
        assert(prefix.subrange(start as int, prefix.len() as int) =~= tz_name@.subrange(
            start as int,
            end as int,
        ));
    }
    r
}

/// Whether one zone identifier answers to the queried name: either the
/// full identifier or its short name must match exactly.
pub open spec fn spec_tz_name_matches(full_name: Seq<char>, query: Seq<char>) -> bool {
    ||| full_name == query
    ||| ((exists|j: int| 0 <= j < full_name.len() && full_name[j] != '/') && spec_short_name(
        full_name,
    ) == query)
}

/// Decide whether a zone's full identifier matches the queried name,
/// outright or through its short name.
pub fn tz_name_matches(full_name: &str, query: &str) -> (r: bool)
    ensures
        r == spec_tz_name_matches(full_name@, query@),
{
    if str_eq(full_name, query) {
        return true;
    }
    let len = full_name.unicode_len();
    let mut i: usize = 0;
    while i < len && full_name.get_char(i) == '/'
        invariant
            0 <= i <= len,
            len == full_name@.len(),
            forall|j: int| 0 <= j < i ==> full_name@[j] == '/',
        decreases len - i,
    {
        i = i + 1;
    }
    if i == len {
        proof {
            assert forall|j: int| 0 <= j < full_name@.len() implies full_name@[j] == '/' by {}
        }
        return false;
    }
    let short = time_zone_name_to_short_name(full_name);
    str_eq(short, query)
}

/// Relies on `chrono_tz::TZ_VARIANTS`, the catalogue of every known time
/// zone, and `chrono_tz::Tz::name`: yields the first zone whose
/// identifier matches the query under `tz_name_matches`.
#[verifier::external_body]
fn find_matching_tz(query: &str) -> Option<chrono_tz::Tz> {
    chrono_tz::TZ_VARIANTS.iter().find(|tz| tz_name_matches(tz.name(), query)).cloned()
}

/// Converts a string containing a SkySpark time zone name into the
/// matching `Tz` variant from the `chrono_tz` crate.
pub fn skyspark_tz_string_to_tz(s: &str) -> Option<chrono_tz::Tz> {
    find_matching_tz(s)
}

} // verus!
