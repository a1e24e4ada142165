//! Parsing of the `key=value` lists that the handshake's HTTP headers and
//! base64-decoded payloads carry.
//!
//! The input splits on spaces and commas; empty fragments and a literal
//! `scram` token (compared without regard to ASCII case) are dropped; every
//! remaining fragment must contain `=`.  A fragment's key is everything
//! before its first `=`, its value everything after, with any further
//! leading `=` signs stripped.

use vstd::prelude::*;

use crate::text::{spec_lower, str_eq, str_eq_ignore_ascii_case};

verus! {

/// The fragment separators: space and comma.
pub open spec fn spec_is_delim(c: char) -> bool {
    c == ' ' || c == ','
}

/// The fragments of `s`, split on spaces and commas.  A string with `n`
/// separators yields `n + 1` fragments, empty ones included.
pub open spec fn spec_split(s: Seq<char>) -> Seq<Seq<char>>
    decreases s.len(),
{
    if s.len() == 0 {
        seq![Seq::<char>::empty()]
    } else if spec_is_delim(s.last()) {
        spec_split(s.drop_last()).push(Seq::<char>::empty())
    } else {
        let prev = spec_split(s.drop_last());
        prev.update(prev.len() - 1, prev.last().push(s.last()))
    }
}

pub proof fn lemma_split_len(s: Seq<char>)
    ensures
        spec_split(s).len() >= 1,
    decreases s.len(),
{
    if s.len() > 0 {
        lemma_split_len(s.drop_last());
    }
}

/// Whether a fragment takes part in parsing: non-empty and not the literal
/// scheme name `scram`, compared without regard to ASCII case.
pub open spec fn spec_keep_token(t: Seq<char>) -> bool {
    t.len() > 0 && spec_lower(t) != "scram"@
}

/// The index of the first `=` in `t`, or `t.len()` if there is none.
pub open spec fn spec_eq_index(t: Seq<char>) -> int
    decreases t.len(),
{
    if t.len() == 0 {
        0
    } else if t[0] == '=' {
        0
    } else {
        1 + spec_eq_index(t.drop_first())
    }
}

pub proof fn lemma_eq_index_unique(t: Seq<char>, i: int)
    requires
        0 <= i <= t.len(),
        i < t.len() ==> t[i] == '=',
        forall|j: int| 0 <= j < i ==> t[j] != '=',
    ensures
        spec_eq_index(t) == i,
    decreases t.len(),
{
    if t.len() == 0 {
    } else if t[0] == '=' {
        if i > 0 {
            assert(t[0] != '=');
        }
    } else {
        if i == 0 {
            assert(t[0] == '=');
        }
        lemma_eq_index_unique(t.drop_first(), i - 1);
    }
}

/// `t` with all leading `=` signs removed.
pub open spec fn spec_strip_eqs(t: Seq<char>) -> Seq<char>
    decreases t.len(),
{
    if t.len() > 0 && t[0] == '=' {
        spec_strip_eqs(t.drop_first())
    } else {
        t
    }
}

pub proof fn lemma_strip_eqs_skip(t: Seq<char>, k: int)
    requires
        0 <= k <= t.len(),
        forall|j: int| 0 <= j < k ==> t[j] == '=',
        k < t.len() ==> t[k] != '=',
    ensures
        spec_strip_eqs(t) == t.skip(k),
    decreases t.len(),
{
    if k == 0 {
        assert(t.skip(0) =~= t);
    } else {
        lemma_strip_eqs_skip(t.drop_first(), k - 1);
        assert(t.drop_first().skip(k - 1) =~= t.skip(k));
    }
}

/// A fragment as a key-value pair: the key before the first `=`, the value
/// after it with further leading `=` signs stripped; `None` if the fragment
/// holds no `=` at all.
pub open spec fn spec_parse_token(t: Seq<char>) -> Option<(Seq<char>, Seq<char>)> {
    let i = spec_eq_index(t);
    if i == t.len() {
        None
    } else {
        Some((t.take(i), spec_strip_eqs(t.skip(i))))
    }
}

/// The key-value pairs of a fragment sequence, or `None` if a kept fragment
/// holds no `=`.
pub open spec fn spec_parse_tokens(ts: Seq<Seq<char>>) -> Option<Seq<(Seq<char>, Seq<char>)>>
    decreases ts.len(),
{
    if ts.len() == 0 {
        Some(Seq::empty())
    } else {
        match spec_parse_tokens(ts.drop_last()) {
            None => None,
            Some(ps) => {
                if !spec_keep_token(ts.last()) {
                    Some(ps)
                } else {
                    match spec_parse_token(ts.last()) {
                        None => None,
                        Some(p) => Some(ps.push(p)),
                    }
                }
            },
        }
    }
}

pub proof fn lemma_parse_tokens_none_extends(ts: Seq<Seq<char>>, k: int)
    requires
        0 <= k <= ts.len(),
        spec_parse_tokens(ts.take(k)) is None,
    ensures
        spec_parse_tokens(ts) is None,
    decreases ts.len() - k,
{
    if k == ts.len() {
        assert(ts.take(k) =~= ts);
    } else {
        assert(ts.take(k + 1).drop_last() =~= ts.take(k));
        lemma_parse_tokens_none_extends(ts, k + 1);
    }
}

/// The parse of a whole header or payload string.
pub open spec fn spec_parse_kvps(s: Seq<char>) -> Option<Seq<(Seq<char>, Seq<char>)>> {
    spec_parse_tokens(spec_split(s))
}

/// An error raised while parsing a `key=value` list, or while looking a key
/// up in one.
#[derive(Debug)]
pub struct KeyValuePairParseError {
    pub msg: String,
}

/// The value of the first pair whose key is `key`.
pub open spec fn spec_lookup(pairs: Seq<(Seq<char>, Seq<char>)>, key: Seq<char>) -> Option<
    Seq<char>,
>
    decreases pairs.len(),
{
    if pairs.len() == 0 {
        None
    } else if pairs[0].0 == key {
        Some(pairs[0].1)
    } else {
        spec_lookup(pairs.drop_first(), key)
    }
}

proof fn lemma_lookup_found(pairs: Seq<(Seq<char>, Seq<char>)>, key: Seq<char>, i: int)
    requires
        0 <= i < pairs.len(),
        pairs[i].0 == key,
        forall|j: int| 0 <= j < i ==> pairs[j].0 != key,
    ensures
        spec_lookup(pairs, key) == Some(pairs[i].1),
    decreases pairs.len(),
{
    if i > 0 {
        lemma_lookup_found(pairs.drop_first(), key, i - 1);
    }
}

proof fn lemma_lookup_absent(pairs: Seq<(Seq<char>, Seq<char>)>, key: Seq<char>)
    requires
        forall|j: int| 0 <= j < pairs.len() ==> pairs[j].0 != key,
    ensures
        spec_lookup(pairs, key) is None,
    decreases pairs.len(),
{
    if pairs.len() > 0 {
        lemma_lookup_absent(pairs.drop_first(), key);
    }
}

/// The key-value pairs parsed out of one header or payload string, in
/// order of appearance.
pub struct KeyValuePairs {
    key_value_pairs: Vec<(String, String)>,
}

impl View for KeyValuePairs {
    type V = Seq<(Seq<char>, Seq<char>)>;

    closed spec fn view(&self) -> Seq<(Seq<char>, Seq<char>)> {
        self.key_value_pairs.deep_view()
    }
}

impl KeyValuePairs {
    /// Look up the value stored under `key`; an error names the key if no
    /// pair carries it.
    pub fn get(&self, key: &str) -> (r: Result<String, KeyValuePairParseError>)
        ensures
            r matches Ok(v) ==> spec_lookup(self@, key@) == Some(v@),
            r is Err <==> spec_lookup(self@, key@) is None,
    {
        let n = self.key_value_pairs.len();
        let mut i: usize = 0;
        while i < n
            invariant
                i <= n,
                n == self.key_value_pairs.len(),
                self@.len() == n,
                forall|j: int| 0 <= j < i ==> self@[j].0 != key@,
            decreases n - i,
        {
            proof {
                assert(self@[i as int].0 == self.key_value_pairs@[i as int].0@);
            }
            if str_eq(self.key_value_pairs[i].0.as_str(), key) {
                proof {
                    lemma_lookup_found(self@, key@, i as int);
                }
                return Ok(self.key_value_pairs[i].1.clone());
            }
            i = i + 1;
        }
        proof {
            lemma_lookup_absent(self@, key@);
        }
        let mut msg = String::from_str("missing key ");
        msg.append(key);
        msg.append(" in key-value pairs");
        Err(KeyValuePairParseError { msg })
    }
}

/// Split `s` on spaces and commas into its fragments.
fn split_tokens(s: &str) -> (r: Vec<String>)
    ensures
        r.deep_view() == spec_split(s@),
{
    let len = s.unicode_len();
    let mut done: Vec<String> = Vec::new();
    let mut start: usize = 0;
    let mut i: usize = 0;
    proof {
        assert(s@.take(0) =~= Seq::<char>::empty());
        assert(s@.subrange(0, 0) =~= Seq::<char>::empty());
        assert(spec_split(s@.take(0)) =~~= done.deep_view().push(s@.subrange(0, 0)));
    }
    while i < len
        invariant
            0 <= start <= i <= len,
            len == s@.len(),
            spec_split(s@.take(i as int)) == done.deep_view().push(
                s@.subrange(start as int, i as int),
            ),
        decreases len - i,
    {
        let c = s.get_char(i);
        let ghost prev_dv = done.deep_view();
        let ghost prev_cur = s@.subrange(start as int, i as int);
        if c == ' ' || c == ',' {
            let tok = s.substring_char(start, i).to_owned();
            done.push(tok);
            start = i + 1;
            proof {
                assert(s@.take(i + 1 as int).drop_last() =~= s@.take(i as int));
                assert(done.deep_view() =~~= prev_dv.push(prev_cur));
                assert(s@.subrange(start as int, i + 1 as int) =~= Seq::<char>::empty());
                assert(spec_split(s@.take(i + 1 as int)) =~~= done.deep_view().push(
                    s@.subrange(start as int, i + 1 as int),
                ));
            }
        } else {
            proof {
                assert(s@.take(i + 1 as int).drop_last() =~= s@.take(i as int));
                assert(s@.subrange(start as int, i + 1 as int) =~= prev_cur.push(s@[i as int]));
                lemma_split_len(s@.take(i as int));
                assert(spec_split(s@.take(i + 1 as int)) =~~= done.deep_view().push(
                    s@.subrange(start as int, i + 1 as int),
                ));
            }
        }
        i = i + 1;
    }
    let tok = s.substring_char(start, len).to_owned();
    done.push(tok);
    proof {
        assert(s@.take(len as int) =~= s@);
        assert(done.deep_view() =~~= spec_split(s@));
    }
    done
}

/// Parse one kept fragment into its key-value pair, or report the missing
/// `=` sign.
fn parse_token(t: &str) -> (r: Result<(String, String), KeyValuePairParseError>)
    ensures
        r matches Ok(p) ==> spec_parse_token(t@) == Some((p.0@, p.1@)),
        r is Err <==> spec_parse_token(t@) is None,
{
    let len = t.unicode_len();
    let mut i: usize = 0;
    while i < len
        invariant
            i <= len,
            len == t@.len(),
            forall|j: int| 0 <= j < i ==> t@[j] != '=',
        decreases len - i,
    {
        if t.get_char(i) == '=' {
            proof {
                lemma_eq_index_unique(t@, i as int);
            }
            let key = t.substring_char(0, i).to_owned();
            let mut k: usize = i;
            while k < len && t.get_char(k) == '='
                invariant
                    i <= k <= len,
                    len == t@.len(),
                    forall|j: int| i <= j < k ==> t@[j] == '=',
                decreases len - k,
            {
                k = k + 1;
            }
            let value = t.substring_char(k, len).to_owned();
            proof {
                let ghost tail = t@.skip(i as int);
                assert forall|j: int| 0 <= j < k - i implies tail[j] == '=' by {
                    assert(t@[i + j] == '=');
                }
                if k < len {
                    assert(tail[k - i] != '=');
                }
                lemma_strip_eqs_skip(tail, k - i);
                assert(tail.skip(k - i) =~= t@.skip(k as int));
                assert(t@.take(i as int) =~= key@);
                assert(t@.skip(k as int) =~= value@);
            }
            return Ok((key, value));
        }
        i = i + 1;
    }
    proof {
        lemma_eq_index_unique(t@, len as int);
    }
    let mut msg = String::from_str("No '=' symbol in key-value pair ");
    msg.append(t);
    Err(KeyValuePairParseError { msg })
}

/// Parse a whole header or payload string into its key-value pairs.
pub fn parse_key_value_pairs(s: &str) -> (r: Result<KeyValuePairs, KeyValuePairParseError>)
    ensures
        r matches Ok(kvps) ==> spec_parse_kvps(s@) == Some(kvps@),
        r is Err <==> spec_parse_kvps(s@) is None,
{
    let tokens = split_tokens(s);
    let ghost ts = tokens.deep_view();
    let n = tokens.len();
    let mut pairs: Vec<(String, String)> = Vec::new();
    let mut i: usize = 0;
    proof {
        assert(ts.take(0) =~= Seq::<Seq<char>>::empty());
    }
    while i < n
        invariant
            i <= n,
            n == tokens.len(),
            ts == tokens.deep_view(),
            ts.len() == n,
            spec_parse_kvps(s@) == spec_parse_tokens(ts),
            spec_parse_tokens(ts.take(i as int)) == Some(pairs.deep_view()),
        decreases n - i,
    {
        let ghost prev_pairs = pairs.deep_view();
        let token = &tokens[i];
        proof {
            assert(ts[i as int] == tokens@[i as int]@);
            assert(ts.take(i + 1 as int).drop_last() =~= ts.take(i as int));
            assert(ts.take(i + 1 as int).last() == ts[i as int]);
        }
        let keep = !token.as_str().is_empty() && !str_eq_ignore_ascii_case(token.as_str(), "scram");
        proof {
            reveal_strlit("scram");
            assert(spec_lower("scram"@) =~= "scram"@);
            assert(keep == spec_keep_token(ts[i as int]));
        }
        if keep {
            match parse_token(token.as_str()) {
                Ok(p) => {
                    pairs.push(p);
                    proof {
                        assert(pairs.deep_view() =~~= prev_pairs.push(
                            (ts[i as int].take(spec_eq_index(ts[i as int])), spec_strip_eqs(
                                ts[i as int].skip(spec_eq_index(ts[i as int])),
                            )),
                        ));
                        assert(spec_parse_tokens(ts.take(i + 1 as int)) == Some(pairs.deep_view()));
                    }
                },
                Err(e) => {
                    proof {
                        assert(spec_parse_tokens(ts.take(i + 1 as int)) is None);
                        lemma_parse_tokens_none_extends(ts, i + 1);
                    }
                    return Err(e);
                },
            }
        } else {
            proof {
                assert(spec_parse_tokens(ts.take(i + 1 as int)) == Some(pairs.deep_view()));
            }
        }
        i = i + 1;
    }
    proof {
        assert(ts.take(n as int) =~= ts);
    }
    Ok(KeyValuePairs { key_value_pairs: pairs })
}

} // verus!
