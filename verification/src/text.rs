//! Small verified helpers over strings: equality, ASCII case folding and
//! the lowercase-hex rendering used for nonces.

use vstd::prelude::*;

verus! {

/// ASCII lowering of one character: `A`..`Z` map to `a`..`z`, everything
/// else is unchanged.
pub open spec fn spec_lower_char(c: char) -> char {
    if 65 <= c as int && c as int <= 90 {
        (c as int + 32) as char
    } else {
        c
    }
}

/// ASCII lowering of a character sequence.
pub open spec fn spec_lower(s: Seq<char>) -> Seq<char> {
    s.map_values(|c: char| spec_lower_char(c))
}

/// Character-for-character string equality.
pub fn str_eq(a: &str, b: &str) -> (r: bool)
    ensures
        r == (a@ == b@),
{
    let a_len = a.unicode_len();
    let b_len = b.unicode_len();
    if a_len != b_len {
        proof {
            if a@ == b@ {
                assert(a@.len() == b@.len());
            }
        }
        return false;
    }
    let mut i: usize = 0;
    while i < a_len
        invariant
            i <= a_len,
            a_len == a@.len(),
            b_len == b@.len(),
            a_len == b_len,
            forall|j: int| 0 <= j < i ==> a@[j] == b@[j],
        decreases a_len - i,
    {
        if a.get_char(i) != b.get_char(i) {
            proof {
                if a@ == b@ {
                    assert(a@[i as int] == b@[i as int]);
                }
            }
            return false;
        }
        i = i + 1;
    }
    proof {
        assert(a@ =~= b@);
    }
    true
}

/// String equality up to ASCII case.
pub fn str_eq_ignore_ascii_case(a: &str, b: &str) -> (r: bool)
    ensures
        r == (spec_lower(a@) == spec_lower(b@)),
{
    let a_len = a.unicode_len();
    let b_len = b.unicode_len();
    if a_len != b_len {
        proof {
            if spec_lower(a@) == spec_lower(b@) {
                assert(spec_lower(a@).len() == spec_lower(b@).len());
            }
        }
        return false;
    }
    let mut i: usize = 0;
    while i < a_len
        invariant
            i <= a_len,
            a_len == a@.len(),
            b_len == b@.len(),
            a_len == b_len,
            forall|j: int| 0 <= j < i ==> spec_lower_char(a@[j]) == spec_lower_char(b@[j]),
        decreases a_len - i,
    {
        let ca = a.get_char(i) as u32;
        let cb = b.get_char(i) as u32;
        let la: u32 = if 65 <= ca && ca <= 90 {
            ca + 32
        } else {
            ca
        };
        let lb: u32 = if 65 <= cb && cb <= 90 {
            cb + 32
        } else {
            cb
        };
        if la != lb {
            proof {
                assert(spec_lower_char(a@[i as int]) as int == la as int);
                assert(spec_lower_char(b@[i as int]) as int == lb as int);
                if spec_lower(a@) == spec_lower(b@) {
                    assert(spec_lower(a@)[i as int] == spec_lower(b@)[i as int]);
                }
            }
            return false;
        }
        i = i + 1;
    }
    proof {
        assert(spec_lower(a@) =~= spec_lower(b@));
    }
    true
}

/// The lowercase hex digit for a value below 16.
pub open spec fn spec_hex_digit(n: u8) -> char
    recommends
        n < 16,
{
    if n == 0 {
        '0'
    } else if n == 1 {
        '1'
    } else if n == 2 {
        '2'
    } else if n == 3 {
        '3'
    } else if n == 4 {
        '4'
    } else if n == 5 {
        '5'
    } else if n == 6 {
        '6'
    } else if n == 7 {
        '7'
    } else if n == 8 {
        '8'
    } else if n == 9 {
        '9'
    } else if n == 10 {
        'a'
    } else if n == 11 {
        'b'
    } else if n == 12 {
        'c'
    } else if n == 13 {
        'd'
    } else if n == 14 {
        'e'
    } else {
        'f'
    }
}

/// The shortest lowercase hex rendering of one byte: one digit below 16,
/// two digits otherwise.
pub open spec fn spec_hex_of_byte(b: u8) -> Seq<char> {
    if b < 16 {
        seq![spec_hex_digit(b)]
    } else {
        seq![spec_hex_digit(b / 16), spec_hex_digit(b % 16)]
    }
}

/// The concatenation of the per-byte hex renderings.
pub open spec fn spec_hex_of_bytes(bs: Seq<u8>) -> Seq<char>
    decreases bs.len(),
{
    if bs.len() == 0 {
        Seq::empty()
    } else {
        spec_hex_of_byte(bs[0]) + spec_hex_of_bytes(bs.drop_first())
    }
}

proof fn lemma_hex_of_bytes_push(bs: Seq<u8>, b: u8)
    ensures
        spec_hex_of_bytes(bs.push(b)) == spec_hex_of_bytes(bs) + spec_hex_of_byte(b),
    decreases bs.len(),
{
    if bs.len() == 0 {
        assert(bs.push(b).drop_first() =~= Seq::<u8>::empty());
        assert(bs.push(b)[0] == b);
        assert(spec_hex_of_bytes(bs.push(b)) == spec_hex_of_byte(b) + spec_hex_of_bytes(
            Seq::<u8>::empty(),
        ));
        assert(spec_hex_of_byte(b) + Seq::<char>::empty() =~= spec_hex_of_byte(b));
        assert(spec_hex_of_bytes(bs) + spec_hex_of_byte(b) =~= spec_hex_of_byte(b));
    } else {
        assert(bs.push(b).drop_first() =~= bs.drop_first().push(b));
        lemma_hex_of_bytes_push(bs.drop_first(), b);
        assert(bs.push(b)[0] == bs[0]);
        assert(spec_hex_of_bytes(bs.push(b)) == spec_hex_of_byte(bs[0]) + (spec_hex_of_bytes(
            bs.drop_first(),
        ) + spec_hex_of_byte(b)));
        assert(spec_hex_of_byte(bs[0]) + (spec_hex_of_bytes(bs.drop_first()) + spec_hex_of_byte(b))
            =~= (spec_hex_of_byte(bs[0]) + spec_hex_of_bytes(bs.drop_first())) + spec_hex_of_byte(
            b,
        ));
    }
}

/// The hex digit as a one-character string slice.
fn hex_digit_str(n: u8) -> (r: &'static str)
    requires
        n < 16,
    ensures
        r@ == seq![spec_hex_digit(n)],
{
    proof {
        reveal_strlit("0");
        reveal_strlit("1");
        reveal_strlit("2");
        reveal_strlit("3");
        reveal_strlit("4");
        reveal_strlit("5");
        reveal_strlit("6");
        reveal_strlit("7");
        reveal_strlit("8");
        reveal_strlit("9");
        reveal_strlit("a");
        reveal_strlit("b");
        reveal_strlit("c");
        reveal_strlit("d");
        reveal_strlit("e");
        reveal_strlit("f");
    }
    let r = match n {
        0 => "0",
        1 => "1",
        2 => "2",
        3 => "3",
        4 => "4",
        5 => "5",
        6 => "6",
        7 => "7",
        8 => "8",
        9 => "9",
        10 => "a",
        11 => "b",
        12 => "c",
        13 => "d",
        14 => "e",
        _ => "f",
    };
    proof {
        assert(r@ =~= seq![spec_hex_digit(n)]);
    }
    r
}

/// Render bytes as lowercase hex, one or two digits per byte.
pub fn hex_string(bytes: &[u8]) -> (r: String)
    ensures
        r@ == spec_hex_of_bytes(bytes@),
{
    let mut out = String::new();
    let mut i: usize = 0;
    while i < bytes.len()
        invariant
            i <= bytes@.len(),
            out@ == spec_hex_of_bytes(bytes@.take(i as int)),
        decreases bytes@.len() - i,
    {
        let b = bytes[i];
        if b < 16 {
            out.append(hex_digit_str(b));
        } else {
            out.append(hex_digit_str(b / 16));
            out.append(hex_digit_str(b % 16));
        }
        proof {
            lemma_hex_of_bytes_push(bytes@.take(i as int), bytes@[i as int]);
            assert(bytes@.take(i as int).push(bytes@[i as int]) =~= bytes@.take(i + 1 as int));
            assert(out@ =~= spec_hex_of_bytes(bytes@.take(i + 1 as int)));
        }
        i = i + 1;
    }
    proof {
        assert(bytes@.take(bytes@.len() as int) =~= bytes@);
    }
    out
}

} // verus!
