//! Decimal rendering of counters and timestamps for consumer-facing text.

use vstd::prelude::*;

verus! {

/// The character for one decimal digit value.
pub open spec fn digit_char(d: int) -> char {
    if d == 0 {
        '0'
    } else if d == 1 {
        '1'
    } else if d == 2 {
        '2'
    } else if d == 3 {
        '3'
    } else if d == 4 {
        '4'
    } else if d == 5 {
        '5'
    } else if d == 6 {
        '6'
    } else if d == 7 {
        '7'
    } else if d == 8 {
        '8'
    } else {
        '9'
    }
}

/// The decimal representation of a number, most significant digit first,
/// without leading zeros (`0` itself is the single character `0`).
pub open spec fn dec_of(n: nat) -> Seq<char>
    decreases n,
{
    if n < 10 {
        seq![digit_char(n as int)]
    } else {
        dec_of(n / 10).push(digit_char((n % 10) as int))
    }
}

/// The characters of a least-significant-digit-first digit list, read back
/// most significant digit first.
pub open spec fn chars_of_rev(ds: Seq<u8>) -> Seq<char>
    decreases ds.len(),
{
    if ds.len() == 0 {
        Seq::empty()
    } else {
        seq![digit_char(ds.last() as int)] + chars_of_rev(ds.drop_last())
    }
}

proof fn lemma_chars_of_rev_index(ds: Seq<u8>)
    ensures
        chars_of_rev(ds).len() == ds.len(),
        forall|j: int|
            0 <= j < ds.len() ==> #[trigger] chars_of_rev(ds)[j] == digit_char(
                ds[ds.len() - 1 - j] as int,
            ),
    decreases ds.len(),
{
    if ds.len() > 0 {
        lemma_chars_of_rev_index(ds.drop_last());
    }
}

fn digit_str(d: u8) -> (r: &'static str)
    requires
        d < 10,
    ensures
        r@ =~= seq![digit_char(d as int)],
{
    proof {
        reveal_strlit("0");
        reveal_strlit("1");
        reveal_strlit("2");
        reveal_strlit("3");
        reveal_strlit("4");
        reveal_strlit("5");
        reveal_strlit("6");
        reveal_strlit("7");
        reveal_strlit("8");
        reveal_strlit("9");
    }
    match d {
        0 => "0",
        1 => "1",
        2 => "2",
        3 => "3",
        4 => "4",
        5 => "5",
        6 => "6",
        7 => "7",
        8 => "8",
        _ => "9",
    }
}

/// Duplicate an optional string, keeping its exact contents.
pub fn clone_opt_string(o: &Option<String>) -> (r: Option<String>)
    ensures
        r == *o,
{
    match o {
        Some(s) => Some(s.clone()),
        None => None,
    }
}

/// Render a number in decimal.
pub fn u64_to_dec(n: u64) -> (r: String)
    ensures
        r@ == dec_of(n as nat),
{
    let mut digits: Vec<u8> = Vec::new();
    let mut m = n;
    if m == 0 {
        proof {
            reveal_strlit("0");
            assert("0"@ =~= dec_of(0));
        }
        return String::from_str("0");
    }
    proof {
        assert(dec_of(n as nat) =~= dec_of(n as nat) + chars_of_rev(digits@));
    }
    while m > 0
        invariant
            m > 0 ==> dec_of(n as nat) == dec_of(m as nat) + chars_of_rev(digits@),
            m == 0 ==> dec_of(n as nat) == chars_of_rev(digits@),
            forall|j: int| 0 <= j < digits@.len() ==> digits@[j] < 10,
        decreases m,
    {
        proof {
            assert(m % 10 < 10);
        }
        let d = (m % 10) as u8;
        let ghost prev = digits@;
        let ghost m0 = m as nat;
        digits.push(d);
        m = m / 10;
        proof {
            assert(digits@.drop_last() =~= prev);
            assert(digits@.last() == d);
            assert(chars_of_rev(digits@) == seq![digit_char(d as int)] + chars_of_rev(prev));
            if m > 0 {
                assert(m0 >= 10);
                assert(dec_of(m0) == dec_of(m0 / 10).push(digit_char((m0 % 10) as int)));
                assert(dec_of(m0 / 10).push(digit_char(d as int)) =~= dec_of(m0 / 10) + seq![
                    digit_char(d as int),
                ]);
                assert(dec_of(m0) + chars_of_rev(prev) =~= dec_of(m as nat) + chars_of_rev(
                    digits@,
                ));
            } else {
                assert(m0 < 10);
                assert(dec_of(m0) == seq![digit_char(d as int)]);
                assert(dec_of(m0) + chars_of_rev(prev) =~= chars_of_rev(digits@));
            }
        }
    }
    let ghost target = chars_of_rev(digits@);
    proof {
        lemma_chars_of_rev_index(digits@);
    }
    let mut r = String::new();
    let mut i = digits.len();
    while i > 0
        invariant
            i <= digits@.len(),
            target == chars_of_rev(digits@),
            target.len() == digits@.len(),
            forall|j: int|
                0 <= j < digits@.len() ==> #[trigger] target[j] == digit_char(
                    digits@[digits@.len() - 1 - j] as int,
                ),
            forall|j: int| 0 <= j < digits@.len() ==> digits@[j] < 10,
            r@ =~= target.take(digits@.len() - i),
        decreases i,
    {
        i = i - 1;
        r.append(digit_str(digits[i]));
        proof {
            assert(r@ =~= target.take(digits@.len() - i));
        }
    }
    proof {
        assert(target.take(digits@.len() as int) =~= target);
    }
    r
}

} // verus!
