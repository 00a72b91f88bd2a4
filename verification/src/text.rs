//! Decimal rendering and parsing of unsigned integers, and comma joining.
//!
//! Query parameters and error messages carry numbers in decimal form, and
//! the rate-limit header is read back as one.  Both directions are verified
//! against the same digit-sequence model, which is what makes the query
//! round trip provable.

use vstd::prelude::*;

verus! {

use vstd::string::StrSliceExecFns;
use vstd::string::StringExecFns;

/// The decimal digit character for a value below ten.
pub open spec fn digit_char(d: nat) -> char {
    if d == 0 {
        '0'
    } else if d == 1 {
        '1'
    } else if d == 2 {
        '2'
    } else if d == 3 {
        '3'
    } else if d == 4 {
        '4'
    } else if d == 5 {
        '5'
    } else if d == 6 {
        '6'
    } else if d == 7 {
        '7'
    } else if d == 8 {
        '8'
    } else {
        '9'
    }
}

pub open spec fn is_digit(c: char) -> bool {
    '0' as u32 <= c as u32 && c as u32 <= '9' as u32
}

/// The numeric value of a decimal digit character.
pub open spec fn digit_val(c: char) -> nat
    recommends
        is_digit(c),
{
    (c as u32 - '0' as u32) as nat
}

/// The decimal digit string of `n`, most significant digit first,
/// with no sign, no leading zeros (except for zero itself).
pub open spec fn dec_digits(n: nat) -> Seq<char>
    decreases n,
{
    if n < 10 {
        seq![digit_char(n)]
    } else {
        dec_digits(n / 10) + seq![digit_char(n % 10)]
    }
}

pub open spec fn all_digits(s: Seq<char>) -> bool {
    forall|i: int| 0 <= i < s.len() ==> is_digit(#[trigger] s[i])
}

/// The value of a digit string, most significant digit first.
pub open spec fn digit_seq_val(s: Seq<char>) -> nat
    recommends
        all_digits(s),
    decreases s.len(),
{
    if s.len() == 0 {
        0
    } else {
        digit_seq_val(s.drop_last()) * 10 + digit_val(s.last())
    }
}

/// What parsing a decimal `u64` from text yields: an optional leading
/// plus sign followed by one or more digits whose value fits in a `u64`;
/// anything else is rejected.
pub open spec fn parse_u64_spec(s: Seq<char>) -> Option<u64> {
    let t = if s.len() > 0 && s[0] == '+' {
        s.drop_first()
    } else {
        s
    };
    if t.len() > 0 && all_digits(t) && digit_seq_val(t) <= u64::MAX {
        Some(digit_seq_val(t) as u64)
    } else {
        None
    }
}

fn digit_str(d: u64) -> (r: &'static str)
    requires
        d < 10,
    ensures
        r@ == seq![digit_char(d as nat)],
{
    let r = if d == 0 {
        "0"
    } else if d == 1 {
        "1"
    } else if d == 2 {
        "2"
    } else if d == 3 {
        "3"
    } else if d == 4 {
        "4"
    } else if d == 5 {
        "5"
    } else if d == 6 {
        "6"
    } else if d == 7 {
        "7"
    } else if d == 8 {
        "8"
    } else {
        "9"
    };
    proof {
        reveal_strlit("0");
        reveal_strlit("1");
        reveal_strlit("2");
        reveal_strlit("3");
        reveal_strlit("4");
        reveal_strlit("5");
        reveal_strlit("6");
        reveal_strlit("7");
        reveal_strlit("8");
        reveal_strlit("9");
        assert(r@ =~= seq![digit_char(d as nat)]);
    }
    r
}

/// Renders `n` in decimal, matching `dec_digits`.
pub fn u64_to_string(n: u64) -> (r: String)
    ensures
        r@ == dec_digits(n as nat),
    decreases n,
{
    let d: u64 = n % 10;
    let ds = digit_str(d);
    if n < 10 {
        ds.to_owned()
    } else {
        let prefix = u64_to_string(n / 10);
        prefix.concat(ds)
    }
}

proof fn lemma_digit_seq_val_monotonic(t: Seq<char>, i: int, j: int)
    requires
        0 <= i <= j <= t.len(),
    ensures
        digit_seq_val(t.take(i)) <= digit_seq_val(t.take(j)),
    decreases j - i,
{
    if i < j {
        lemma_digit_seq_val_monotonic(t, i, j - 1);
        assert(t.take(j).drop_last() =~= t.take(j - 1));
        assert(digit_seq_val(t.take(j)) == digit_seq_val(t.take(j - 1)) * 10 + digit_val(
            t.take(j).last(),
        ));
    }
}

/// Parses a decimal `u64`, exactly as `parse_u64_spec` describes.
pub fn parse_u64(s: &str) -> (r: Option<u64>)
    ensures
        r == parse_u64_spec(s@),
{
    let len = s.unicode_len();
    let start: usize = if len > 0 && s.get_char(0) == '+' {
        1
    } else {
        0
    };
    let ghost t = if len > 0 && s@[0] == '+' {
        s@.drop_first()
    } else {
        s@
    };
    proof {
        assert(t =~= s@.subrange(start as int, len as int));
    }
    if len == start {
        return None;
    }
    let mut i = start;
    let mut acc: u64 = 0;
    while i < len
        invariant
            start <= i <= len,
            len == s@.len(),
            start == 1 ==> len > 0 && s@[0] == '+',
            start == 0 ==> !(len > 0 && s@[0] == '+'),
            t == (if s@.len() > 0 && s@[0] == '+' {
                s@.drop_first()
            } else {
                s@
            }),
            t.len() == len - start,
            forall|k: int| 0 <= k < t.len() ==> t[k] == s@[k + start],
            all_digits(t.take(i - start)),
            acc == digit_seq_val(t.take(i - start)),
        decreases len - i,
    {
        let c = s.get_char(i);
        let cu: u32 = c as u32;
        proof {
            assert(t[i - start] == s@[i as int]);
        }
        if cu < '0' as u32 || cu > '9' as u32 {
            proof {
                assert(!is_digit(t[i - start]));
                assert(!all_digits(t));
            }
            return None;
        }
        let d: u64 = (cu - '0' as u32) as u64;
        proof {
            assert(t.take(i - start + 1).drop_last() =~= t.take(i - start));
            assert(t.take(i - start + 1).last() == t[i - start]);
            assert(digit_seq_val(t.take(i - start + 1)) == acc * 10 + d);
        }
        let widened = match acc.checked_mul(10) {
            Some(v) => v.checked_add(d),
            None => None,
        };
        match widened {
            Some(v) => {
                acc = v;
            },
            None => {
                proof {
                    assert(digit_seq_val(t.take(i - start + 1)) > u64::MAX);
                    lemma_digit_seq_val_monotonic(t, i - start + 1, t.len() as int);
                    assert(t.take(t.len() as int) =~= t);
                    assert(digit_seq_val(t) > u64::MAX);
                }
                return None;
            },
        }
        i = i + 1;
    }
    proof {
        assert(t.take(t.len() as int) =~= t);
    }
    Some(acc)
}

/// Every decimal rendering parses back to the value it came from.
pub proof fn lemma_dec_digits_value(n: nat)
    ensures
        dec_digits(n).len() >= 1,
        all_digits(dec_digits(n)),
        digit_seq_val(dec_digits(n)) == n,
    decreases n,
{
    let s = dec_digits(n);
    if n < 10 {
        assert(s == seq![digit_char(n)]);
        assert(s.len() == 1);
        assert(is_digit(digit_char(n)));
        assert(digit_val(digit_char(n)) == n);
        assert(s.drop_last() =~= Seq::<char>::empty());
        assert(digit_seq_val(s.drop_last()) == 0);
        assert(s.last() == digit_char(n));
        assert(digit_seq_val(s) == 0 * 10 + digit_val(digit_char(n)));
    } else {
        lemma_dec_digits_value(n / 10);
        assert(s == dec_digits(n / 10) + seq![digit_char(n % 10)]);
        assert(s.drop_last() =~= dec_digits(n / 10));
        assert(s.last() == digit_char(n % 10));
        assert(is_digit(digit_char(n % 10)));
        assert(digit_val(digit_char(n % 10)) == n % 10);
        assert(digit_seq_val(s) == digit_seq_val(dec_digits(n / 10)) * 10 + digit_val(
            digit_char(n % 10),
        ));
        assert(n / 10 * 10 + n % 10 == n) by (nonlinear_arith);
        assert(forall|i: int|
            0 <= i < s.len() ==> is_digit(#[trigger] s[i]) == if i < s.len() - 1 {
                is_digit(dec_digits(n / 10)[i])
            } else {
                is_digit(digit_char(n % 10))
            });
    }
}

/// Round trip: parsing the decimal rendering of `n` yields `n` again.
pub proof fn lemma_u64_round_trip(n: u64)
    ensures
        parse_u64_spec(dec_digits(n as nat)) == Some(n),
{
    lemma_dec_digits_value(n as nat);
    let s = dec_digits(n as nat);
    assert(is_digit(s[0]));
    assert(s[0] != '+');
}

/// The comma-separated join of the given parts.
pub open spec fn comma_join(parts: Seq<Seq<char>>) -> Seq<char>
    decreases parts.len(),
{
    if parts.len() == 0 {
        Seq::empty()
    } else if parts.len() == 1 {
        parts[0]
    } else {
        comma_join(parts.drop_last()) + ","@ + parts.last()
    }
}

pub open spec fn strs_view(parts: Seq<&str>) -> Seq<Seq<char>> {
    parts.map_values(|p: &str| p@)
}

/// Joins the parts with commas, matching `comma_join`.
pub fn join_comma(parts: &[&str]) -> (r: String)
    ensures
        r@ == comma_join(strs_view(parts@)),
{
    let ghost dv = strs_view(parts@);
    let mut r = String::new();
    let mut i: usize = 0;
    while i < parts.len()
        invariant
            0 <= i <= parts.len(),
            dv == strs_view(parts@),
            dv.len() == parts@.len(),
            r@ == comma_join(dv.take(i as int)),
        decreases parts.len() - i,
    {
        if i > 0 {
            r.append(",");
        }
        r.append(parts[i]);
        proof {
            assert(dv.take(i + 1).drop_last() =~= dv.take(i as int));
            assert(dv.take(i + 1).last() == dv[i as int]);
            assert(dv[i as int] == parts@[i as int]@);
            if i == 0 {
                assert(comma_join(dv.take(1)) == dv[0]);
            }
        }
        i = i + 1;
    }
    proof {
        assert(dv.take(dv.len() as int) =~= dv);
    }
    r
}

} // verus!
