//! Character-exact string comparison, proved against the string views.

use vstd::prelude::*;
use vstd::string::StrSliceExecFns;
use vstd::string::StringExecFns;

verus! {

/// Compare two string slices character by character.
pub fn str_eq(a: &str, b: &str) -> (r: bool)
    ensures
        r == (a@ == b@),
{
    let alen = a.unicode_len();
    let blen = b.unicode_len();
    if alen != blen {
        proof {
            if a@ == b@ {
                assert(a@.len() == b@.len());
            }
        }
        return false;
    }
    let mut i: usize = 0;
    while i < alen
        invariant
            alen == a@.len(),
            blen == b@.len(),
            alen == blen,
            i <= alen,
            forall|j: int| 0 <= j < i ==> a@[j] == b@[j],
        decreases alen - i,
    {
        if a.get_char(i) != b.get_char(i) {
            proof {
                if a@ == b@ {
                    assert(a@[i as int] == b@[i as int]);
                }
            }
            return false;
        }
        i += 1;
    }
    proof {
        assert(a@ =~= b@);
    }
    true
}


/// The decimal digit character for one value below ten.
pub open spec fn spec_digit_char(d: int) -> char {
    if d == 0 {
        '0'
    } else if d == 1 {
        '1'
    } else if d == 2 {
        '2'
    } else if d == 3 {
        '3'
    } else if d == 4 {
        '4'
    } else if d == 5 {
        '5'
    } else if d == 6 {
        '6'
    } else if d == 7 {
        '7'
    } else if d == 8 {
        '8'
    } else {
        '9'
    }
}

/// The canonical decimal rendering of a non-negative integer: most
/// significant digit first, no leading zero except for the value 0 itself.
pub open spec fn spec_decimal(v: int) -> Seq<char>
    decreases v,
{
    if v < 10 {
        seq![spec_digit_char(v)]
    } else {
        spec_decimal(v / 10).push(spec_digit_char(v % 10))
    }
}

fn digit_str(d: u64) -> (r: &'static str)
    requires
        d < 10,
    ensures
        r@ == seq![spec_digit_char(d as int)],
{
    let r: &'static str = if d == 0 {
        "0"
    } else if d == 1 {
        "1"
    } else if d == 2 {
        "2"
    } else if d == 3 {
        "3"
    } else if d == 4 {
        "4"
    } else if d == 5 {
        "5"
    } else if d == 6 {
        "6"
    } else if d == 7 {
        "7"
    } else if d == 8 {
        "8"
    } else {
        "9"
    };
    proof {
        reveal_strlit("0");
        reveal_strlit("1");
        reveal_strlit("2");
        reveal_strlit("3");
        reveal_strlit("4");
        reveal_strlit("5");
        reveal_strlit("6");
        reveal_strlit("7");
        reveal_strlit("8");
        reveal_strlit("9");
        assert(r@ =~= seq![spec_digit_char(d as int)]);
    }
    r
}

/// Render a non-negative integer as its canonical decimal string.
pub fn u64_to_string(v: u64) -> (r: String)
    ensures
        r@ == spec_decimal(v as int),
    decreases v,
{
    if v < 10 {
        String::from_str(digit_str(v))
    } else {
        let mut s = u64_to_string(v / 10);
        s.append(digit_str(v % 10));
        proof {
            assert(s@ =~= spec_decimal(v as int / 10).push(spec_digit_char(v as int % 10)));
        }
        s
    }
}


/// The numeric value of one digit character.
pub open spec fn spec_digit_value(c: char) -> int {
    c as int - '0' as int
}

/// Whether every character of `s` is a decimal digit.
pub open spec fn spec_is_digits(s: Seq<char>) -> bool {
    forall|i: int| 0 <= i < s.len() ==> '0' <= #[trigger] s[i] <= '9'
}

/// The value of a digit string, most significant digit first.
pub open spec fn spec_digits_value(s: Seq<char>) -> int
    decreases s.len(),
{
    if s.len() == 0 {
        0
    } else {
        spec_digits_value(s.drop_last()) * 10 + spec_digit_value(s.last())
    }
}

/// The value of a digit string is never negative.
pub proof fn lemma_digits_value_nonneg(s: Seq<char>)
    requires
        spec_is_digits(s),
    ensures
        spec_digits_value(s) >= 0,
    decreases s.len(),
{
    if s.len() > 0 {
        assert(spec_is_digits(s.drop_last()));
        lemma_digits_value_nonneg(s.drop_last());
    }
}

/// Extending a digit string can only grow its value.
pub proof fn lemma_digits_value_prefix_monotone(s: Seq<char>, j: int)
    requires
        spec_is_digits(s),
        0 <= j <= s.len(),
    ensures
        spec_digits_value(s.subrange(0, j)) <= spec_digits_value(s),
    decreases s.len() - j,
{
    if j == s.len() {
        assert(s.subrange(0, j) =~= s);
    } else {
        assert(s.subrange(0, j + 1).drop_last() =~= s.subrange(0, j));
        assert(spec_is_digits(s.subrange(0, j)));
        lemma_digits_value_nonneg(s.subrange(0, j));
        assert(spec_digits_value(s.subrange(0, j + 1)) == spec_digits_value(s.subrange(0, j)) * 10
            + spec_digit_value(s.subrange(0, j + 1).last()));
        lemma_digits_value_prefix_monotone(s, j + 1);
    }
}

/// Read a non-negative integer from a decimal string.  The result is the
/// string's value exactly when the string is non-empty, all digits, and its
/// value fits the machine range.
pub fn parse_u64(s: &str) -> (r: Option<u64>)
    ensures
        match r {
            Some(v) => spec_is_digits(s@) && s@.len() > 0 && spec_digits_value(s@) == v as int,
            None => s@.len() == 0 || !spec_is_digits(s@) || spec_digits_value(s@) > u64::MAX,
        },
{
    let n = s.unicode_len();
    if n == 0 {
        return None;
    }
    let mut acc: u64 = 0;
    let mut i: usize = 0;
    while i < n
        invariant
            n == s@.len(),
            i <= n,
            spec_is_digits(s@.subrange(0, i as int)),
            acc as int == spec_digits_value(s@.subrange(0, i as int)),
        decreases n - i,
    {
        let c = s.get_char(i);
        let d = c as u32;
        if d < 48 || d > 57 {
            proof {
                assert(!('0' <= s@[i as int] <= '9'));
            }
            return None;
        }
        let dv = (d - 48) as u64;
        proof {
            assert(s@.subrange(0, i + 1).drop_last() =~= s@.subrange(0, i as int));
            assert(s@.subrange(0, i + 1).last() == s@[i as int]);
            assert(spec_is_digits(s@.subrange(0, i + 1)));
        }
        if acc > u64::MAX / 10 || (acc == u64::MAX / 10 && dv > u64::MAX % 10) {
            proof {
                assert(spec_digits_value(s@.subrange(0, i + 1)) > u64::MAX);
                if spec_is_digits(s@) {
                    lemma_digits_value_prefix_monotone(s@, i + 1);
                }
            }
            return None;
        }
        acc = acc * 10 + dv;
        i += 1;
    }
    proof {
        assert(s@.subrange(0, n as int) =~= s@);
    }
    Some(acc)
}

/// The canonical decimal rendering reads back to the value it renders.
pub proof fn lemma_decimal_round_trip(v: int)
    requires
        v >= 0,
    ensures
        spec_is_digits(spec_decimal(v)),
        spec_decimal(v).len() > 0,
        spec_digits_value(spec_decimal(v)) == v,
    decreases v,
{
    if v < 10 {
        assert(spec_decimal(v).drop_last() =~= Seq::<char>::empty());
        assert('0' <= spec_digit_char(v) <= '9');
        assert(spec_digit_value(spec_digit_char(v)) == v);
        assert(spec_decimal(v).last() == spec_digit_char(v));
        assert(spec_digits_value(Seq::<char>::empty()) == 0);
        assert(spec_digits_value(spec_decimal(v)) == 0 * 10 + spec_digit_value(
            spec_digit_char(v),
        ));
    } else {
        lemma_decimal_round_trip(v / 10);
        assert(spec_decimal(v).drop_last() =~= spec_decimal(v / 10));
        assert('0' <= spec_digit_char(v % 10) <= '9');
        assert(spec_digit_value(spec_digit_char(v % 10)) == v % 10);
        assert(spec_decimal(v).last() == spec_digit_char(v % 10));
        assert(spec_digits_value(spec_decimal(v)) == spec_digits_value(spec_decimal(v / 10)) * 10
            + spec_digit_value(spec_digit_char(v % 10)));
        assert(spec_digits_value(spec_decimal(v)) == (v / 10) * 10 + v % 10);
        assert((v / 10) * 10 + v % 10 == v);
        assert(spec_is_digits(spec_decimal(v))) by {
            let d = spec_decimal(v);
            assert forall|i: int| 0 <= i < d.len() implies '0' <= #[trigger] d[i] <= '9' by {
                if i < d.len() - 1 {
                    assert(d[i] == spec_decimal(v / 10)[i]);
                } else {
                    assert(d[i] == spec_digit_char(v % 10));
                }
            }
        }
    }
}

} // verus!
