//! Decimal digit sequences and signed integer parsing, specified over
//! `Seq<char>` views.

use vstd::prelude::*;
use vstd::string::*;

verus! {

/// An ASCII decimal digit.
pub open spec fn is_digit_char(c: char) -> bool {
    48 <= c as u32 && c as u32 <= 57
}

/// The numeric value of an ASCII decimal digit.
pub open spec fn digit_val(c: char) -> int {
    c as u32 - 48
}

/// Every character of the sequence is an ASCII decimal digit.
pub open spec fn all_digits(s: Seq<char>) -> bool {
    forall|i: int| 0 <= i < s.len() ==> is_digit_char(s[i])
}

/// The base-10 value of a digit sequence, most significant digit first.
pub open spec fn digits_val(s: Seq<char>) -> int
    decreases s.len(),
{
    if s.len() == 0 {
        0
    } else {
        digits_val(s.drop_last()) * 10 + digit_val(s.last())
    }
}

/// What `str::parse::<i64>` accepts, as a mathematical integer: an
/// optional sign followed by at least one digit. `None` for any other
/// shape; the range check against `i64` is left to the caller.
pub open spec fn parse_int_spec(s: Seq<char>) -> Option<int> {
    if s.len() > 0 && (s[0] == '+' || s[0] == '-') {
        let rest = s.drop_first();
        if rest.len() > 0 && all_digits(rest) {
            if s[0] == '-' {
                Some(-digits_val(rest))
            } else {
                Some(digits_val(rest))
            }
        } else {
            None
        }
    } else if s.len() > 0 && all_digits(s) {
        Some(digits_val(s))
    } else {
        None
    }
}

pub proof fn lemma_digits_val_nonneg(s: Seq<char>)
    requires
        all_digits(s),
    ensures
        digits_val(s) >= 0,
    decreases s.len(),
{
    if s.len() > 0 {
        assert(forall|i: int| 0 <= i < s.len() - 1 ==> is_digit_char(#[trigger] s.drop_last()[i]));
        lemma_digits_val_nonneg(s.drop_last());
    }
}

/// Ten raised to the given power.
pub open spec fn pow10(n: nat) -> int
    decreases n,
{
    if n == 0 {
        1
    } else {
        10 * pow10((n - 1) as nat)
    }
}

/// A run of `n` digits is worth less than ten to the `n`.
pub proof fn lemma_digits_val_upper(s: Seq<char>)
    requires
        all_digits(s),
    ensures
        digits_val(s) < pow10(s.len() as nat),
    decreases s.len(),
{
    if s.len() > 0 {
        let p = s.drop_last();
        assert(forall|i: int| 0 <= i < p.len() ==> is_digit_char(#[trigger] p[i]));
        lemma_digits_val_upper(p);
        assert(digit_val(s.last()) <= 9);
        assert(digits_val(p) * 10 <= (pow10(p.len() as nat) - 1) * 10);
    }
}

/// Appending further digits never shrinks the value.
pub proof fn lemma_digits_val_prefix_le(t: Seq<char>, m: int)
    requires
        all_digits(t),
        0 <= m <= t.len(),
    ensures
        digits_val(t.subrange(0, m)) <= digits_val(t),
    decreases t.len() - m,
{
    if m == t.len() {
        assert(t.subrange(0, m) =~= t);
    } else {
        lemma_digits_val_prefix_le(t, m + 1);
        let p = t.subrange(0, m);
        let q = t.subrange(0, m + 1);
        assert(q.drop_last() =~= p);
        assert(forall|i: int| 0 <= i < p.len() ==> is_digit_char(#[trigger] p[i]));
        lemma_digits_val_nonneg(p);
        assert(digits_val(q) == digits_val(p) * 10 + digit_val(q.last()));
        assert(digits_val(p) * 10 >= digits_val(p));
    }
}

/// Parses a run of exactly `b - a` digits out of `s`, as
/// `str::parse` would read them, returning their base-10 value.
/// `None` when some character in the range is not a digit.
pub fn parse_digits_range(s: &str, a: usize, b: usize) -> (r: Option<u32>)
    requires
        a <= b,
        b <= s@.len(),
        b - a <= 4,
    ensures
        match r {
            Some(v) => all_digits(s@.subrange(a as int, b as int)) && v as int == digits_val(
                s@.subrange(a as int, b as int),
            ),
            None => !all_digits(s@.subrange(a as int, b as int)),
        },
{
    let mut acc: u32 = 0;
    let mut i: usize = a;
    while i < b
        invariant
            a <= i <= b,
            b <= s@.len(),
            b - a <= 4,
            all_digits(s@.subrange(a as int, i as int)),
            acc as int == digits_val(s@.subrange(a as int, i as int)),
        decreases b - i,
    {
        let c = s.get_char(i);
        let u: u32 = c as u32;
        if !(48 <= u && u <= 57) {
            assert(!is_digit_char(s@.subrange(a as int, b as int)[i - a]));
            return None;
        }
        proof {
            let p = s@.subrange(a as int, i as int);
            lemma_digits_val_upper(p);
            assert(pow10(0nat) == 1);
            assert(pow10(1nat) == 10);
            assert(pow10(2nat) == 100);
            assert(pow10(3nat) == 1000);
            assert(p.len() == 0 || p.len() == 1 || p.len() == 2 || p.len() == 3);
            assert(acc < 1000);
        }
        acc = acc * 10 + (u - 48);
        proof {
            let p = s@.subrange(a as int, i as int);
            let q = s@.subrange(a as int, i + 1);
            assert(q.drop_last() =~= p);
            assert(q.last() == s@[i as int]);
        }
        i = i + 1;
    }
    proof {
        assert(s@.subrange(a as int, b as int) =~= s@.subrange(a as int, i as int));
    }
    Some(acc)
}

proof fn lemma_no_fit(s: Seq<char>, rest: Seq<char>, q: Seq<char>, start: int, i: int)
    requires
        s.len() > 0,
        0 <= start <= 1,
        start <= i < s.len(),
        (start == 1) == (s[0] == '+' || s[0] == '-'),
        rest == s.subrange(start, s.len() as int),
        q == s.subrange(start, i + 1),
        all_digits(q),
        digits_val(q) > u64::MAX as int,
    ensures
        match parse_int_spec(s) {
            Some(n) => n > i64::MAX || n < i64::MIN,
            None => true,
        },
{
    if start == 1 {
        assert(rest =~= s.drop_first());
    } else {
        assert(rest =~= s);
    }
    if all_digits(rest) {
        assert(q =~= rest.subrange(0, i + 1 - start));
        lemma_digits_val_prefix_le(rest, i + 1 - start);
        assert(digits_val(rest) > u64::MAX as int);
        assert(digits_val(rest) > i64::MAX);
        assert(-digits_val(rest) < i64::MIN);
    }
}

/// Parses a whole string as a signed 64-bit integer, accepting exactly
/// what `str::parse::<i64>` accepts: an optional `+` or `-` sign, then
/// one or more decimal digits, the value within `i64`'s range.
pub fn parse_i64(s: &str) -> (r: Option<i64>)
    ensures
        match parse_int_spec(s@) {
            Some(n) => if i64::MIN <= n <= i64::MAX {
                r matches Some(v) && v as int == n
            } else {
                r is None
            },
            None => r is None,
        },
{
    let n = s.unicode_len();
    if n == 0 {
        return None;
    }
    let c0 = s.get_char(0);
    let neg = c0 == '-';
    let start: usize = if c0 == '-' || c0 == '+' {
        1
    } else {
        0
    };
    if start == n {
        return None;
    }
    let ghost rest = s@.subrange(start as int, n as int);
    proof {
        if start == 1 {
            assert(rest =~= s@.drop_first());
        } else {
            assert(rest =~= s@);
        }
    }
    let mut acc: u64 = 0;
    let mut i: usize = start;
    while i < n
        invariant
            start <= i <= n,
            n == s@.len(),
            start <= 1,
            n > start,
            (start == 1) == (s@[0] == '+' || s@[0] == '-'),
            neg == (s@[0] == '-'),
            rest == s@.subrange(start as int, n as int),
            all_digits(s@.subrange(start as int, i as int)),
            acc as int == digits_val(s@.subrange(start as int, i as int)),
        decreases n - i,
    {
        let c = s.get_char(i);
        let u: u32 = c as u32;
        if !(48 <= u && u <= 57) {
            proof {
                if start == 1 {
                    assert(rest =~= s@.drop_first());
                } else {
                    assert(rest =~= s@);
                }
                assert(!is_digit_char(rest[i - start]));
            }
            return None;
        }
        let ghost p = s@.subrange(start as int, i as int);
        let ghost q = s@.subrange(start as int, i + 1);
        proof {
            assert(q.drop_last() =~= p);
            assert(q.last() == s@[i as int]);
        }
        let d: u64 = (u - 48) as u64;
        let acc10 = match acc.checked_mul(10) {
            Some(m) => m,
            None => {
                proof {
                    assert(digits_val(q) == digits_val(p) * 10 + digit_val(s@[i as int]));
                    assert(digits_val(q) > u64::MAX as int);
                    lemma_no_fit(s@, rest, q, start as int, i as int);
                }
                return None;
            },
        };
        let next = match acc10.checked_add(d) {
            Some(v) => v,
            None => {
                proof {
                    assert(digits_val(q) == digits_val(p) * 10 + digit_val(s@[i as int]));
                    assert(digits_val(q) > u64::MAX as int);
                    lemma_no_fit(s@, rest, q, start as int, i as int);
                }
                return None;
            },
        };
        acc = next;
        i = i + 1;
    }
    proof {
        assert(s@.subrange(start as int, i as int) =~= rest);
        if start == 1 {
            assert(rest =~= s@.drop_first());
        } else {
            assert(rest =~= s@);
        }
    }
    if neg {
        if acc <= 9223372036854775808u64 {
            if acc == 9223372036854775808u64 {
                Some(i64::MIN)
            } else {
                Some(-(acc as i64))
            }
        } else {
            None
        }
    } else {
        if acc <= 9223372036854775807u64 {
            Some(acc as i64)
        } else {
            None
        }
    }
}

} // verus!
