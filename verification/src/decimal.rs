//! Decimal digits: the specification functions for digit characters,
//! digit runs, and the numbers they denote, together with the verified
//! helpers that read them out of a string.

use vstd::prelude::*;

verus! {

/// The value of a decimal digit character, or 10 for any other character.
pub open spec fn digit_value(c: char) -> int {
    let u = c as u32;
    if 48 <= u && u <= 57 {
        u - 48
    } else {
        10
    }
}

pub open spec fn is_digit_char(c: char) -> bool {
    digit_value(c) < 10
}

/// The character for a decimal digit value in `0 ..= 9`.
pub open spec fn digit_char(v: int) -> char {
    ((v + 48) as u8) as char
}

pub open spec fn all_digits(s: Seq<char>, from: int, to: int) -> bool {
    forall|k: int| from <= k < to ==> is_digit_char(#[trigger] s[k])
}

pub open spec fn two_digits(s: Seq<char>, i: int) -> int {
    10 * digit_value(s[i]) + digit_value(s[i + 1])
}

pub open spec fn four_digits(s: Seq<char>, i: int) -> int {
    1000 * digit_value(s[i]) + 100 * digit_value(s[i + 1]) + 10 * digit_value(s[i + 2])
        + digit_value(s[i + 3])
}

pub open spec fn pow10(k: int) -> int
    decreases k,
{
    if k <= 0 {
        1
    } else {
        10 * pow10(k - 1)
    }
}

/// The number of consecutive decimal digits of `s` starting at index `i`.
pub open spec fn digit_run(s: Seq<char>, i: int) -> int
    decreases s.len() - i,
{
    if i < 0 || i >= s.len() || !is_digit_char(s[i]) {
        0
    } else {
        1 + digit_run(s, i + 1)
    }
}

/// The value of the `k` digits of `s` starting at index `i`.
pub open spec fn digits_value(s: Seq<char>, i: int, k: int) -> int
    decreases k,
{
    if k <= 0 {
        0
    } else {
        digits_value(s, i, k - 1) * 10 + digit_value(s[i + k - 1])
    }
}

/// Powers of ten up to one billion.
pub(crate) fn pow10_x(k: u64) -> (r: u64)
    requires
        k <= 9,
    ensures
        r == pow10(k as int),
{
    proof {
        reveal_with_fuel(pow10, 11);
    }
    match k {
        0 => 1,
        1 => 10,
        2 => 100,
        3 => 1000,
        4 => 10000,
        5 => 100000,
        6 => 1000000,
        7 => 10000000,
        8 => 100000000,
        _ => 1000000000,
    }
}

/// The concrete values of the powers of ten up to one billion.
pub(crate) proof fn lemma_pow10_values()
    ensures
        pow10(0) == 1,
        pow10(1) == 10,
        pow10(2) == 100,
        pow10(3) == 1000,
        pow10(4) == 10000,
        pow10(5) == 100000,
        pow10(6) == 1000000,
        pow10(7) == 10000000,
        pow10(8) == 100000000,
        pow10(9) == 1000000000,
{
    reveal_with_fuel(pow10, 11);
}

pub(crate) proof fn lemma_pow10_le(a: int, b: int)
    requires
        0 <= a <= b,
    ensures
        1 <= pow10(a) <= pow10(b),
    decreases b,
{
    if a < b {
        lemma_pow10_le(a, b - 1);
    } else if a == b && a > 0 {
        lemma_pow10_le(0, a - 1);
    }
}

pub(crate) proof fn lemma_pow10_add(a: int, b: int)
    requires
        a >= 0,
        b >= 0,
    ensures
        pow10(a + b) == pow10(a) * pow10(b),
    decreases a,
{
    if a == 0 {
        assert(pow10(b) == 1 * pow10(b)) by {
            vstd::arithmetic::mul::lemma_mul_basics_4(pow10(b));
        };
    } else {
        lemma_pow10_add(a - 1, b);
        assert(pow10(a + b) == 10 * (pow10(a - 1) * pow10(b)));
        vstd::arithmetic::mul::lemma_mul_is_associative(10, pow10(a - 1), pow10(b));
    }
}

pub(crate) fn read_digit(s: &str, i: usize) -> (r: Option<u8>)
    requires
        i < s@.len(),
        s@.len() <= usize::MAX,
    ensures
        r is Some <==> is_digit_char(s@[i as int]),
        r matches Some(v) ==> v == digit_value(s@[i as int]),
{
    let c = s.get_char(i);
    let u = c as u32;
    if 48 <= u && u <= 57 {
        Some((u - 48) as u8)
    } else {
        None
    }
}

pub(crate) fn read_two_digits(s: &str, i: usize) -> (r: Option<u8>)
    requires
        i + 2 <= s@.len(),
        s@.len() <= usize::MAX,
    ensures
        r is Some <==> all_digits(s@, i as int, i + 2),
        r matches Some(v) ==> v == two_digits(s@, i as int),
{
    let a = match read_digit(s, i) {
        Some(a) => a,
        None => {
            return None;
        },
    };
    let b = match read_digit(s, i + 1) {
        Some(b) => b,
        None => {
            return None;
        },
    };
    let r = 10 * a + b;
    proof {
        assert forall|k: int| i <= k < i + 2 implies is_digit_char(s@[k]) by {
            assert(k == i || k == i + 1);
        }
    }
    Some(r)
}

pub(crate) fn read_four_digits(s: &str, i: usize) -> (r: Option<u16>)
    requires
        i + 4 <= s@.len(),
        s@.len() <= usize::MAX,
    ensures
        r is Some <==> all_digits(s@, i as int, i + 4),
        r matches Some(v) ==> v == four_digits(s@, i as int),
{
    let hi = match read_two_digits(s, i) {
        Some(v) => v,
        None => {
            return None;
        },
    };
    let lo = match read_two_digits(s, i + 2) {
        Some(v) => v,
        None => {
            return None;
        },
    };
    let r = 100 * (hi as u16) + (lo as u16);
    proof {
        assert forall|k: int| i <= k < i + 4 implies is_digit_char(s@[k]) by {
            if k < i + 2 {
                assert(all_digits(s@, i as int, i + 2));
            } else {
                assert(all_digits(s@, i + 2, i + 4));
            }
        }
    }
    Some(r)
}

/// A run of digits ends exactly at the first non-digit (or at the end of
/// the string).
pub(crate) proof fn lemma_digit_run_ends(s: Seq<char>, a: int, b: int)
    requires
        0 <= a <= b <= s.len(),
        all_digits(s, a, b),
        b == s.len() || !is_digit_char(s[b]),
    ensures
        digit_run(s, a) == b - a,
    decreases b - a,
{
    if a < b {
        assert(is_digit_char(s[a]));
        lemma_digit_run_ends(s, a + 1, b);
    }
}

/// A run of digits never has negative length.
pub(crate) proof fn lemma_digit_run_nonneg(s: Seq<char>, a: int)
    ensures
        digit_run(s, a) >= 0,
    decreases s.len() - a,
{
    if 0 <= a && a < s.len() && is_digit_char(s[a]) {
        lemma_digit_run_nonneg(s, a + 1);
    }
}

/// A run of digits is at least as long as any all-digit prefix.
pub(crate) proof fn lemma_digit_run_min(s: Seq<char>, a: int, b: int)
    requires
        0 <= a <= b <= s.len(),
        all_digits(s, a, b),
    ensures
        digit_run(s, a) >= b - a,
    decreases b - a,
{
    if a < b {
        assert(is_digit_char(s[a]));
        lemma_digit_run_min(s, a + 1, b);
    } else {
        lemma_digit_run_nonneg(s, a);
    }
}

/// The value of a digit run is bounded by the corresponding power of ten.
pub(crate) proof fn lemma_digits_value_bound(s: Seq<char>, i: int, k: int)
    requires
        k >= 0,
        all_digits(s, i, i + k),
    ensures
        0 <= digits_value(s, i, k) < pow10(k),
    decreases k,
{
    if k > 0 {
        lemma_digits_value_bound(s, i, k - 1);
        assert(is_digit_char(s[i + k - 1]));
        vstd::arithmetic::mul::lemma_mul_inequality(0, digits_value(s, i, k - 1), 10);
        vstd::arithmetic::mul::lemma_mul_basics_1(10);
        vstd::arithmetic::mul::lemma_mul_inequality(
            digits_value(s, i, k - 1),
            pow10(k - 1) - 1,
            10,
        );
        vstd::arithmetic::mul::lemma_mul_is_distributive_sub_other_way(10, pow10(k - 1), 1);
        vstd::arithmetic::mul::lemma_mul_basics_4(10);
        assert(digits_value(s, i, k) <= (pow10(k - 1) - 1) * 10 + 9);
    }
}

/// `digits_value` over two positions is the two-digit reading.
pub(crate) proof fn lemma_digits_value_two(s: Seq<char>, i: int)
    ensures
        digits_value(s, i, 2) == two_digits(s, i),
{
    reveal_with_fuel(digits_value, 3);
}

/// `digits_value` over four positions is the four-digit reading.
pub(crate) proof fn lemma_digits_value_four(s: Seq<char>, i: int)
    ensures
        digits_value(s, i, 4) == four_digits(s, i),
{
    reveal_with_fuel(digits_value, 5);
}

/// Every character within a digit run is a digit.
pub(crate) proof fn lemma_digit_run_all(s: Seq<char>, i: int)
    requires
        0 <= i <= s.len(),
    ensures
        i + digit_run(s, i) <= s.len(),
        all_digits(s, i, i + digit_run(s, i)),
    decreases s.len() - i,
{
    if i < s.len() && is_digit_char(s[i]) {
        lemma_digit_run_all(s, i + 1);
        assert forall|k: int| i <= k < i + digit_run(s, i) implies is_digit_char(s[k]) by {
            if k > i {
                assert(all_digits(s, i + 1, i + 1 + digit_run(s, i + 1)));
            }
        }
    }
}

} // verus!
