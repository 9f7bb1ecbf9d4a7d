//! Fixed-width decimal renderings: the specification of a number's digit
//! string, trailing-zero trimming, and the verified helpers that append
//! those renderings to a string.

use vstd::prelude::*;
use vstd::arithmetic::div_mod::lemma_div_denominator;
use vstd::arithmetic::div_mod::lemma_mod_multiples_vanish;
use vstd::arithmetic::div_mod::lemma_multiply_divide_lt;
use vstd::arithmetic::div_mod::lemma_small_mod;

use crate::calendar::NANOS_PER_SECOND;
use crate::decimal::all_digits;
use crate::decimal::digit_char;
use crate::decimal::digits_value;
use crate::decimal::digit_value;
use crate::decimal::is_digit_char;
use crate::decimal::lemma_pow10_le;
use crate::decimal::lemma_pow10_values;
use crate::decimal::pow10;
use crate::decimal::pow10_x;

verus! {

/// The `k`-digit decimal rendering of `n` (modulo `pow10(k)`), most
/// significant digit first, with leading zeros.
pub open spec fn dec_seq(n: int, k: nat) -> Seq<char> {
    Seq::new(k, |i: int| digit_char((n / pow10(k - 1 - i)) % 10))
}

/// Drops every trailing `'0'`.
pub open spec fn trim_zeros(s: Seq<char>) -> Seq<char>
    decreases s.len(),
{
    if s.len() > 0 && s[s.len() - 1] == '0' {
        trim_zeros(s.drop_last())
    } else {
        s
    }
}

/// The number of times `n` can be evenly divided by 10.
pub open spec fn trailing_tens(n: int) -> int
    decreases n,
{
    if n <= 0 || n % 10 != 0 {
        0
    } else {
        1 + trailing_tens(n / 10)
    }
}

/// Facts about the character of a decimal digit.
pub(crate) proof fn lemma_digit_char_facts(x: int)
    requires
        0 <= x < 10,
    ensures
        is_digit_char(digit_char(x)),
        digit_value(digit_char(x)) == x,
        digit_char(x) == '0' <==> x == 0,
{
}

/// A one-character string holding the decimal digit for `v`.
pub(crate) fn digit_str(v: u8) -> (r: &'static str)
    requires
        v < 10,
    ensures
        r@ =~= seq![digit_char(v as int)],
{
    proof {
        reveal_strlit("0");
        reveal_strlit("1");
        reveal_strlit("2");
        reveal_strlit("3");
        reveal_strlit("4");
        reveal_strlit("5");
        reveal_strlit("6");
        reveal_strlit("7");
        reveal_strlit("8");
        reveal_strlit("9");
    }
    match v {
        0 => "0",
        1 => "1",
        2 => "2",
        3 => "3",
        4 => "4",
        5 => "5",
        6 => "6",
        7 => "7",
        8 => "8",
        _ => "9",
    }
}

/// Appends the two-digit zero-padded decimal form of `v`.
pub(crate) fn push_two_digits(out: &mut String, v: u8)
    requires
        v < 100,
    ensures
        final(out)@ == old(out)@ + dec_seq(v as int, 2),
{
    proof {
        lemma_pow10_values();
        lemma_small_mod((v / 10) as nat, 10);
    }
    out.append(digit_str(v / 10));
    out.append(digit_str(v % 10));
    proof {
        assert(final(out)@ =~= old(out)@ + dec_seq(v as int, 2));
    }
}

/// Appends the four-digit zero-padded decimal form of `v`.
pub(crate) fn push_four_digits(out: &mut String, v: u16)
    requires
        v < 10000,
    ensures
        final(out)@ == old(out)@ + dec_seq(v as int, 4),
{
    proof {
        lemma_pow10_values();
        lemma_small_mod((v / 1000) as nat, 10);
        vstd::arithmetic::div_mod::lemma_div_basics_1(v as int);
    }
    out.append(digit_str((v / 1000) as u8));
    out.append(digit_str(((v / 100) % 10) as u8));
    out.append(digit_str(((v / 10) % 10) as u8));
    out.append(digit_str((v % 10) as u8));
    proof {
        assert(final(out)@ =~= old(out)@ + dec_seq(v as int, 4));
    }
}

/// Dropping the last digit of a decimal rendering renders the number
/// without its last digit.
pub(crate) proof fn lemma_dec_seq_shrink(n: int, w: nat)
    requires
        n >= 0,
        w >= 1,
    ensures
        dec_seq(n, w).drop_last() == dec_seq(n / 10, (w - 1) as nat),
        dec_seq(n, w).last() == digit_char(n % 10),
{
    lemma_pow10_values();
    assert(dec_seq(n, w).last() == digit_char((n / pow10(0)) % 10));
    vstd::arithmetic::div_mod::lemma_div_basics_1(n);
    assert forall|i: int| 0 <= i < w - 1 implies dec_seq(n, w).drop_last()[i] == dec_seq(
        n / 10,
        (w - 1) as nat,
    )[i] by {
        lemma_pow10_le(0, w - 2 - i);
        lemma_div_denominator(n, 10, pow10(w - 2 - i));
        assert(pow10(w - 1 - i) == 10 * pow10(w - 2 - i));
    }
    assert(dec_seq(n, w).drop_last() =~= dec_seq(n / 10, (w - 1) as nat));
}

/// Trimming the trailing zeros of the `w`-digit rendering of `n` leaves
/// the `k`-digit rendering of `n` with its factors of ten divided out.
#[verifier::spinoff_prover]
pub(crate) proof fn lemma_trim_dec_seq(n: int, v: int, k: int, w: int)
    requires
        1 <= k <= w <= 9,
        v >= 1,
        v % 10 != 0,
        v * pow10(w - k) == n,
        n < pow10(w),
    ensures
        trim_zeros(dec_seq(n, w as nat)) == dec_seq(v, k as nat),
    decreases w - k,
{
    lemma_pow10_values();
    lemma_dec_seq_shrink(n, w as nat);
    if k == w {
        assert(v * 1 == v) by {
            vstd::arithmetic::mul::lemma_mul_basics_3(v);
        };
        assert(n == v);
        lemma_digit_char_facts(n % 10);
        assert(dec_seq(n, w as nat).last() != '0');
    } else {
        // `n` ends in a zero digit.
        assert(pow10(w - k) == 10 * pow10(w - k - 1));
        assert(n == v * (10 * pow10(w - k - 1)));
        assert(n == 10 * (v * pow10(w - k - 1))) by {
            vstd::arithmetic::mul::lemma_mul_is_associative(v, 10, pow10(w - k - 1));
            vstd::arithmetic::mul::lemma_mul_is_commutative(v, 10);
            vstd::arithmetic::mul::lemma_mul_is_associative(10, v, pow10(w - k - 1));
        };
        lemma_mod_multiples_vanish(v * pow10(w - k - 1), 0, 10);
        assert(n % 10 == 0);
        lemma_digit_char_facts(0);
        assert(dec_seq(n, w as nat).last() == '0');
        assert(n / 10 == v * pow10(w - k - 1)) by {
            vstd::arithmetic::div_mod::lemma_div_multiples_vanish(v * pow10(w - k - 1), 10);
        };
        assert(n / 10 < pow10(w - 1)) by {
            lemma_multiply_divide_lt(n, 10, pow10(w - 1));
        };
        lemma_trim_dec_seq(n / 10, v, k, w - 1);
        assert(trim_zeros(dec_seq(n, w as nat)) == trim_zeros(dec_seq(n / 10, (w - 1) as nat)));
    }
}

/// Appends `'.'` followed by the fractional-second digits, with trailing
/// zeros dropped.
#[verifier::spinoff_prover]
pub(crate) fn push_fraction(out: &mut String, nanos: u32)
    requires
        1 <= nanos < NANOS_PER_SECOND,
    ensures
        final(out)@ == old(out)@ + seq!['.'] + trim_zeros(dec_seq(nanos as int, 9)),
{
    proof {
        reveal_strlit(".");
        lemma_pow10_values();
    }
    out.append(".");
    let ghost base: Seq<char> = out@;
    // Divide out the trailing zero digits.
    let mut v: u32 = nanos;
    let mut k: u64 = 9;
    loop
        invariant
            1 <= k <= 9,
            v >= 1,
            (v as int) * pow10(9 - k) == nanos,
            v < pow10(k as int),
        ensures
            1 <= k <= 9,
            v >= 1,
            v % 10 != 0,
            (v as int) * pow10(9 - k) == nanos,
            v < pow10(k as int),
        decreases k,
    {
        if v % 10 != 0 {
            break ;
        }
        proof {
            lemma_pow10_values();
            assert(v >= 10);
            if k == 1 {
                // One digit left yet divisible by ten: impossible, since the
                // remaining digits always hold a nonzero value.
                assert(v < 10);
            }
            assert((v as int / 10) * pow10(9 - (k - 1)) == nanos) by {
                vstd::arithmetic::div_mod::lemma_div_multiples_vanish(v as int / 10, 10);
                vstd::arithmetic::div_mod::lemma_fundamental_div_mod(v as int, 10);
                vstd::arithmetic::mul::lemma_mul_is_associative(v as int / 10, 10, pow10(9 - k));
                assert(pow10(9 - (k - 1)) == 10 * pow10(9 - k));
                vstd::arithmetic::mul::lemma_mul_is_commutative(v as int / 10, 10);
                vstd::arithmetic::mul::lemma_mul_is_commutative(10, pow10(9 - k));
            };
            assert(v / 10 < pow10(k - 1)) by {
                lemma_multiply_divide_lt(v as int, 10, pow10(k - 1));
                assert(pow10(k as int) == 10 * pow10(k - 1));
            };
            assert(v / 10 >= 1) by {
                assert(v >= 10);
            };
        }
        v = v / 10;
        k = k - 1;
    }
    // Emit the remaining digits, most significant first.
    let mut j: u64 = 0;
    while j < k
        invariant
            j <= k,
            1 <= k <= 9,
            v < pow10(k as int),
            out@ == base + dec_seq(v as int, k as nat).take(j as int),
        decreases k - j,
    {
        proof {
            lemma_pow10_values();
            lemma_pow10_le(0, k - 1 - j);
            lemma_pow10_le(k - 1 - j, 8);
        }
        let digit: u8 = ((v / (pow10_x(k - 1 - j) as u32)) % 10) as u8;
        out.append(digit_str(digit));
        proof {
            assert(dec_seq(v as int, k as nat)[j as int] == digit_char(digit as int));
            assert(dec_seq(v as int, k as nat).take(j + 1) == dec_seq(v as int, k as nat).take(
                j as int,
            ).push(digit_char(digit as int))) by {
                assert(dec_seq(v as int, k as nat).take(j + 1) =~= dec_seq(v as int, k as nat).take(
                    j as int,
                ).push(digit_char(digit as int)));
            };
        }
        j = j + 1;
    }
    proof {
        assert(dec_seq(v as int, k as nat).take(k as int) =~= dec_seq(v as int, k as nat));
        lemma_trim_dec_seq(nanos as int, v as int, k as int, 9);
        assert(final(out)@ =~= old(out)@ + seq!['.'] + trim_zeros(dec_seq(nanos as int, 9)));
    }
}

/// A number below one billion, divided by its trailing factors of ten,
/// keeps a nonzero last digit and recombines to the original value.
pub(crate) proof fn lemma_trailing_tens_facts(n: int)
    requires
        n >= 1,
    ensures
        ({
            let tz = trailing_tens(n);
            let v = n / pow10(tz);
            &&& 0 <= tz
            &&& v >= 1
            &&& v % 10 != 0
            &&& v * pow10(tz) == n
            &&& pow10(tz) <= n
        }),
    decreases n,
{
    if n % 10 != 0 {
        vstd::arithmetic::div_mod::lemma_div_basics_1(n);
        vstd::arithmetic::mul::lemma_mul_basics_3(n);
    } else {
        vstd::arithmetic::div_mod::lemma_fundamental_div_mod(n, 10);
        vstd::arithmetic::div_mod::lemma_div_pos_is_pos(n, 10);
        assert(n == 10 * (n / 10));
        assert(n / 10 >= 1);
        assert(n / 10 < n);
        lemma_trailing_tens_facts(n / 10);
        let tz = trailing_tens(n);
        let tzp = trailing_tens(n / 10);
        assert(tz == 1 + tzp);
        let vp = (n / 10) / pow10(tzp);
        assert(pow10(tz) == 10 * pow10(tzp));
        lemma_pow10_le(0, tzp);
        lemma_div_denominator(n, 10, pow10(tzp));
        assert(n / pow10(tz) == vp) by {
            vstd::arithmetic::mul::lemma_mul_is_commutative(10, pow10(tzp));
        };
        assert(vp * pow10(tz) == n) by {
            vstd::arithmetic::mul::lemma_mul_is_associative(vp, pow10(tzp), 10);
            vstd::arithmetic::mul::lemma_mul_is_commutative(pow10(tz), vp);
            vstd::arithmetic::mul::lemma_mul_is_commutative(pow10(tzp), 10);
            vstd::arithmetic::mul::lemma_mul_is_commutative(vp, pow10(tzp));
            assert(vp * pow10(tzp) == n / 10);
            assert((vp * pow10(tzp)) * 10 == n);
            vstd::arithmetic::mul::lemma_mul_is_associative(vp, pow10(tzp), 10);
        };
        assert(pow10(tz) <= n) by {
            vstd::arithmetic::mul::lemma_mul_inequality(pow10(tzp), n / 10, 10);
            vstd::arithmetic::mul::lemma_mul_is_commutative(pow10(tzp), 10);
            vstd::arithmetic::mul::lemma_mul_is_commutative(n / 10, 10);
        };
    }
}

/// Characters that spell a fixed-width decimal rendering read back as the
/// rendered value.
pub(crate) proof fn lemma_read_dec_seq(s: Seq<char>, i: int, v: int, k: int)
    requires
        k >= 0,
        0 <= v < pow10(k),
        forall|j: int| 0 <= j < k ==> #[trigger] s[i + j] == dec_seq(v, k as nat)[j],
    ensures
        all_digits(s, i, i + k),
        digits_value(s, i, k) == v,
    decreases k,
{
    if k == 0 {
    } else {
        lemma_dec_seq_shrink(v, k as nat);
        let jlast = k - 1;
        assert(s[i + jlast] == dec_seq(v, k as nat)[jlast]);
        assert(dec_seq(v, k as nat)[k - 1] == digit_char(v % 10));
        lemma_digit_char_facts(v % 10);
        assert(v / 10 < pow10(k - 1)) by {
            lemma_multiply_divide_lt(v, 10, pow10(k - 1));
            assert(pow10(k) == 10 * pow10(k - 1));
        };
        vstd::arithmetic::div_mod::lemma_div_pos_is_pos(v, 10);
        assert forall|j: int| 0 <= j < k - 1 implies #[trigger] s[i + j] == dec_seq(
            v / 10,
            (k - 1) as nat,
        )[j] by {
            assert(s[i + j] == dec_seq(v, k as nat)[j]);
            assert(dec_seq(v, k as nat).drop_last()[j] == dec_seq(v / 10, (k - 1) as nat)[j]);
        }
        lemma_read_dec_seq(s, i, v / 10, k - 1);
        vstd::arithmetic::div_mod::lemma_fundamental_div_mod(v, 10);
        vstd::arithmetic::mul::lemma_mul_is_commutative(10, v / 10);
        assert(digits_value(s, i, k) == digits_value(s, i, k - 1) * 10 + digit_value(s[i + k
            - 1]));
        assert forall|j: int| i <= j < i + k implies is_digit_char(s[j]) by {
            if j < i + k - 1 {
                assert(all_digits(s, i, i + k - 1));
            }
        }
    }
}

/// The decimal digit string of a nonnegative number, without leading
/// zeros.
pub open spec fn decimal_seq(n: int) -> Seq<char>
    decreases n,
{
    if n < 10 {
        seq![digit_char(n)]
    } else {
        decimal_seq(n / 10) + seq![digit_char(n % 10)]
    }
}

/// Renders a number in decimal.
pub fn u64_to_decimal(n: u64) -> (r: String)
    ensures
        r@ == decimal_seq(n as int),
    decreases n,
{
    if n < 10 {
        String::from_str(digit_str(n as u8))
    } else {
        u64_to_decimal(n / 10).concat(digit_str((n % 10) as u8))
    }
}

/// Relies on `char`'s `Display` implementation: formatting a character
/// writes exactly that character.
#[verifier::external_body]
pub fn char_to_string(c: char) -> (r: String)
    ensures
        r@ == seq![c],
{
    format!("{}", c)
}

} // verus!
