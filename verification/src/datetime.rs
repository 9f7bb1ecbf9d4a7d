//! A UTC timestamp: a point in time normalized to UTC, decoded on the wire
//! either from an RFC 3339 date-time string or from a count of whole seconds
//! since the Unix epoch, and always encoded back as an RFC 3339 string.
//!
//! The RFC 3339 grammar and its meaning are stated as specification
//! functions, and the executable parser and formatter are verified against
//! them, including the law that formatting then parsing restores the instant.

use vstd::prelude::*;

use crate::calendar::EPOCH_SHIFT_SECONDS;
use crate::calendar::MAX_EPOCH_SECONDS;
use crate::calendar::MIN_EPOCH_SECONDS;
use crate::calendar::NANOS_PER_SECOND;
use crate::calendar::TOTAL_DAYS;
use crate::calendar::day_of_epoch;
use crate::calendar::days_before_year;
use crate::calendar::days_in_month;
use crate::calendar::epoch_of_datetime;
use crate::calendar::hour_of_epoch;
use crate::calendar::lemma_datetime_of_epoch_inverse;
use crate::calendar::lemma_day_of_date_bounds;
use crate::calendar::lemma_days_before_year_step;
use crate::calendar::lemma_month_of_year_day;
use crate::calendar::lemma_year_of_day_unique;
use crate::calendar::minute_of_epoch;
use crate::calendar::month_of_epoch;
use crate::calendar::second_of_epoch;
use crate::calendar::valid_date;
use crate::calendar::valid_time;
use crate::calendar::year_of_epoch;
use crate::decimal::all_digits;
use crate::decimal::digit_run;
use crate::decimal::digits_value;
use crate::decimal::four_digits;
use crate::decimal::is_digit_char;
use crate::decimal::lemma_digit_run_all;
use crate::decimal::lemma_digit_run_ends;
use crate::decimal::lemma_digit_run_min;
use crate::decimal::lemma_digits_value_bound;
use crate::decimal::lemma_digits_value_four;
use crate::decimal::lemma_digits_value_two;
use crate::decimal::lemma_pow10_add;
use crate::decimal::lemma_pow10_le;
use crate::decimal::lemma_pow10_values;
use crate::decimal::pow10;
use crate::decimal::pow10_x;
use crate::decimal::read_digit;
use crate::decimal::read_four_digits;
use crate::decimal::read_two_digits;
use crate::decimal::two_digits;
use crate::error::MalformedInput;
use crate::render::dec_seq;
use crate::render::lemma_read_dec_seq;
use crate::render::lemma_trailing_tens_facts;
use crate::render::lemma_trim_dec_seq;
use crate::render::push_four_digits;
use crate::render::push_fraction;
use crate::render::push_two_digits;
use crate::render::trailing_tens;
use crate::render::trim_zeros;

verus! {

/// The largest value of `epoch seconds + EPOCH_SHIFT_SECONDS`, reached at
/// 9999-12-31T23:59:59Z.
pub const MAX_SHIFTED_SECONDS: i64 = 315569519999;

// ---------------------------------------------------------------------------
// The RFC 3339 grammar, as specification functions.
// ---------------------------------------------------------------------------

/// The fixed `YYYY-MM-DDTHH:MM:SS` head of an RFC 3339 date-time (the date
/// and time separator may be `T` or `t`).
pub open spec fn head_shape_ok(s: Seq<char>) -> bool {
    &&& s.len() >= 20
    &&& all_digits(s, 0, 4)
    &&& s[4] == '-'
    &&& all_digits(s, 5, 7)
    &&& s[7] == '-'
    &&& all_digits(s, 8, 10)
    &&& (s[10] == 'T' || s[10] == 't')
    &&& all_digits(s, 11, 13)
    &&& s[13] == ':'
    &&& all_digits(s, 14, 16)
    &&& s[16] == ':'
    &&& all_digits(s, 17, 19)
}

/// Where the UTC-offset part begins: directly after the seconds, or after
/// the fractional-seconds digits when a `'.'` follows the seconds.
pub open spec fn offset_pos(s: Seq<char>) -> int {
    if s.len() > 19 && s[19] == '.' {
        20 + digit_run(s, 20)
    } else {
        19
    }
}

/// A fractional-seconds part, when present, holds one to nine digits.
pub open spec fn frac_ok(s: Seq<char>) -> bool {
    s.len() > 19 && s[19] == '.' ==> 1 <= digit_run(s, 20) <= 9
}

/// The nanoseconds the fractional-seconds digits spell, if any.
pub open spec fn frac_nanos(s: Seq<char>) -> int {
    if s.len() > 19 && s[19] == '.' {
        digits_value(s, 20, digit_run(s, 20)) * pow10(9 - digit_run(s, 20))
    } else {
        0
    }
}

/// The nanoseconds the string denotes. A leap second stands in for the
/// last representable nanosecond of the second before it, subsuming any
/// fractional digits.
pub open spec fn spec_nanos(s: Seq<char>) -> int {
    if two_digits(s, 17) == 60 {
        999999999
    } else {
        frac_nanos(s)
    }
}

/// A UTC offset standing at index `p`: `Z` (or `z`), or a signed `HH:MM`
/// with hours up to 23 and minutes up to 59; it ends the string.
pub open spec fn offset_shape_at(s: Seq<char>, p: int) -> bool {
    ||| (s.len() == p + 1 && (s[p] == 'Z' || s[p] == 'z'))
    ||| (s.len() == p + 6 && (s[p] == '+' || s[p] == '-') && all_digits(s, p + 1, p + 3) && s[p
        + 3] == ':' && all_digits(s, p + 4, p + 6) && two_digits(s, p + 1) <= 23 && two_digits(
        s,
        p + 4,
    ) <= 59)
}

/// The seconds the UTC offset at index `p` stands for (negative for a
/// `-HH:MM` offset).
pub open spec fn offset_seconds_at(s: Seq<char>, p: int) -> int {
    if s.len() == p + 1 {
        0
    } else {
        let v = two_digits(s, p + 1) * 3600 + two_digits(s, p + 4) * 60;
        if s[p] == '-' {
            -v
        } else {
            v
        }
    }
}

/// The string ends in a well-formed UTC offset.
pub open spec fn offset_shape_ok(s: Seq<char>) -> bool {
    offset_shape_at(s, offset_pos(s))
}

/// The seconds the string's UTC offset stands for.
pub open spec fn offset_seconds(s: Seq<char>) -> int {
    offset_seconds_at(s, offset_pos(s))
}

/// The date and time-of-day components name a real UTC date and time.
/// A seconds field of 60 is a leap second; where it may stand is settled
/// separately, over the instant the string denotes.
pub open spec fn components_ok(s: Seq<char>) -> bool {
    &&& valid_date(four_digits(s, 0), two_digits(s, 5), two_digits(s, 8))
    &&& two_digits(s, 11) <= 23
    &&& two_digits(s, 14) <= 59
    &&& two_digits(s, 17) <= 60
}

/// The seconds component as it enters the instant: a leap second (60)
/// stands in for the second before it.
pub open spec fn effective_second(s: Seq<char>) -> int {
    if two_digits(s, 17) == 60 {
        59
    } else {
        two_digits(s, 17)
    }
}

/// The instant the string denotes, as seconds since the Unix epoch.
pub open spec fn spec_instant(s: Seq<char>) -> int {
    epoch_of_datetime(
        four_digits(s, 0),
        two_digits(s, 5),
        two_digits(s, 8),
        two_digits(s, 11),
        two_digits(s, 14),
        effective_second(s),
    ) - offset_seconds(s)
}

/// Whether an epoch instant is the last whole second of a UTC month: the
/// only place a leap second can stand.
pub open spec fn is_last_second_of_utc_month(t: int) -> bool {
    &&& hour_of_epoch(t) == 23
    &&& minute_of_epoch(t) == 59
    &&& second_of_epoch(t) == 59
    &&& day_of_epoch(t) == days_in_month(year_of_epoch(t), month_of_epoch(t))
}

/// A string is accepted by the timestamp codec exactly when it follows the
/// RFC 3339 grammar, its components are in range, the instant it denotes
/// lies within the representable years 0 through 9999, and a leap second
/// stands only at the end of a UTC month.
pub open spec fn is_valid_rfc3339(s: Seq<char>) -> bool {
    &&& head_shape_ok(s)
    &&& frac_ok(s)
    &&& offset_shape_ok(s)
    &&& components_ok(s)
    &&& MIN_EPOCH_SECONDS <= spec_instant(s) <= MAX_EPOCH_SECONDS
    &&& (two_digits(s, 17) == 60 ==> is_last_second_of_utc_month(spec_instant(s)))
}

/// The fixed 19-character `YYYY-MM-DDTHH:MM:SS` rendering of date-time
/// components.
pub open spec fn rfc3339_head(y: int, m: int, d: int, h: int, mi: int, s: int) -> Seq<char> {
    dec_seq(y, 4) + seq!['-'] + dec_seq(m, 2) + seq!['-'] + dec_seq(d, 2) + seq!['T'] + dec_seq(
        h,
        2,
    ) + seq![':'] + dec_seq(mi, 2) + seq![':'] + dec_seq(s, 2)
}

/// The rendering of a nanosecond count: empty when zero, else a `'.'` and
/// the nine fractional digits with trailing zeros dropped.
pub open spec fn rfc3339_frac(nanos: int) -> Seq<char> {
    if nanos == 0 {
        Seq::<char>::empty()
    } else {
        seq!['.'] + trim_zeros(dec_seq(nanos, 9))
    }
}

/// The canonical RFC 3339 rendering of an instant: UTC components, a
/// fractional part only for a nonzero nanosecond count and with trailing
/// zeros dropped, and a `Z` offset.
pub open spec fn rfc3339_format(t: int, nanos: int) -> Seq<char> {
    rfc3339_head(
        year_of_epoch(t),
        month_of_epoch(t),
        day_of_epoch(t),
        hour_of_epoch(t),
        minute_of_epoch(t),
        second_of_epoch(t),
    ) + rfc3339_frac(nanos) + seq!['Z']
}

// ---------------------------------------------------------------------------
// The timestamp value itself.
// ---------------------------------------------------------------------------

/// A point in time normalized to UTC, kept as whole seconds since the Unix
/// epoch plus a nanosecond remainder, and restricted to the years an
/// RFC 3339 date can name (0 through 9999). Equality and ordering are by
/// the underlying instant.
#[derive(Debug, Clone, Copy, PartialEq, Eq, PartialOrd, Ord, Hash, Structural)]
pub struct Timestamp {
    secs: i64,
    nanos: u32,
}

impl Timestamp {
    #[verifier::type_invariant]
    spec fn type_inv(self) -> bool {
        &&& MIN_EPOCH_SECONDS <= self.secs <= MAX_EPOCH_SECONDS
        &&& self.nanos < NANOS_PER_SECOND
    }

    /// The instant's whole seconds since the Unix epoch.
    pub closed spec fn sec(self) -> int {
        self.secs as int
    }

    /// The instant's nanoseconds past the whole second.
    pub closed spec fn nsec(self) -> int {
        self.nanos as int
    }

    /// Two timestamps are equal exactly when they denote the same instant.
    pub proof fn lemma_eq_is_same_instant(a: Timestamp, b: Timestamp)
        ensures
            a == b <==> (a.sec() == b.sec() && a.nsec() == b.nsec()),
    {
    }

    /// The instant's whole seconds since the Unix epoch.
    pub fn epoch_seconds(&self) -> (r: i64)
        ensures
            r == self.sec(),
            MIN_EPOCH_SECONDS <= self.sec() <= MAX_EPOCH_SECONDS,
    {
        proof {
            use_type_invariant(self);
        }
        self.secs
    }

    /// The instant's nanoseconds past the whole second.
    pub fn subsec_nanoseconds(&self) -> (r: u32)
        ensures
            r == self.nsec(),
            0 <= self.nsec() < NANOS_PER_SECOND,
    {
        proof {
            use_type_invariant(self);
        }
        self.nanos
    }

    /// Builds a timestamp from a clock reading: the nanoseconds are kept,
    /// and the seconds are clamped into the representable years.
    pub fn from_clock_reading(secs: i64, nanos: u32) -> (r: Timestamp)
        requires
            nanos < NANOS_PER_SECOND,
        ensures
            r.nsec() == nanos,
            r.sec() == (if secs < MIN_EPOCH_SECONDS {
                MIN_EPOCH_SECONDS as int
            } else if secs > MAX_EPOCH_SECONDS {
                MAX_EPOCH_SECONDS as int
            } else {
                secs as int
            }),
    {
        let clamped: i64 = if secs < MIN_EPOCH_SECONDS {
            MIN_EPOCH_SECONDS
        } else if secs > MAX_EPOCH_SECONDS {
            MAX_EPOCH_SECONDS
        } else {
            secs
        };
        Timestamp { secs: clamped, nanos }
    }

    /// The current instant. Relies on the system clock only for the value;
    /// `from_clock_reading` fixes what becomes of the reading, and the
    /// range here is all that holds whatever the clock returned.
    pub fn now() -> (r: Timestamp)
        ensures
            MIN_EPOCH_SECONDS <= r.sec() <= MAX_EPOCH_SECONDS,
            0 <= r.nsec() < NANOS_PER_SECOND,
    {
        let now = time::OffsetDateTime::now_utc();
        Timestamp::from_clock_reading(now.unix_timestamp(), now.nanosecond())
    }
}

impl Default for Timestamp {
    /// The default timestamp is the current instant.
    fn default() -> (r: Self)
        ensures
            MIN_EPOCH_SECONDS <= r.sec() <= MAX_EPOCH_SECONDS,
            0 <= r.nsec() < NANOS_PER_SECOND,
    {
        Timestamp::now()
    }
}

#[verifier::external_type_specification]
#[verifier::external_body]
pub struct ExOffsetDateTime(time::OffsetDateTime);

/// Relies on `time::OffsetDateTime::now_utc` for the current instant;
/// nothing can be promised of a clock reading.
pub assume_specification[ time::OffsetDateTime::now_utc ]() -> time::OffsetDateTime;

/// Relies on `time::OffsetDateTime::unix_timestamp` for the whole seconds
/// of an instant; the value of a clock reading cannot be pinned down.
pub assume_specification[ time::OffsetDateTime::unix_timestamp ](
    d: time::OffsetDateTime,
) -> i64;

/// Relies on `time::OffsetDateTime::nanosecond`, whose result is
/// documented to always lie in `0 .. 1_000_000_000`.
pub assume_specification[ time::OffsetDateTime::nanosecond ](d: time::OffsetDateTime) -> (r: u32)
    ensures
        r < NANOS_PER_SECOND,
;

// ---------------------------------------------------------------------------
// Decoding from epoch seconds.
// ---------------------------------------------------------------------------

/// Decodes a timestamp from a signed count of whole seconds since the Unix
/// epoch. Values outside the years 0 through 9999 are rejected.
pub fn timestamp_from_epoch_seconds(secs: i64) -> (r: Result<Timestamp, MalformedInput>)
    ensures
        r is Ok <==> MIN_EPOCH_SECONDS <= secs <= MAX_EPOCH_SECONDS,
        r matches Ok(t) ==> t.sec() == secs && t.nsec() == 0,
        !(MIN_EPOCH_SECONDS <= secs <= MAX_EPOCH_SECONDS) ==> r == Err::<
            Timestamp,
            MalformedInput,
        >(MalformedInput::InvalidInstant { seconds: secs }),
{
    if secs < MIN_EPOCH_SECONDS || secs > MAX_EPOCH_SECONDS {
        Err(MalformedInput::InvalidInstant { seconds: secs })
    } else {
        Ok(Timestamp { secs, nanos: 0 })
    }
}

/// Decodes a timestamp from an unsigned count of whole seconds since the
/// Unix epoch: the value is range-checked and reinterpreted as signed. A
/// value too large even for the signed form is reported clamped.
pub fn timestamp_from_epoch_seconds_unsigned(secs: u64) -> (r: Result<Timestamp, MalformedInput>)
    ensures
        r is Ok <==> secs <= MAX_EPOCH_SECONDS as u64,
        r matches Ok(t) ==> t.sec() == secs && t.nsec() == 0,
        secs > MAX_EPOCH_SECONDS as u64 ==> r == Err::<Timestamp, MalformedInput>(
            MalformedInput::InvalidInstant {
                seconds: if secs <= i64::MAX as u64 {
                    secs as i64
                } else {
                    i64::MAX
                },
            },
        ),
{
    if secs > MAX_EPOCH_SECONDS as u64 {
        let reported: i64 = if secs <= i64::MAX as u64 {
            secs as i64
        } else {
            i64::MAX
        };
        Err(MalformedInput::InvalidInstant { seconds: reported })
    } else {
        Ok(Timestamp { secs: secs as i64, nanos: 0 })
    }
}

// ---------------------------------------------------------------------------
// Decoding from an RFC 3339 string.
// ---------------------------------------------------------------------------

/// Reads the six numeric components of the fixed `YYYY-MM-DDTHH:MM:SS`
/// head.
fn parse_head(s: &str, n: usize) -> (r: Option<(u16, u8, u8, u8, u8, u8)>)
    requires
        n == s@.len(),
        n >= 20,
    ensures
        r is Some <==> head_shape_ok(s@),
        r matches Some(v) ==> v.0 == four_digits(s@, 0) && v.1 == two_digits(s@, 5) && v.2
            == two_digits(s@, 8) && v.3 == two_digits(s@, 11) && v.4 == two_digits(s@, 14) && v.5
            == two_digits(s@, 17),
{
    let y = match read_four_digits(s, 0) {
        Some(v) => v,
        None => {
            return None;
        },
    };
    if s.get_char(4) != '-' {
        return None;
    }
    let mo = match read_two_digits(s, 5) {
        Some(v) => v,
        None => {
            return None;
        },
    };
    if s.get_char(7) != '-' {
        return None;
    }
    let d = match read_two_digits(s, 8) {
        Some(v) => v,
        None => {
            return None;
        },
    };
    let sep = s.get_char(10);
    if sep != 'T' && sep != 't' {
        return None;
    }
    let h = match read_two_digits(s, 11) {
        Some(v) => v,
        None => {
            return None;
        },
    };
    if s.get_char(13) != ':' {
        return None;
    }
    let mi = match read_two_digits(s, 14) {
        Some(v) => v,
        None => {
            return None;
        },
    };
    if s.get_char(16) != ':' {
        return None;
    }
    let sec = match read_two_digits(s, 17) {
        Some(v) => v,
        None => {
            return None;
        },
    };
    Some((y, mo, d, h, mi, sec))
}

/// Reads the fractional-seconds digits after a `'.'` at index 19, giving
/// the index where the UTC offset must start and the nanosecond count.
fn parse_fraction(s: &str, n: usize) -> (r: Option<(usize, u32)>)
    requires
        n == s@.len(),
        n >= 20,
        s@[19] == '.',
    ensures
        r is Some <==> 1 <= digit_run(s@, 20) <= 9,
        r matches Some(v) ==> v.0 == 20 + digit_run(s@, 20) && v.0 <= n && v.1 == frac_nanos(s@)
            && v.1 < NANOS_PER_SECOND,
{
    let mut i: usize = 20;
    let mut val: u32 = 0;
    loop
        invariant
            20 <= i <= n,
            n == s@.len(),
            s@.len() > 19,
            s@[19] == '.',
            i - 20 <= 9,
            all_digits(s@, 20, i as int),
            val == digits_value(s@, 20, i - 20),
            val < pow10(i - 20),
        ensures
            20 <= i <= n,
            i - 20 <= 9,
            all_digits(s@, 20, i as int),
            val == digits_value(s@, 20, i - 20),
            val < pow10(i - 20),
            i == n || !is_digit_char(s@[i as int]),
        decreases n - i,
    {
        if i >= n {
            break ;
        }
        let dg = match read_digit(s, i) {
            Some(v) => v,
            None => {
                break ;
            },
        };
        if i - 20 == 9 {
            // A tenth fractional digit: more precision than nanoseconds.
            proof {
                assert(all_digits(s@, 20, i + 1));
                lemma_digit_run_min(s@, 20, i + 1);
            }
            return None;
        }
        proof {
            lemma_pow10_values();
            lemma_pow10_le(i - 20, 8);
            assert(val * 10 + dg < 10 * pow10(i - 20));
            assert(pow10(i - 20 + 1) == 10 * pow10(i - 20));
        }
        val = val * 10 + dg as u32;
        i = i + 1;
        proof {
            assert(all_digits(s@, 20, i as int));
        }
    }
    proof {
        lemma_digit_run_ends(s@, 20, i as int);
    }
    if i == 20 {
        // A `'.'` with no digits after it.
        return None;
    }
    let k = i - 20;
    proof {
        lemma_pow10_values();
        lemma_pow10_le(9 - k, 8);
        lemma_pow10_add(k as int, 9 - k);
        vstd::arithmetic::mul::lemma_mul_inequality(val as int, pow10(k as int) - 1, pow10(9 - k));
        vstd::arithmetic::mul::lemma_mul_is_distributive_sub_other_way(
            pow10(9 - k),
            pow10(k as int),
            1,
        );
        assert((pow10(k as int) - 1) * pow10(9 - k) == pow10(9) - pow10(9 - k));
    }
    let nanos: u32 = val * (pow10_x((9 - k) as u64) as u32);
    Some((i, nanos))
}

/// Reads the UTC offset that must stand at index `p` and end the string,
/// giving its sign and magnitude in seconds.
fn parse_offset(s: &str, p: usize, n: usize) -> (r: Option<(bool, u32)>)
    requires
        n == s@.len(),
        p < n,
    ensures
        r is Some <==> offset_shape_at(s@, p as int),
        r matches Some(v) ==> offset_seconds_at(s@, p as int) == (if v.0 {
            -(v.1 as int)
        } else {
            v.1 as int
        }) && v.1 <= 86340,
{
    let c = s.get_char(p);
    if c == 'Z' || c == 'z' {
        if p + 1 != n {
            return None;
        }
        Some((false, 0))
    } else if c == '+' || c == '-' {
        if n - p != 6 {
            return None;
        }
        let oh = match read_two_digits(s, p + 1) {
            Some(v) => v,
            None => {
                return None;
            },
        };
        if s.get_char(p + 3) != ':' {
            return None;
        }
        let om = match read_two_digits(s, p + 4) {
            Some(v) => v,
            None => {
                return None;
            },
        };
        if oh > 23 || om > 59 {
            return None;
        }
        Some((c == '-', (oh as u32) * 3600 + (om as u32) * 60))
    } else {
        None
    }
}

/// Turns validated date-time components and a UTC offset into epoch
/// seconds, rejecting instants outside the representable years.
fn combine_components(
    y: u16,
    mo: u8,
    d: u8,
    h: u8,
    mi: u8,
    sec: u8,
    off_is_neg: bool,
    off_secs: u32,
) -> (r: Option<i64>)
    requires
        valid_date(y as int, mo as int, d as int),
        h <= 23,
        mi <= 59,
        sec <= 59,
        off_secs <= 86340,
    ensures
        ({
            let inst = epoch_of_datetime(
                y as int,
                mo as int,
                d as int,
                h as int,
                mi as int,
                sec as int,
            ) - (if off_is_neg {
                -(off_secs as int)
            } else {
                off_secs as int
            });
            &&& (r is Some <==> MIN_EPOCH_SECONDS <= inst <= MAX_EPOCH_SECONDS)
            &&& (r matches Some(v) ==> v == inst)
        }),
{
    proof {
        lemma_day_of_date_bounds(y as int, mo as int, d as int);
    }
    // The day number since 0000-01-01.
    let days: u64 = crate::calendar::days_before_year_x(y as u64)
        + crate::calendar::days_before_month_x(y as u64, mo as u64) + (d as u64) - 1;
    proof {
        assert(days == crate::calendar::day_of_date(y as int, mo as int, d as int));
        assert(days * 86400 <= 3652424 * 86400) by {
            vstd::arithmetic::mul::lemma_mul_inequality(days as int, 3652424, 86400);
        };
    }
    // Seconds since 0000-01-01T00:00:00Z, before the offset is applied.
    let local: u64 = days * 86400 + (h as u64) * 3600 + (mi as u64) * 60 + (sec as u64);
    // Normalize to UTC and check the representable range.
    let shifted: u64 = if off_is_neg {
        local + (off_secs as u64)
    } else {
        if local < off_secs as u64 {
            return None;
        }
        local - (off_secs as u64)
    };
    if shifted > MAX_SHIFTED_SECONDS as u64 {
        return None;
    }
    Some((shifted as i64) - EPOCH_SHIFT_SECONDS)
}

/// Decodes a timestamp from an RFC 3339 date-time string, normalizing the
/// instant to UTC. The string is accepted exactly when `is_valid_rfc3339`
/// holds of it; any other string is rejected as malformed.
pub fn timestamp_from_string(s: &str) -> (r: Result<Timestamp, MalformedInput>)
    ensures
        r is Ok <==> is_valid_rfc3339(s@),
        r matches Ok(t) ==> t.sec() == spec_instant(s@) && t.nsec() == spec_nanos(s@),
        r is Err ==> r == Err::<Timestamp, MalformedInput>(MalformedInput::InvalidDateTime),
{
    let n = s.unicode_len();
    if n < 20 {
        return Err(MalformedInput::InvalidDateTime);
    }
    let (y, mo, d, h, mi, sec) = match parse_head(s, n) {
        Some(v) => v,
        None => {
            return Err(MalformedInput::InvalidDateTime);
        },
    };
    // Fractional seconds, if any.
    let (p, nanos): (usize, u32) = if s.get_char(19) == '.' {
        match parse_fraction(s, n) {
            Some(v) => v,
            None => {
                return Err(MalformedInput::InvalidDateTime);
            },
        }
    } else {
        (19, 0)
    };
    // The UTC offset must follow and end the string.
    if p >= n {
        return Err(MalformedInput::InvalidDateTime);
    }
    let (off_is_neg, off_secs) = match parse_offset(s, p, n) {
        Some(v) => v,
        None => {
            return Err(MalformedInput::InvalidDateTime);
        },
    };
    proof {
        assert(p == offset_pos(s@));
    }
    // The components must name a real date and time.
    if mo < 1 || mo > 12 {
        return Err(MalformedInput::InvalidDateTime);
    }
    if d < 1 || (d as u64) > crate::calendar::days_in_month_x(y as u64, mo as u64) {
        return Err(MalformedInput::InvalidDateTime);
    }
    if h > 23 || mi > 59 || sec > 60 {
        return Err(MalformedInput::InvalidDateTime);
    }
    // A leap second stands in for the second before it.
    let stand_in: u8 = if sec == 60 {
        59
    } else {
        sec
    };
    let secs: i64 = match combine_components(y, mo, d, h, mi, stand_in, off_is_neg, off_secs) {
        Some(v) => v,
        None => {
            return Err(MalformedInput::InvalidDateTime);
        },
    };
    if sec == 60 {
        // A leap second is accepted only at the end of a UTC month, and
        // subsumes any fractional digits.
        let (ly, lm, ld, lh, lmi, ls) = split_epoch(secs);
        if !(lh == 23 && lmi == 59 && ls == 59 && (ld as u64) == crate::calendar::days_in_month_x(
            ly as u64,
            lm as u64,
        )) {
            return Err(MalformedInput::InvalidDateTime);
        }
        proof {
            assert(is_valid_rfc3339(s@));
            assert(secs == spec_instant(s@));
        }
        return Ok(Timestamp { secs, nanos: 999999999 });
    }
    proof {
        assert(is_valid_rfc3339(s@));
        assert(secs == spec_instant(s@));
        assert(nanos == spec_nanos(s@));
    }
    Ok(Timestamp { secs, nanos })
}

// ---------------------------------------------------------------------------
// Encoding to an RFC 3339 string.
// ---------------------------------------------------------------------------

/// Splits an epoch instant into its UTC date-time components.
fn split_epoch(secs: i64) -> (r: (u16, u8, u8, u8, u8, u8))
    requires
        MIN_EPOCH_SECONDS <= secs <= MAX_EPOCH_SECONDS,
    ensures
        r.0 == year_of_epoch(secs as int),
        r.1 == month_of_epoch(secs as int),
        r.2 == day_of_epoch(secs as int),
        r.3 == hour_of_epoch(secs as int),
        r.4 == minute_of_epoch(secs as int),
        r.5 == second_of_epoch(secs as int),
        valid_date(r.0 as int, r.1 as int, r.2 as int),
        valid_time(r.3 as int, r.4 as int, r.5 as int),
{
    proof {
        lemma_datetime_of_epoch_inverse(secs as int);
    }
    let shifted: u64 = (secs + EPOCH_SHIFT_SECONDS) as u64;
    let days: u64 = shifted / 86400;
    let sod: u64 = shifted % 86400;
    // Search for the year that contains this day number.
    let mut y: u64 = 0;
    loop
        invariant
            y <= 9999,
            days < TOTAL_DAYS,
            days_before_year(y as int) <= days,
        ensures
            y <= 9999,
            days_before_year(y as int) <= days < days_before_year(y as int + 1),
        decreases 9999 - y,
    {
        let next = crate::calendar::days_before_year_x(y + 1);
        if days < next {
            break ;
        }
        proof {
            if y == 9999 {
                assert(days_before_year(10000) == TOTAL_DAYS);
                assert(false);
            }
        }
        y = y + 1;
    }
    proof {
        lemma_year_of_day_unique(days as int, y as int);
        lemma_days_before_year_step(y as int);
    }
    let doy: u64 = days - crate::calendar::days_before_year_x(y);
    proof {
        lemma_month_of_year_day(y as int, doy as int);
    }
    let mo: u64 = if doy < crate::calendar::days_before_month_x(y, 2) {
        1
    } else if doy < crate::calendar::days_before_month_x(y, 3) {
        2
    } else if doy < crate::calendar::days_before_month_x(y, 4) {
        3
    } else if doy < crate::calendar::days_before_month_x(y, 5) {
        4
    } else if doy < crate::calendar::days_before_month_x(y, 6) {
        5
    } else if doy < crate::calendar::days_before_month_x(y, 7) {
        6
    } else if doy < crate::calendar::days_before_month_x(y, 8) {
        7
    } else if doy < crate::calendar::days_before_month_x(y, 9) {
        8
    } else if doy < crate::calendar::days_before_month_x(y, 10) {
        9
    } else if doy < crate::calendar::days_before_month_x(y, 11) {
        10
    } else if doy < crate::calendar::days_before_month_x(y, 12) {
        11
    } else {
        12
    };
    let dd: u64 = doy - crate::calendar::days_before_month_x(y, mo) + 1;
    let h: u64 = sod / 3600;
    let rem: u64 = sod % 3600;
    let mi: u64 = rem / 60;
    let ss: u64 = rem % 60;
    (y as u16, mo as u8, dd as u8, h as u8, mi as u8, ss as u8)
}

/// Appends the fixed 19-character date-time head.
fn push_head(out: &mut String, y: u16, mo: u8, d: u8, h: u8, mi: u8, sec: u8)
    requires
        y < 10000,
        mo < 100,
        d < 100,
        h < 100,
        mi < 100,
        sec < 100,
    ensures
        final(out)@ == old(out)@ + rfc3339_head(
            y as int,
            mo as int,
            d as int,
            h as int,
            mi as int,
            sec as int,
        ),
        old(out)@.len() == 0 ==> final(out)@ == rfc3339_head(
            y as int,
            mo as int,
            d as int,
            h as int,
            mi as int,
            sec as int,
        ),
{
    proof {
        reveal_strlit("-");
        reveal_strlit("T");
        reveal_strlit(":");
    }
    push_four_digits(out, y);
    out.append("-");
    push_two_digits(out, mo);
    out.append("-");
    push_two_digits(out, d);
    out.append("T");
    push_two_digits(out, h);
    out.append(":");
    push_two_digits(out, mi);
    out.append(":");
    push_two_digits(out, sec);
    proof {
        assert(final(out)@ =~= old(out)@ + rfc3339_head(
            y as int,
            mo as int,
            d as int,
            h as int,
            mi as int,
            sec as int,
        ));
        if old(out)@.len() == 0 {
            assert(final(out)@ =~= rfc3339_head(
                y as int,
                mo as int,
                d as int,
                h as int,
                mi as int,
                sec as int,
            ));
        }
    }
}

/// Appends the fractional-seconds part, if any, and the closing `'Z'`.
fn push_tail(out: &mut String, nanos: u32)
    requires
        nanos < NANOS_PER_SECOND,
    ensures
        final(out)@ == old(out)@ + rfc3339_frac(nanos as int) + seq!['Z'],
{
    proof {
        reveal_strlit("Z");
    }
    if nanos > 0 {
        push_fraction(out, nanos);
    }
    out.append("Z");
    proof {
        assert(final(out)@ =~= old(out)@ + rfc3339_frac(nanos as int) + seq!['Z']);
    }
}

/// Renders an in-range epoch instant with a nanosecond remainder.
fn format_epoch(secs: i64, nanos: u32) -> (r: String)
    requires
        MIN_EPOCH_SECONDS <= secs <= MAX_EPOCH_SECONDS,
        nanos < NANOS_PER_SECOND,
    ensures
        r@ == rfc3339_format(secs as int, nanos as int),
{
    let (y, mo, d, h, mi, sec) = split_epoch(secs);
    let mut out = String::new();
    push_head(&mut out, y, mo, d, h, mi, sec);
    push_tail(&mut out, nanos);
    out
}

/// Encodes a timestamp as its canonical RFC 3339 string: the UTC
/// components, a fractional part only when the nanoseconds are nonzero
/// (with trailing zeros dropped), and a `Z` offset.
pub fn timestamp_to_rfc3339(ts: &Timestamp) -> (r: String)
    ensures
        r@ == rfc3339_format(ts.sec(), ts.nsec()),
{
    proof {
        use_type_invariant(ts);
    }
    format_epoch(ts.secs, ts.nanos)
}

// ---------------------------------------------------------------------------
// Round-trip laws.
// ---------------------------------------------------------------------------

/// The characters of the fixed date-time head, position by position.
proof fn lemma_head_chars(y: int, m: int, d: int, h: int, mi: int, sec: int)
    ensures
        ({
            let hd = rfc3339_head(y, m, d, h, mi, sec);
            &&& hd.len() == 19
            &&& hd[0] == dec_seq(y, 4)[0]
            &&& hd[1] == dec_seq(y, 4)[1]
            &&& hd[2] == dec_seq(y, 4)[2]
            &&& hd[3] == dec_seq(y, 4)[3]
            &&& hd[4] == '-'
            &&& hd[5] == dec_seq(m, 2)[0]
            &&& hd[6] == dec_seq(m, 2)[1]
            &&& hd[7] == '-'
            &&& hd[8] == dec_seq(d, 2)[0]
            &&& hd[9] == dec_seq(d, 2)[1]
            &&& hd[10] == 'T'
            &&& hd[11] == dec_seq(h, 2)[0]
            &&& hd[12] == dec_seq(h, 2)[1]
            &&& hd[13] == ':'
            &&& hd[14] == dec_seq(mi, 2)[0]
            &&& hd[15] == dec_seq(mi, 2)[1]
            &&& hd[16] == ':'
            &&& hd[17] == dec_seq(sec, 2)[0]
            &&& hd[18] == dec_seq(sec, 2)[1]
        }),
{
}

/// Law: the canonical rendering of any representable instant is itself a
/// valid RFC 3339 string, and decoding it restores exactly the instant and
/// nanoseconds it was rendered from.
#[verifier::spinoff_prover]
#[verifier::rlimit(60)]
pub proof fn lemma_rfc3339_round_trip(t: int, nanos: int)
    requires
        MIN_EPOCH_SECONDS <= t <= MAX_EPOCH_SECONDS,
        0 <= nanos < NANOS_PER_SECOND,
    ensures
        ({
            let s = rfc3339_format(t, nanos);
            &&& is_valid_rfc3339(s)
            &&& spec_instant(s) == t
            &&& spec_nanos(s) == nanos
        }),
{
    lemma_datetime_of_epoch_inverse(t);
    lemma_pow10_values();
    let y = year_of_epoch(t);
    let m = month_of_epoch(t);
    let d = day_of_epoch(t);
    let h = hour_of_epoch(t);
    let mi = minute_of_epoch(t);
    let sec = second_of_epoch(t);
    let hd = rfc3339_head(y, m, d, h, mi, sec);
    let fr = rfc3339_frac(nanos);
    let s = rfc3339_format(t, nanos);
    assert(s == hd + fr + seq!['Z']);
    lemma_head_chars(y, m, d, h, mi, sec);
    assert forall|j: int| 0 <= j < 19 implies #[trigger] s[j] == hd[j] by {
        assert((hd + fr)[j] == hd[j]);
    }
    // The four date-time digit groups read back as their components.
    assert forall|j: int| 0 <= j < 4 implies #[trigger] s[0 + j] == dec_seq(y, 4 as nat)[j] by {
        assert(s[0 + j] == s[j]);
    }
    lemma_read_dec_seq(s, 0, y, 4);
    lemma_digits_value_four(s, 0);
    assert forall|j: int| 0 <= j < 2 implies #[trigger] s[5 + j] == dec_seq(m, 2 as nat)[j] by {
        assert(s[5 + j] == hd[5 + j]);
    }
    lemma_read_dec_seq(s, 5, m, 2);
    lemma_digits_value_two(s, 5);
    assert forall|j: int| 0 <= j < 2 implies #[trigger] s[8 + j] == dec_seq(d, 2 as nat)[j] by {
        assert(s[8 + j] == hd[8 + j]);
    }
    lemma_read_dec_seq(s, 8, d, 2);
    lemma_digits_value_two(s, 8);
    assert forall|j: int| 0 <= j < 2 implies #[trigger] s[11 + j] == dec_seq(h, 2 as nat)[j] by {
        assert(s[11 + j] == hd[11 + j]);
    }
    lemma_read_dec_seq(s, 11, h, 2);
    lemma_digits_value_two(s, 11);
    assert forall|j: int| 0 <= j < 2 implies #[trigger] s[14 + j] == dec_seq(mi, 2 as nat)[j] by {
        assert(s[14 + j] == hd[14 + j]);
    }
    lemma_read_dec_seq(s, 14, mi, 2);
    lemma_digits_value_two(s, 14);
    assert forall|j: int| 0 <= j < 2 implies #[trigger] s[17 + j] == dec_seq(sec, 2 as nat)[j] by {
        assert(s[17 + j] == hd[17 + j]);
    }
    lemma_read_dec_seq(s, 17, sec, 2);
    lemma_digits_value_two(s, 17);
    assert(four_digits(s, 0) == y);
    assert(two_digits(s, 5) == m);
    assert(two_digits(s, 8) == d);
    assert(two_digits(s, 11) == h);
    assert(two_digits(s, 14) == mi);
    assert(two_digits(s, 17) == sec);
    assert(head_shape_ok(s));
    if nanos == 0 {
        assert(s.len() == 20);
        assert(s[19] == 'Z');
        assert(offset_pos(s) == 19);
        assert(offset_shape_at(s, 19));
        assert(offset_seconds_at(s, 19) == 0);
        assert(spec_nanos(s) == 0);
    } else {
        lemma_trailing_tens_facts(nanos);
        let tz = trailing_tens(nanos);
        let v = nanos / pow10(tz);
        if tz >= 9 {
            lemma_pow10_le(9, tz);
            assert(false);
        }
        let kf = 9 - tz;
        lemma_pow10_add(kf, tz);
        if v >= pow10(kf) {
            vstd::arithmetic::mul::lemma_mul_inequality(pow10(kf), v, pow10(tz));
            assert(false);
        }
        lemma_trim_dec_seq(nanos, v, kf, 9);
        assert(fr == seq!['.'] + dec_seq(v, kf as nat));
        assert(fr.len() == 1 + kf);
        assert(s.len() == 21 + kf);
        assert(s[19] == (hd + fr)[19]);
        assert((hd + fr)[19] == fr[0]);
        assert(s[19] == '.');
        assert forall|j: int| 0 <= j < kf implies #[trigger] s[20 + j] == dec_seq(
            v,
            kf as nat,
        )[j] by {
            assert((hd + fr)[20 + j] == fr[1 + j]);
            assert(fr[1 + j] == dec_seq(v, kf as nat)[j]);
        }
        lemma_read_dec_seq(s, 20, v, kf);
        assert(s[20 + kf] == 'Z');
        assert(!is_digit_char('Z'));
        lemma_digit_run_ends(s, 20, 20 + kf);
        assert(digit_run(s, 20) == kf);
        assert(offset_pos(s) == 20 + kf);
        assert(frac_ok(s));
        assert(spec_nanos(s) == v * pow10(tz));
        assert(spec_nanos(s) == nanos);
        assert(offset_shape_at(s, 20 + kf));
        assert(offset_seconds_at(s, 20 + kf) == 0);
    }
    assert(components_ok(s));
    assert(spec_instant(s) == t);
    assert(is_valid_rfc3339(s));
}

/// Law: any valid RFC 3339 string denotes an instant and a nanosecond
/// count within the representable ranges, and re-encoding that instant
/// yields a string that decodes back to the same instant and nanoseconds.
#[verifier::spinoff_prover]
pub proof fn lemma_rfc3339_canonical(s: Seq<char>)
    requires
        is_valid_rfc3339(s),
    ensures
        MIN_EPOCH_SECONDS <= spec_instant(s) <= MAX_EPOCH_SECONDS,
        0 <= spec_nanos(s) < NANOS_PER_SECOND,
        ({
            let c = rfc3339_format(spec_instant(s), spec_nanos(s));
            &&& is_valid_rfc3339(c)
            &&& spec_instant(c) == spec_instant(s)
            &&& spec_nanos(c) == spec_nanos(s)
        }),
{
    lemma_pow10_values();
    if s.len() > 19 && s[19] == '.' {
        let run = digit_run(s, 20);
        lemma_digit_run_all(s, 20);
        lemma_digits_value_bound(s, 20, run);
        lemma_pow10_add(run, 9 - run);
        lemma_pow10_le(0, 9 - run);
        let dv = digits_value(s, 20, run);
        vstd::arithmetic::mul::lemma_mul_inequality(dv, pow10(run) - 1, pow10(9 - run));
        vstd::arithmetic::mul::lemma_mul_is_distributive_sub_other_way(
            pow10(9 - run),
            pow10(run),
            1,
        );
        vstd::arithmetic::mul::lemma_mul_inequality(0, dv, pow10(9 - run));
        vstd::arithmetic::mul::lemma_mul_basics_1(pow10(9 - run));
        assert(0 <= spec_nanos(s) < NANOS_PER_SECOND);
    }
    lemma_rfc3339_round_trip(spec_instant(s), spec_nanos(s));
}

} // verus!
