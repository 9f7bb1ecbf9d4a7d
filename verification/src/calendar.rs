//! Proleptic Gregorian calendar arithmetic over UTC instants, as
//! specification functions together with the lemmas that relate an epoch
//! instant to its date-time components. The representable range is year 0
//! through year 9999, the years an RFC 3339 date can name.

use vstd::prelude::*;
use vstd::arithmetic::div_mod::lemma_fundamental_div_mod;
use vstd::arithmetic::div_mod::lemma_fundamental_div_mod_converse;
use vstd::arithmetic::div_mod::lemma_mod_mod;
use vstd::arithmetic::div_mod::lemma_multiply_divide_lt;
use vstd::arithmetic::div_mod::lemma_div_pos_is_pos;

verus! {

/// The epoch seconds of 0000-01-01T00:00:00Z, the earliest representable
/// instant.
pub const MIN_EPOCH_SECONDS: i64 = -62167219200;

/// The epoch seconds of 9999-12-31T23:59:59Z, the latest representable
/// whole second.
pub const MAX_EPOCH_SECONDS: i64 = 253402300799;

/// Seconds from 0000-01-01T00:00:00Z to the Unix epoch.
pub const EPOCH_SHIFT_SECONDS: i64 = 62167219200;

/// Days from 0000-01-01 to 1970-01-01.
pub const DAYS_TO_UNIX_EPOCH: i64 = 719528;

/// Number of days in the years 0 through 9999.
pub const TOTAL_DAYS: i64 = 3652425;

/// Nanoseconds in one second.
pub const NANOS_PER_SECOND: u32 = 1000000000;

pub open spec fn is_leap_year(y: int) -> bool {
    (y % 4 == 0 && y % 100 != 0) || y % 400 == 0
}

pub open spec fn days_in_month(y: int, m: int) -> int {
    if m == 2 {
        if is_leap_year(y) {
            29
        } else {
            28
        }
    } else if m == 4 || m == 6 || m == 9 || m == 11 {
        30
    } else {
        31
    }
}

/// Days in the months `1 .. m` of year `y`, for `m` in `1 ..= 13`.
pub open spec fn days_before_month(y: int, m: int) -> int {
    let base = if m <= 1 {
        0int
    } else if m == 2 {
        31
    } else if m == 3 {
        59
    } else if m == 4 {
        90
    } else if m == 5 {
        120
    } else if m == 6 {
        151
    } else if m == 7 {
        181
    } else if m == 8 {
        212
    } else if m == 9 {
        243
    } else if m == 10 {
        273
    } else if m == 11 {
        304
    } else if m == 12 {
        334
    } else {
        365
    };
    base + if m > 2 && is_leap_year(y) {
        1int
    } else {
        0int
    }
}

/// The number of leap years among `0 .. y`, for `y >= 0`.
pub open spec fn leap_years_before(y: int) -> int {
    (y + 3) / 4 - (y + 99) / 100 + (y + 399) / 400
}

/// Days in the years `0 .. y`, for `y >= 0`.
pub open spec fn days_before_year(y: int) -> int {
    365 * y + leap_years_before(y)
}

pub open spec fn valid_date(y: int, m: int, d: int) -> bool {
    0 <= y <= 9999 && 1 <= m <= 12 && 1 <= d <= days_in_month(y, m)
}

pub open spec fn valid_time(h: int, mi: int, s: int) -> bool {
    0 <= h < 24 && 0 <= mi < 60 && 0 <= s < 60
}

/// The day number (counted from 0000-01-01) of a calendar date.
pub open spec fn day_of_date(y: int, m: int, d: int) -> int {
    days_before_year(y) + days_before_month(y, m) + d - 1
}

/// The seconds since the Unix epoch of a UTC date-time.
pub open spec fn epoch_of_datetime(y: int, m: int, d: int, h: int, mi: int, s: int) -> int {
    (day_of_date(y, m, d) - DAYS_TO_UNIX_EPOCH) * 86400 + h * 3600 + mi * 60 + s
}

/// The year that contains day number `days`, found by searching upward
/// from year `y`.
pub open spec fn year_of_day_rec(days: int, y: int) -> int
    decreases 10000 - y,
{
    if y >= 9999 {
        9999
    } else if days < days_before_year(y + 1) {
        y
    } else {
        year_of_day_rec(days, y + 1)
    }
}

/// The year that contains day number `days` (counted from 0000-01-01).
pub open spec fn year_of_day(days: int) -> int {
    year_of_day_rec(days, 0)
}

/// The month of year `y` that contains its day-of-year `doy` (counted
/// from 0).
pub open spec fn month_of_year_day(y: int, doy: int) -> int {
    if doy < days_before_month(y, 2) {
        1
    } else if doy < days_before_month(y, 3) {
        2
    } else if doy < days_before_month(y, 4) {
        3
    } else if doy < days_before_month(y, 5) {
        4
    } else if doy < days_before_month(y, 6) {
        5
    } else if doy < days_before_month(y, 7) {
        6
    } else if doy < days_before_month(y, 8) {
        7
    } else if doy < days_before_month(y, 9) {
        8
    } else if doy < days_before_month(y, 10) {
        9
    } else if doy < days_before_month(y, 11) {
        10
    } else if doy < days_before_month(y, 12) {
        11
    } else {
        12
    }
}

/// The day number (counted from 0000-01-01) of the day that contains an
/// epoch instant.
pub open spec fn day_number_of_epoch(t: int) -> int {
    (t + EPOCH_SHIFT_SECONDS) / 86400
}

/// The second of the day at which an epoch instant falls.
pub open spec fn second_of_day_of_epoch(t: int) -> int {
    (t + EPOCH_SHIFT_SECONDS) % 86400
}

/// The UTC year of an epoch instant.
pub open spec fn year_of_epoch(t: int) -> int {
    year_of_day(day_number_of_epoch(t))
}

/// The day of the year (counted from 0) of an epoch instant.
pub open spec fn day_of_year_of_epoch(t: int) -> int {
    day_number_of_epoch(t) - days_before_year(year_of_epoch(t))
}

/// The UTC month of an epoch instant.
pub open spec fn month_of_epoch(t: int) -> int {
    month_of_year_day(year_of_epoch(t), day_of_year_of_epoch(t))
}

/// The UTC day of the month of an epoch instant.
pub open spec fn day_of_epoch(t: int) -> int {
    day_of_year_of_epoch(t) - days_before_month(year_of_epoch(t), month_of_epoch(t)) + 1
}

/// The UTC hour of an epoch instant.
pub open spec fn hour_of_epoch(t: int) -> int {
    second_of_day_of_epoch(t) / 3600
}

/// The UTC minute of an epoch instant.
pub open spec fn minute_of_epoch(t: int) -> int {
    (second_of_day_of_epoch(t) % 3600) / 60
}

/// The UTC second of an epoch instant.
pub open spec fn second_of_epoch(t: int) -> int {
    second_of_day_of_epoch(t) % 60
}

// ---------------------------------------------------------------------------
// Lemmas.
// ---------------------------------------------------------------------------

/// For `y >= 0` and `d >= 2`: shifting the dividend by `d` adds one to the
/// quotient, and by `d - 1` adds one exactly when `d` does not divide `y`.
proof fn lemma_offset_div(y: int, d: int)
    requires
        y >= 0,
        d >= 2,
    ensures
        (y + d) / d == y / d + 1,
        (y + d - 1) / d == y / d + if y % d == 0 {
            0int
        } else {
            1int
        },
{
    broadcast use vstd::arithmetic::mul::group_mul_is_commutative_and_distributive;

    lemma_fundamental_div_mod(y, d);
    let q = y / d;
    let r = y % d;
    assert((q + 1) * d == q * d + d);
    lemma_fundamental_div_mod_converse(y + d, d, q + 1, r);
    if r == 0 {
        lemma_fundamental_div_mod_converse(y + d - 1, d, q, d - 1);
    } else {
        lemma_fundamental_div_mod_converse(y + d - 1, d, q + 1, r - 1);
    }
}

/// One year adds 365 days, or 366 in a leap year.
pub proof fn lemma_days_before_year_step(y: int)
    requires
        y >= 0,
    ensures
        days_before_year(y + 1) == days_before_year(y) + 365 + if is_leap_year(y) {
            1int
        } else {
            0int
        },
{
    lemma_offset_div(y, 4);
    lemma_offset_div(y, 100);
    lemma_offset_div(y, 400);
    if y % 400 == 0 {
        lemma_fundamental_div_mod(y, 400);
        lemma_fundamental_div_mod_converse(y, 4, 100 * (y / 400), 0);
        lemma_fundamental_div_mod_converse(y, 100, 4 * (y / 400), 0);
    } else if y % 100 == 0 {
        lemma_fundamental_div_mod(y, 100);
        lemma_fundamental_div_mod_converse(y, 4, 25 * (y / 100), 0);
    }
}

/// `days_before_year` grows with the year, by at least 365 per year.
pub proof fn lemma_days_before_year_mono(a: int, b: int)
    requires
        0 <= a <= b,
    ensures
        days_before_year(a) + 365 * (b - a) <= days_before_year(b),
    decreases b - a,
{
    if a < b {
        lemma_days_before_year_step(b - 1);
        lemma_days_before_year_mono(a, b - 1);
    }
}

proof fn lemma_year_of_day_rec_props(days: int, y0: int)
    requires
        0 <= y0 <= 9999,
        days_before_year(y0) <= days < TOTAL_DAYS,
    ensures
        ({
            let y = year_of_day_rec(days, y0);
            &&& y0 <= y <= 9999
            &&& days_before_year(y) <= days < days_before_year(y + 1)
        }),
    decreases 10000 - y0,
{
    assert(days_before_year(10000) == TOTAL_DAYS);
    if y0 == 9999 {
    } else if days < days_before_year(y0 + 1) {
    } else {
        lemma_year_of_day_rec_props(days, y0 + 1);
    }
}

/// The year picked for a day number brackets it, and is the only year that
/// does.
pub proof fn lemma_year_of_day(days: int)
    requires
        0 <= days < TOTAL_DAYS,
    ensures
        ({
            let y = year_of_day(days);
            &&& 0 <= y <= 9999
            &&& days_before_year(y) <= days < days_before_year(y + 1)
        }),
{
    assert(days_before_year(0) == 0);
    lemma_year_of_day_rec_props(days, 0);
}

/// Any year that brackets a day number is the year of that day.
pub proof fn lemma_year_of_day_unique(days: int, y: int)
    requires
        0 <= y <= 9999,
        days_before_year(y) <= days < days_before_year(y + 1),
    ensures
        year_of_day(days) == y,
{
    assert(days_before_year(10000) == TOTAL_DAYS);
    lemma_days_before_year_mono(y + 1, 10000);
    lemma_days_before_year_mono(0, y);
    lemma_year_of_day(days);
    let w = year_of_day(days);
    if w < y {
        lemma_days_before_year_mono(w + 1, y);
    } else if y < w {
        lemma_days_before_year_mono(y + 1, w);
    }
}

/// The month table is cumulative: each month starts where the previous one
/// ends.
pub proof fn lemma_days_before_month_step(y: int, m: int)
    requires
        1 <= m <= 12,
    ensures
        days_before_month(y, m + 1) == days_before_month(y, m) + days_in_month(y, m),
{
}

/// The month picked for a day-of-year brackets it.
pub proof fn lemma_month_of_year_day(y: int, doy: int)
    requires
        0 <= doy < 365 + if is_leap_year(y) {
            1int
        } else {
            0int
        },
    ensures
        ({
            let m = month_of_year_day(y, doy);
            &&& 1 <= m <= 12
            &&& days_before_month(y, m) <= doy < days_before_month(y, m + 1)
        }),
{
}

/// A valid date's day number lies within the supported range of days.
pub proof fn lemma_day_of_date_bounds(y: int, m: int, d: int)
    requires
        valid_date(y, m, d),
    ensures
        0 <= day_of_date(y, m, d) < TOTAL_DAYS,
        days_before_year(y) <= day_of_date(y, m, d) < days_before_year(y + 1),
{
    lemma_days_before_year_mono(0, y);
    lemma_days_before_year_step(y);
    lemma_days_before_month_step(y, m);
    assert(days_before_month(y, m + 1) <= days_before_month(y, 13));
    assert(days_before_year(10000) == TOTAL_DAYS);
    lemma_days_before_year_mono(y + 1, 10000);
}

// ---------------------------------------------------------------------------
// Executable counterparts.
// ---------------------------------------------------------------------------

pub fn is_leap_year_x(y: u64) -> (r: bool)
    ensures
        r == is_leap_year(y as int),
{
    (y % 4 == 0 && y % 100 != 0) || y % 400 == 0
}

pub fn days_in_month_x(y: u64, m: u64) -> (r: u64)
    requires
        1 <= m <= 12,
    ensures
        r == days_in_month(y as int, m as int),
{
    if m == 2 {
        if is_leap_year_x(y) {
            29
        } else {
            28
        }
    } else if m == 4 || m == 6 || m == 9 || m == 11 {
        30
    } else {
        31
    }
}

pub fn days_before_month_x(y: u64, m: u64) -> (r: u64)
    requires
        1 <= m <= 13,
    ensures
        r == days_before_month(y as int, m as int),
{
    let base: u64 = if m <= 1 {
        0
    } else if m == 2 {
        31
    } else if m == 3 {
        59
    } else if m == 4 {
        90
    } else if m == 5 {
        120
    } else if m == 6 {
        151
    } else if m == 7 {
        181
    } else if m == 8 {
        212
    } else if m == 9 {
        243
    } else if m == 10 {
        273
    } else if m == 11 {
        304
    } else if m == 12 {
        334
    } else {
        365
    };
    if m > 2 && is_leap_year_x(y) {
        base + 1
    } else {
        base
    }
}

pub fn days_before_year_x(y: u64) -> (r: u64)
    requires
        y <= 10000,
    ensures
        r == days_before_year(y as int),
{
    proof {
        lemma_div_pos_is_pos(y as int + 3, 4);
        lemma_div_pos_is_pos(y as int + 99, 100);
        lemma_div_pos_is_pos(y as int + 399, 400);
        lemma_multiply_divide_lt(y as int + 99, 100, y as int + 1);
    }
    let a: u64 = 365 * y + (y + 3) / 4;
    let b: u64 = (y + 99) / 100;
    a - b + (y + 399) / 400
}

/// Splitting an epoch instant into date-time components and recombining
/// them restores the instant; the components are a valid date and time.
pub proof fn lemma_datetime_of_epoch_inverse(t: int)
    requires
        MIN_EPOCH_SECONDS <= t <= MAX_EPOCH_SECONDS,
    ensures
        valid_date(year_of_epoch(t), month_of_epoch(t), day_of_epoch(t)),
        valid_time(hour_of_epoch(t), minute_of_epoch(t), second_of_epoch(t)),
        epoch_of_datetime(
            year_of_epoch(t),
            month_of_epoch(t),
            day_of_epoch(t),
            hour_of_epoch(t),
            minute_of_epoch(t),
            second_of_epoch(t),
        ) == t,
{
    let shifted = t + EPOCH_SHIFT_SECONDS;
    let days = shifted / 86400;
    let sod = shifted % 86400;
    assert(0 <= shifted < TOTAL_DAYS * 86400);
    lemma_fundamental_div_mod(shifted, 86400);
    lemma_div_pos_is_pos(shifted, 86400);
    lemma_multiply_divide_lt(shifted, 86400, TOTAL_DAYS as int);
    assert(days * 86400 + sod == shifted) by {
        lemma_fundamental_div_mod(shifted, 86400);
    }
    lemma_year_of_day(days);
    let y = year_of_day(days);
    let doy = days - days_before_year(y);
    lemma_days_before_year_step(y);
    lemma_month_of_year_day(y, doy);
    let m = month_of_year_day(y, doy);
    let d = doy - days_before_month(y, m) + 1;
    lemma_days_before_month_step(y, m);
    assert(valid_date(y, m, d));
    // Time of day.
    let h = sod / 3600;
    let mi = (sod % 3600) / 60;
    let s = sod % 60;
    lemma_div_pos_is_pos(sod, 3600);
    lemma_multiply_divide_lt(sod, 3600, 24);
    lemma_fundamental_div_mod(sod, 3600);
    lemma_div_pos_is_pos(sod % 3600, 60);
    lemma_multiply_divide_lt(sod % 3600, 60, 60);
    lemma_fundamental_div_mod(sod % 3600, 60);
    lemma_mod_mod(sod, 60, 60);
    assert((sod % 3600) % 60 == sod % 60);
    assert(h * 3600 + mi * 60 + s == sod);
    // Recombination.
    assert(day_of_date(y, m, d) == days);
    assert(epoch_of_datetime(y, m, d, h, mi, s) == (days - DAYS_TO_UNIX_EPOCH) * 86400 + sod);
    assert((days - DAYS_TO_UNIX_EPOCH) * 86400 + sod == t);
}

} // verus!
