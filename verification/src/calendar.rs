//! The proleptic Gregorian calendar of the timestamps that queries compare
//! with: civil dates of day numbers and their text.
use vstd::prelude::*;
use crate::text::{nat_text, nat_text_exec, padded_text, string_of};

verus! {

pub open spec fn is_leap_year(y: int) -> bool {
    (y % 4 == 0 && y % 100 != 0) || y % 400 == 0
}

/// The first day (counted from 1 March of the era's first year) of the
/// `yoe`-th March-based year of a 400-year era.
pub open spec fn era_year_start(yoe: int) -> int {
    365 * yoe + yoe / 4 - yoe / 100
}

proof fn lemma_year_of_era(doe: int)
    requires
        0 <= doe <= 146096,
    ensures
        ({
            let yoe = (doe - doe / 1460 + doe / 36524 - doe / 146096) / 365;
            &&& 0 <= yoe <= 399
            &&& era_year_start(yoe) <= doe
            &&& doe < era_year_start(yoe) + 365 + (if is_leap_year(yoe + 1) { 1int } else { 0int })
        }),
{
}

/// Days in month `m` (1 to 12) of year `y`.
pub open spec fn days_in_month(y: int, m: int) -> int {
    if m == 2 {
        if is_leap_year(y) {
            29
        } else {
            28
        }
    } else if m == 4 || m == 6 || m == 9 || m == 11 {
        30
    } else {
        31
    }
}

pub open spec fn valid_date(y: int, m: int, d: int) -> bool {
    1 <= m <= 12 && 1 <= d <= days_in_month(y, m)
}

/// Leap years before year `y` (counted from year 1; negative before it).
pub open spec fn leap_years_before(y: int) -> int {
    (y - 1) / 4 - (y - 1) / 100 + (y - 1) / 400
}

/// Days from 1 January 1970 to 1 January of year `y`.
pub open spec fn days_before_year(y: int) -> int {
    365 * (y - 1970) + leap_years_before(y) - leap_years_before(1970)
}

/// Days of year `y` before the first of month `m`.
pub open spec fn days_before_month(y: int, m: int) -> int {
    let common: int = if m <= 1 {
        0
    } else if m == 2 {
        31
    } else if m == 3 {
        59
    } else if m == 4 {
        90
    } else if m == 5 {
        120
    } else if m == 6 {
        151
    } else if m == 7 {
        181
    } else if m == 8 {
        212
    } else if m == 9 {
        243
    } else if m == 10 {
        273
    } else if m == 11 {
        304
    } else {
        334
    };
    common + if m > 2 && is_leap_year(y) {
        1int
    } else {
        0int
    }
}

/// The day number (days since 1970-01-01) of the date `y-m-d`.
pub open spec fn days_from_civil(y: int, m: int, d: int) -> int {
    days_before_year(y) + days_before_month(y, m) + d - 1
}

/// Days from 1 March to the first of the `mp`-th month counted from March.
pub open spec fn march_offset(mp: int) -> int {
    (153 * mp + 2) / 5
}

proof fn lemma_month_of_year(doy: int, leap: bool)
    requires
        0 <= doy < 365 + if leap {
            1int
        } else {
            0int
        },
    ensures
        ({
            let mp = (5 * doy + 2) / 153;
            let d = doy - march_offset(mp) + 1;
            &&& 0 <= mp <= 11
            &&& 1 <= d
            &&& mp < 10 ==> d <= days_in_month(0, mp + 3)
            &&& mp == 10 ==> d <= 31
            &&& mp == 11 ==> d <= if leap {
                29int
            } else {
                28int
            }
            &&& mp < 10 ==> march_offset(mp) == days_before_month(1, mp + 3) - 59
            &&& mp == 10 ==> march_offset(mp) == 306
            &&& mp == 11 ==> march_offset(mp) == 337
        }),
{
    let mp = (5 * doy + 2) / 153;
    assert(0 <= mp <= 11);
    if mp == 0 {
    } else if mp == 1 {
    } else if mp == 2 {
    } else if mp == 3 {
    } else if mp == 4 {
    } else if mp == 5 {
    } else if mp == 6 {
    } else if mp == 7 {
    } else if mp == 8 {
    } else if mp == 9 {
    } else if mp == 10 {
    } else {
    }
}

/// Adding whole multiples of the divisor moves the quotient and keeps the
/// remainder.
proof fn lemma_shift_by_multiple(x: int, d: int, k: int)
    requires
        d > 0,
    ensures
        (k * d + x) / d == k + x / d,
        (k * d + x) % d == x % d,
{
    vstd::arithmetic::div_mod::lemma_fundamental_div_mod(x, d);
    vstd::arithmetic::mul::lemma_mul_is_distributive_add_other_way(d, k, x / d);
    vstd::arithmetic::mul::lemma_mul_is_commutative(d, x / d);
    vstd::arithmetic::div_mod::lemma_mod_bound(x, d);
    assert(k * d + x == (k + x / d) * d + x % d);
    vstd::arithmetic::div_mod::lemma_fundamental_div_mod_converse(k * d + x, d, k + x / d, x % d);
}

proof fn lemma_era_shift(era: int, yy: int)
    ensures
        leap_years_before(era * 400 + yy) == era * 97 + leap_years_before(yy),
        is_leap_year(era * 400 + yy) == is_leap_year(yy),
{
    let x = yy - 1;
    lemma_shift_by_multiple(x, 4, era * 100);
    lemma_shift_by_multiple(x, 100, era * 4);
    lemma_shift_by_multiple(x, 400, era);
    lemma_shift_by_multiple(yy, 4, era * 100);
    lemma_shift_by_multiple(yy, 100, era * 4);
    lemma_shift_by_multiple(yy, 400, era);
    assert(era * 100 * 4 == era * 400);
    assert(era * 4 * 100 == era * 400);
}

proof fn lemma_leap_step(yy: int)
    ensures
        leap_years_before(yy + 1) == leap_years_before(yy) + if is_leap_year(yy) {
            1int
        } else {
            0int
        },
{
    lemma_shift_by_multiple(yy - 1, 4, 1);
    lemma_shift_by_multiple(yy - 1, 100, 1);
    lemma_shift_by_multiple(yy - 1, 400, 1);
    vstd::arithmetic::div_mod::lemma_fundamental_div_mod(yy - 1, 4);
    vstd::arithmetic::div_mod::lemma_fundamental_div_mod(yy - 1, 100);
    vstd::arithmetic::div_mod::lemma_fundamental_div_mod(yy - 1, 400);
    vstd::arithmetic::div_mod::lemma_fundamental_div_mod(yy, 4);
    vstd::arithmetic::div_mod::lemma_fundamental_div_mod(yy, 100);
    vstd::arithmetic::div_mod::lemma_fundamental_div_mod(yy, 400);
}

proof fn lemma_civil_parts(
    days: int,
    era: int,
    doe: int,
    yoe: int,
    doy: int,
    mp: int,
    d: int,
    m: int,
    y: int,
)
    requires
        era == (days + 719468) / 146097,
        doe == days + 719468 - era * 146097,
        yoe == (doe - doe / 1460 + doe / 36524 - doe / 146096) / 365,
        doy == doe - era_year_start(yoe),
        mp == (5 * doy + 2) / 153,
        d == doy - (153 * mp + 2) / 5 + 1,
        m == if mp < 10 {
            mp + 3
        } else {
            mp - 9
        },
        y == yoe + era * 400 + if m <= 2 {
            1int
        } else {
            0int
        },
    ensures
        valid_date(y, m, d),
        days_from_civil(y, m, d) == days,
{
    assert(0 <= doe <= 146096);
    lemma_year_of_era(doe);
    lemma_month_of_year(doy, is_leap_year(yoe + 1));
    lemma_leap_step(yoe);
    assert(leap_years_before(yoe + 1) == yoe / 4 - yoe / 100);
    assert(leap_years_before(1970) == 477);
    if m > 2 {
        lemma_era_shift(era, yoe);
        assert(y == era * 400 + yoe);
        assert(days_before_month(y, m) == march_offset(mp) + 59 + if is_leap_year(yoe) {
            1int
        } else {
            0int
        });
        assert(days_before_year(y) == 365 * (y - 1970) + era * 97 + leap_years_before(yoe) - 477);
    } else {
        lemma_era_shift(era, yoe + 1);
        assert(y == era * 400 + (yoe + 1));
        assert(days_before_month(y, m) == march_offset(mp) - 306);
        assert(days_before_year(y) == 365 * (y - 1970) + era * 97 + leap_years_before(yoe + 1) - 477);
    }
}

proof fn lemma_year_length(y: int)
    ensures
        days_before_year(y + 1) == days_before_year(y) + 365 + if is_leap_year(y) {
            1int
        } else {
            0int
        },
{
    lemma_leap_step(y);
}

proof fn lemma_years_ascend(a: int, b: int)
    requires
        a <= b,
    ensures
        days_before_year(a) + 365 * (b - a) <= days_before_year(b),
    decreases b - a,
{
    if a < b {
        lemma_years_ascend(a, b - 1);
        lemma_year_length(b - 1);
    }
}

/// Within a year, a later month starts after every day of an earlier one.
proof fn lemma_months_ascend(y: int, m1: int, m2: int)
    requires
        1 <= m1 < m2 <= 12,
    ensures
        days_before_month(y, m1) + days_in_month(y, m1) <= days_before_month(y, m2),
        days_before_month(y, 12) + days_in_month(y, 12) == 365 + if is_leap_year(y) {
            1int
        } else {
            0int
        },
{
}

/// Two valid dates with the same day number are the same date.
pub proof fn law_civil_date_is_unique(y1: int, m1: int, d1: int, y2: int, m2: int, d2: int)
    requires
        valid_date(y1, m1, d1),
        valid_date(y2, m2, d2),
        days_from_civil(y1, m1, d1) == days_from_civil(y2, m2, d2),
    ensures
        y1 == y2 && m1 == m2 && d1 == d2,
{
    if m1 < 12 {
        lemma_months_ascend(y1, m1, 12);
    } else {
        lemma_months_ascend(y1, 1, 12);
    }
    if m2 < 12 {
        lemma_months_ascend(y2, m2, 12);
    } else {
        lemma_months_ascend(y2, 1, 12);
    }
    lemma_year_length(y1);
    lemma_year_length(y2);
    if y1 < y2 {
        lemma_years_ascend(y1 + 1, y2);
        assert(false);
    } else if y2 < y1 {
        lemma_years_ascend(y2 + 1, y1);
        assert(false);
    }
    if m1 < m2 {
        lemma_months_ascend(y1, m1, m2);
    } else if m2 < m1 {
        lemma_months_ascend(y1, m2, m1);
    }
}

/// The civil date (proleptic Gregorian) of day number `days`, counted from
/// 1970-01-01.
pub fn civil_from_days(days: i64) -> (r: (i64, i64, i64))
    requires
        days <= i64::MAX - 719468,
    ensures
        valid_date(r.0 as int, r.1 as int, r.2 as int),
        days_from_civil(r.0 as int, r.1 as int, r.2 as int) == days,
{
    let z: i128 = days as i128 + 719468;
    let era: i128 = if z >= 0 {
        z / 146097
    } else {
        0 - ((146096 - z) / 146097)
    };
    proof {
        if z < 0 {
            let q = (146096 - z) / 146097;
            let rr = (146096 - z) % 146097;
            vstd::arithmetic::div_mod::lemma_fundamental_div_mod(146096 - z as int, 146097);
            vstd::arithmetic::div_mod::lemma_fundamental_div_mod_converse(z as int, 146097, -q, 146096 - rr);
        }
    }
    proof {
        vstd::arithmetic::div_mod::lemma_fundamental_div_mod(z as int, 146097);
        vstd::arithmetic::div_mod::lemma_mod_bound(z as int, 146097);
        assert(era == (z as int) / 146097);
        assert(-0x1_0000_0000_0000_0000 <= era <= 0x1_0000_0000_0000_0000) by (nonlinear_arith)
            requires
                era == (z as int) / 146097,
                -0x8000_0000_0000_0000 <= z <= 0x8000_0000_0000_0000,
        ;
    }
    let doe: i128 = z - era * 146097;
    proof {
        assert(doe == (z as int) % 146097);
        lemma_year_of_era(doe as int);
    }
    let yoe: i128 = (doe - doe / 1460 + doe / 36524 - doe / 146096) / 365;
    let doy: i128 = doe - (365 * yoe + yoe / 4 - yoe / 100);
    proof {
        lemma_month_of_year(doy as int, is_leap_year(yoe + 1));
    }
    let mp: i128 = (5 * doy + 2) / 153;
    let day: i128 = doy - (153 * mp + 2) / 5 + 1;
    let month: i128 = if mp < 10 {
        mp + 3
    } else {
        mp - 9
    };
    let year: i128 = yoe + era * 400 + if month <= 2 {
        1
    } else {
        0
    };
    proof {
        lemma_civil_parts(days as int, era as int, doe as int, yoe as int, doy as int, mp as int, day as int, month as int, year as int);
    }
    (year as i64, month as i64, day as i64)
}

/// `n` in decimal, zero-padded on the left to `width` characters.
fn padded_digits(n: u64, width: usize) -> (v: Vec<char>)
    ensures
        v@ == padded_text(n as nat, width as nat),
    decreases width,
{
    let digits = nat_text_exec(n);
    if digits.len() >= width {
        digits
    } else {
        let mut v: Vec<char> = Vec::new();
        v.push('0');
        let rest = padded_digits(n, width - 1);
        let mut i: usize = 0;
        while i < rest.len()
            invariant
                i <= rest@.len(),
                v@ == seq!['0'] + rest@.take(i as int),
            decreases rest.len() - i,
        {
            v.push(rest[i]);
            i = i + 1;
            proof {
                assert(rest@.take(i as int) =~= rest@.take(i - 1).push(rest@[i - 1]));
            }
        }
        proof {
            assert(rest@.take(rest@.len() as int) =~= rest@);
        }
        v
    }
}

/// A year as `{:04}` writes it: zero-padded to four characters, the sign
/// counted among them.
pub open spec fn year_text(y: int) -> Seq<char> {
    if y >= 0 {
        padded_text(y as nat, 4)
    } else {
        seq!['-'] + padded_text((-y) as nat, 3)
    }
}

/// `YYYY-MM-DD hh:mm:ss`.
pub open spec fn timestamp_text(y: int, m: int, d: int, h: int, mi: int, s: int) -> Seq<char> {
    year_text(y) + seq!['-'] + padded_text(m as nat, 2) + seq!['-'] + padded_text(d as nat, 2)
        + seq![' '] + padded_text(h as nat, 2) + seq![':'] + padded_text(mi as nat, 2) + seq![':']
        + padded_text(s as nat, 2)
}

/// Is `text` the `YYYY-MM-DD hh:mm:ss` form (UTC) of unix time `seconds`?
pub open spec fn is_timestamp_of(seconds: int, text: Seq<char>) -> bool {
    let days = seconds / 86400;
    let sod = seconds % 86400;
    exists|y: int, m: int, d: int|
        valid_date(y, m, d) && days_from_civil(y, m, d) == days && text == #[trigger] timestamp_text(
            y,
            m,
            d,
            sod / 3600,
            (sod % 3600) / 60,
            sod % 60,
        )
}

fn push_all(v: &mut Vec<char>, w: &Vec<char>)
    ensures
        final(v)@ == old(v)@ + w@,
{
    let ghost start = v@;
    let mut i: usize = 0;
    while i < w.len()
        invariant
            i <= w@.len(),
            v@ == start + w@.take(i as int),
        decreases w.len() - i,
    {
        v.push(w[i]);
        i = i + 1;
        proof {
            assert(w@.take(i as int) =~= w@.take(i - 1).push(w@[i - 1]));
        }
    }
    proof {
        assert(w@.take(w@.len() as int) =~= w@);
    }
}

/// Unix time `seconds` as the text timestamp the recharge queries compare
/// with: `YYYY-MM-DD hh:mm:ss` in UTC.
pub fn format_unix_timestamp(seconds: i64) -> (r: String)
    ensures
        is_timestamp_of(seconds as int, r@),
{
    let s: i128 = seconds as i128;
    let days: i128 = if s >= 0 {
        s / 86400
    } else {
        0 - ((86399 - s) / 86400)
    };
    proof {
        if s < 0 {
            let q = (86399 - s) / 86400;
            let rr = (86399 - s) % 86400;
            vstd::arithmetic::div_mod::lemma_fundamental_div_mod(86399 - s as int, 86400);
            vstd::arithmetic::div_mod::lemma_fundamental_div_mod_converse(s as int, 86400, -q, 86399 - rr);
        } else {
            vstd::arithmetic::div_mod::lemma_fundamental_div_mod(s as int, 86400);
        }
    }
    let sod: i128 = s - days * 86400;
    assert(sod == seconds as int % 86400);
    let (year, month, day) = civil_from_days(days as i64);
    let hour: i128 = sod / 3600;
    let minute: i128 = (sod % 3600) / 60;
    let second: i128 = sod % 60;
    let mut v: Vec<char> = Vec::new();
    if year < 0 {
        v.push('-');
        let magnitude: u64 = (0 - (year as i128)) as u64;
        let t = padded_digits(magnitude, 3);
        push_all(&mut v, &t);
    } else {
        let t = padded_digits(year as u64, 4);
        push_all(&mut v, &t);
    }
    let ghost year_part = v@;
    v.push('-');
    push_all(&mut v, &padded_digits(month as u64, 2));
    v.push('-');
    push_all(&mut v, &padded_digits(day as u64, 2));
    v.push(' ');
    push_all(&mut v, &padded_digits(hour as u64, 2));
    v.push(':');
    push_all(&mut v, &padded_digits(minute as u64, 2));
    v.push(':');
    push_all(&mut v, &padded_digits(second as u64, 2));
    proof {
        assert(year_part == year_text(year as int));
        assert(v@ =~= timestamp_text(year as int, month as int, day as int, hour as int, minute as int, second as int));
    }
    string_of(&v)
}

} // verus!
