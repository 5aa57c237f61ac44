//! Fixed-format timestamps of the backend's log.
//!
//! A log timestamp reads `YYYY-MM-DD HH:MM:SS.mmm` (millisecond precision,
//! proleptic Gregorian calendar).  The library represents a parsed timestamp
//! as a single `u64`: the number of milliseconds elapsed since a reference
//! point placed four centuries before year 0, so that every date the grammar
//! admits (years 0000 through 9999) maps to a non-negative count.  Only
//! ordering and differences of timestamps matter to the health engine, so the
//! choice of reference point is immaterial as long as it is uniform.
use vstd::prelude::*;

verus! {

/// Leap years of the proleptic Gregorian calendar.
pub open spec fn is_leap_year(y: int) -> bool {
    (y % 4 == 0 && y % 100 != 0) || y % 400 == 0
}

/// Number of days of month `m` (1-based) in year `y`.
pub open spec fn days_in_month(y: int, m: int) -> int {
    if m == 2 {
        if is_leap_year(y) {
            29
        } else {
            28
        }
    } else if m == 4 || m == 6 || m == 9 || m == 11 {
        30
    } else {
        31
    }
}

/// A calendar date and time-of-day the timestamp grammar can denote.
pub open spec fn valid_civil(y: int, m: int, d: int, h: int, mi: int, s: int, ms: int) -> bool {
    &&& 0 <= y <= 9999
    &&& 1 <= m <= 12
    &&& 1 <= d <= days_in_month(y, m)
    &&& 0 <= h < 24
    &&& 0 <= mi < 60
    &&& 0 <= s < 60
    &&& 0 <= ms < 1000
}

/// Days elapsed since the reference point (March 1st, four centuries before
/// year 0) on the date `y-m-d`.
pub open spec fn days_from_civil(y: int, m: int, d: int) -> int {
    let yy = if m <= 2 {
        y + 399
    } else {
        y + 400
    };
    let era = yy / 400;
    let yoe = yy % 400;
    let mp = if m <= 2 {
        m + 9
    } else {
        m - 3
    };
    let doy = (153 * mp + 2) / 5 + d - 1;
    let doe = yoe * 365 + yoe / 4 - yoe / 100 + doy;
    era * 146097 + doe
}

/// Milliseconds elapsed at `y-m-d h:mi:s.ms` since the reference point.
pub open spec fn millis_from_civil(
    y: int,
    m: int,
    d: int,
    h: int,
    mi: int,
    s: int,
    ms: int,
) -> int {
    (((days_from_civil(y, m, d) * 24 + h) * 60 + mi) * 60 + s) * 1000 + ms
}

/// Converts a calendar date and time-of-day to the timestamp encoding.
/// Returns `None` exactly on field values that denote no real instant.
pub fn civil_to_millis(y: u64, m: u64, d: u64, h: u64, mi: u64, s: u64, ms: u64) -> (r: Option<
    u64,
>)
    ensures
        r is Some <==> valid_civil(y as int, m as int, d as int, h as int, mi as int, s as int, ms as int),
        r matches Some(t) ==> t == millis_from_civil(
            y as int,
            m as int,
            d as int,
            h as int,
            mi as int,
            s as int,
            ms as int,
        ),
{
    if y > 9999 || m < 1 || m > 12 || d < 1 || d > days_in_month_exec(y, m) || h >= 24 || mi >= 60
        || s >= 60 || ms >= 1000 {
        return None;
    }
    let yy: u64 = if m <= 2 {
        y + 399
    } else {
        y + 400
    };
    let era: u64 = yy / 400;
    let yoe: u64 = yy % 400;
    let mp: u64 = if m <= 2 {
        m + 9
    } else {
        m - 3
    };
    let doy: u64 = (153 * mp + 2) / 5 + d - 1;
    let doe: u64 = yoe * 365 + yoe / 4 - yoe / 100 + doy;
    let days: u64 = era * 146097 + doe;
    Some((((days * 24 + h) * 60 + mi) * 60 + s) * 1000 + ms)
}

/// Executable counterpart of [`days_in_month`].
pub fn days_in_month_exec(y: u64, m: u64) -> (r: u64)
    requires
        1 <= m <= 12,
    ensures
        r == days_in_month(y as int, m as int),
{
    if m == 2 {
        if (y % 4 == 0 && y % 100 != 0) || y % 400 == 0 {
            29
        } else {
            28
        }
    } else if m == 4 || m == 6 || m == 9 || m == 11 {
        30
    } else {
        31
    }
}

/// ASCII decimal digit.
pub open spec fn is_digit(b: u8) -> bool {
    48 <= b <= 57
}

/// Value of the `count` ASCII digits of `s` starting at `start`.
pub open spec fn digits_val(s: Seq<u8>, start: int, count: int) -> int
    decreases count,
{
    if count <= 0 {
        0
    } else {
        digits_val(s, start, count - 1) * 10 + (s[start + count - 1] - 48)
    }
}

/// Ten to the `n`th power.
pub open spec fn pow10(n: int) -> int
    decreases n,
{
    if n <= 0 {
        1
    } else {
        10 * pow10(n - 1)
    }
}

/// Digits at every position of `s[start..start + count]`.
pub open spec fn all_digits(s: Seq<u8>, start: int, count: int) -> bool {
    forall|i: int| start <= i < start + count ==> is_digit(#[trigger] s[i])
}

/// The text `t` is a well-formed timestamp: exactly
/// `YYYY-MM-DD HH:MM:SS.mmm` with fields that denote a real instant.
pub open spec fn ts_wf(t: Seq<u8>) -> bool {
    &&& t.len() == 23
    &&& all_digits(t, 0, 4)
    &&& t[4] == 45
    &&& all_digits(t, 5, 2)
    &&& t[7] == 45
    &&& all_digits(t, 8, 2)
    &&& t[10] == 32
    &&& all_digits(t, 11, 2)
    &&& t[13] == 58
    &&& all_digits(t, 14, 2)
    &&& t[16] == 58
    &&& all_digits(t, 17, 2)
    &&& t[19] == 46
    &&& all_digits(t, 20, 3)
    &&& valid_civil(
        digits_val(t, 0, 4),
        digits_val(t, 5, 2),
        digits_val(t, 8, 2),
        digits_val(t, 11, 2),
        digits_val(t, 14, 2),
        digits_val(t, 17, 2),
        digits_val(t, 20, 3),
    )
}

/// Encoded value of a well-formed timestamp text.
pub open spec fn ts_value(t: Seq<u8>) -> int {
    millis_from_civil(
        digits_val(t, 0, 4),
        digits_val(t, 5, 2),
        digits_val(t, 8, 2),
        digits_val(t, 11, 2),
        digits_val(t, 14, 2),
        digits_val(t, 17, 2),
        digits_val(t, 20, 3),
    )
}

/// Reads the fixed-width decimal field `v[start..start + count]`.
/// Returns `None` exactly when some position holds a non-digit.
fn parse_fixed_digits(v: &Vec<u8>, start: usize, count: usize) -> (r: Option<u64>)
    requires
        start + count <= v.len(),
        count <= 4,
    ensures
        r is Some <==> all_digits(v@, start as int, count as int),
        r matches Some(x) ==> x == digits_val(v@, start as int, count as int),
{
    let mut acc: u64 = 0;
    let mut i: usize = 0;
    while i < count
        invariant
            i <= count,
            count <= 4,
            start + count <= v.len(),
            acc == digits_val(v@, start as int, i as int),
            acc < pow10(i as int),
            all_digits(v@, start as int, i as int),
        decreases count - i,
    {
        let b = v[start + i];
        if b < 48 || b > 57 {
            return None;
        }
        proof {
            assert(pow10(0) == 1);
            assert(pow10(1) == 10);
            assert(pow10(2) == 100);
            assert(pow10(3) == 1000);
            assert(pow10(4) == 10000);
        }
        acc = acc * 10 + ((b - 48) as u64);
        i = i + 1;
    }
    Some(acc)
}

/// Parses a timestamp text.  Returns the encoded instant exactly when the
/// text is well-formed per [`ts_wf`]; a malformed text yields `None`, never
/// a panic.
pub fn parse_timestamp(t: &Vec<u8>) -> (r: Option<u64>)
    ensures
        r is Some <==> ts_wf(t@),
        r matches Some(x) ==> x == ts_value(t@),
{
    if t.len() != 23 {
        return None;
    }
    if !(t[4] == 45 && t[7] == 45 && t[10] == 32 && t[13] == 58 && t[16] == 58 && t[19] == 46) {
        return None;
    }
    let y = match parse_fixed_digits(t, 0, 4) {
        Some(x) => x,
        None => { return None; },
    };
    let mo = match parse_fixed_digits(t, 5, 2) {
        Some(x) => x,
        None => { return None; },
    };
    let d = match parse_fixed_digits(t, 8, 2) {
        Some(x) => x,
        None => { return None; },
    };
    let h = match parse_fixed_digits(t, 11, 2) {
        Some(x) => x,
        None => { return None; },
    };
    let mi = match parse_fixed_digits(t, 14, 2) {
        Some(x) => x,
        None => { return None; },
    };
    let s = match parse_fixed_digits(t, 17, 2) {
        Some(x) => x,
        None => { return None; },
    };
    let ms = match parse_fixed_digits(t, 20, 3) {
        Some(x) => x,
        None => { return None; },
    };
    civil_to_millis(y, mo, d, h, mi, s, ms)
}

} // verus!
