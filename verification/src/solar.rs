use vstd::prelude::*;

verus! {

/// Lengths of the twelve civil months of a common year; the thirteenth entry
/// is the leap-year length of February.
pub const SOLAR_DAYS: [u32; 13] = [31, 28, 31, 30, 31, 30, 31, 31, 30, 31, 30, 31, 29];

/// Leap rule of the civil calendar: the Julian rule up to and including 1582,
/// the Gregorian rule from 1583 on.
pub open spec fn spec_is_gregorian_leap(year: int) -> bool {
    if year <= 1582 {
        year % 4 == 0
    } else {
        (year % 4 == 0 && year % 100 != 0) || year % 400 == 0
    }
}

pub fn is_gregorian_leap(year: i32) -> (r: bool)
    requires
        year >= 0,
    ensures
        r == spec_is_gregorian_leap(year as int),
{
    if year <= 1582 {
        year % 4 == 0
    } else {
        (year % 4 == 0 && year % 100 != 0) || year % 400 == 0
    }
}

/// Length in days of civil month `month` of `year`: the fixed table, February
/// stretched to 29 in leap years, and October 1582 shortened by the ten days
/// removed in the Gregorian reform. Zero for years before the base year and
/// for month numbers outside 1..=12.
pub open spec fn spec_solar_month_len(year: int, month: int) -> int {
    if year < 1391 {
        0
    } else {
        let base: int = if month == 2 && spec_is_gregorian_leap(year) {
            29
        } else if 1 <= month <= 12 {
            SOLAR_DAYS[month - 1] as int
        } else {
            0
        };
        base - if year == 1582 && month == 10 {
            10int
        } else {
            0int
        }
    }
}

pub fn solar_month_len(year: i32, month: u32) -> (r: u32)
    ensures
        r as int == spec_solar_month_len(year as int, month as int),
        r <= 31,
{
    if year < 1391 {
        return 0;
    }
    let mut days: u32 = 0;
    if month == 2 && is_gregorian_leap(year) {
        days = SOLAR_DAYS[12];
    } else if 1 <= month && month <= 12 {
        days = SOLAR_DAYS[(month - 1) as usize];
    }
    if year == 1582 && month == 10 {
        days = days - 10;
    }
    days
}

/// Length in days of civil year `year`: 365 or 366 by the leap rule, less the
/// ten days removed from 1582.
pub open spec fn spec_solar_year_len(year: int) -> int {
    (if spec_is_gregorian_leap(year) {
        366int
    } else {
        365int
    }) - if year == 1582 {
        10int
    } else {
        0int
    }
}

pub fn solar_year_days(year: i32) -> (r: u32)
    requires
        year >= 0,
    ensures
        r as int == spec_solar_year_len(year as int),
        355 <= r <= 366,
{
    let mut days: u32 = if is_gregorian_leap(year) {
        366
    } else {
        365
    };
    if year == 1582 {
        days = days - 10;
    }
    days
}

/// Days of all civil years from the base year up to, and excluding, `year`.
pub open spec fn spec_solar_days_before_year(year: int) -> int
    decreases year - 1391,
{
    if year <= 1391 {
        0
    } else {
        spec_solar_days_before_year(year - 1) + spec_solar_year_len(year - 1)
    }
}

pub proof fn lemma_solar_days_before_year_bounds(year: int)
    ensures
        0 <= spec_solar_days_before_year(year),
        year > 1391 ==> spec_solar_days_before_year(year) >= 355 * (year - 1391),
        year > 1391 ==> spec_solar_days_before_year(year) <= 366 * (year - 1391),
    decreases year - 1391,
{
    if year > 1391 {
        lemma_solar_days_before_year_bounds(year - 1);
    }
}

pub fn solar_days_before_year(year: i32) -> (r: i64)
    ensures
        r == spec_solar_days_before_year(year as int),
{
    let mut days: i64 = 0;
    let mut y: i32 = 1391;
    if year <= 1391 {
        return 0;
    }
    while y < year
        invariant
            1391 <= y <= year,
            days == spec_solar_days_before_year(y as int),
            0 <= days <= 366 * (y - 1391),
        decreases year - y,
    {
        days = days + solar_year_days(y) as i64;
        y = y + 1;
    }
    days
}

/// Days of the civil months of `year` that lie strictly before `month`.
pub open spec fn spec_solar_months_walk(year: int, month: int) -> int
    decreases month,
{
    if month <= 1 {
        0
    } else {
        spec_solar_months_walk(year, month - 1) + spec_solar_month_len(year, month - 1)
    }
}

pub proof fn lemma_solar_months_walk_bounds(year: int, month: int)
    ensures
        0 <= spec_solar_months_walk(year, month),
        month >= 1 ==> spec_solar_months_walk(year, month) <= 31 * (month - 1),
    decreases month,
{
    if month > 1 {
        lemma_solar_months_walk_bounds(year, month - 1);
    }
}

/// Days of `year` before day 1 of civil month `month`.
pub open spec fn spec_solar_months_before(year: int, month: int) -> int {
    if year < 1391 {
        0
    } else {
        spec_solar_months_walk(year, month)
    }
}

pub fn solar_months_before(year: i32, month: u32) -> (r: i64)
    ensures
        r == spec_solar_months_before(year as int, month as int),
{
    if year < 1391 || month == 0 {
        return 0;
    }
    let mut days: i64 = 0;
    let mut bm: u32 = 1;
    while bm < month
        invariant
            1 <= bm <= month,
            year >= 1391,
            days == spec_solar_months_walk(year as int, bm as int),
            0 <= days <= 31 * (bm - 1),
        decreases month - bm,
    {
        days = days + solar_month_len(year, bm) as i64;
        bm = bm + 1;
    }
    days
}

/// Day index of a civil date on the shared axis. The constant 35 aligns the
/// civil origin with the lunar origin: civil 1391-02-05 sits at index 1, the
/// same day as lunar 1391-01-01.
pub open spec fn spec_solar_abs(year: int, month: int, day: int) -> int {
    if year < 1391 {
        0
    } else {
        spec_solar_days_before_year(year) + spec_solar_months_before(year, month) + day - 35
    }
}

pub fn solar_abs(year: i32, month: u32, day: u32) -> (r: i64)
    ensures
        r == spec_solar_abs(year as int, month as int, day as int),
{
    if year < 1391 {
        return 0;
    }
    proof {
        lemma_solar_days_before_year_bounds(year as int);
        lemma_solar_months_walk_bounds(year as int, month as int);
    }
    solar_days_before_year(year) + solar_months_before(year, month) + day as i64 - 35
}

} // verus!
