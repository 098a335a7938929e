use vstd::prelude::*;
use crate::table::{
    leap_index, lunar_word, month_divisor, spec_leap_index, spec_leap_month_len, spec_lunar_word,
    spec_month_divisor, spec_regular_month_len,
};

verus! {

/// Length in days of lunar month `month` of `year`. When `is_intercalation`
/// is set and the year's intercalary index equals `month`, the intercalary
/// month is meant. Zero for years without a table word — before the base
/// year or past the table's end — and for month numbers outside 1..=12.
pub open spec fn spec_lunar_month_len(year: int, month: int, is_intercalation: bool) -> int {
    let word = spec_lunar_word(year);
    if year < 1391 || word == 0 {
        0
    } else {
        if is_intercalation && spec_leap_index(word) == month {
            spec_leap_month_len(word)
        } else if 1 <= month <= 12 {
            spec_regular_month_len(word, month)
        } else {
            0
        }
    }
}

pub fn lunar_month_len(year: i32, month: u32, is_intercalation: bool) -> (r: u32)
    ensures
        r as int == spec_lunar_month_len(year as int, month as int, is_intercalation),
        r == 0 || r == 29 || r == 30,
{
    if year < 1391 {
        return 0;
    }
    let word = lunar_word(year);
    if word == 0 {
        return 0;
    }
    if is_intercalation && leap_index(word) == month {
        if (word / 65536) % 2 == 1 { 30 } else { 29 }
    } else if 1 <= month && month <= 12 {
        if (word / month_divisor(month)) % 2 == 1 { 30 } else { 29 }
    } else {
        0
    }
}

/// Sum of the lengths of the regular months 1..=month of a year word.
pub open spec fn spec_regular_months_sum(word: u32, month: int) -> int
    decreases month,
{
    if month <= 0 {
        0
    } else {
        spec_regular_months_sum(word, month - 1) + spec_regular_month_len(word, month)
    }
}

/// Length in days of lunar year `year`: the twelve regular months plus the
/// intercalary month when the year carries one. Zero when the year has no
/// table word.
pub open spec fn spec_lunar_year_len(year: int) -> int {
    let word = spec_lunar_word(year);
    if word == 0 {
        0
    } else {
        spec_regular_month_len(word, 1) + spec_regular_month_len(word, 2)
            + spec_regular_month_len(word, 3) + spec_regular_month_len(word, 4)
            + spec_regular_month_len(word, 5) + spec_regular_month_len(word, 6)
            + spec_regular_month_len(word, 7) + spec_regular_month_len(word, 8)
            + spec_regular_month_len(word, 9) + spec_regular_month_len(word, 10)
            + spec_regular_month_len(word, 11) + spec_regular_month_len(word, 12)
            + if spec_leap_index(word) > 0 {
            spec_leap_month_len(word)
        } else {
            0
        }
    }
}

/// The year length written out is the recursive sum of the twelve regular
/// months, plus the intercalary month.
pub proof fn lemma_year_len_is_months_sum(year: int)
    requires
        spec_lunar_word(year) != 0u32,
    ensures
        spec_lunar_year_len(year) == spec_regular_months_sum(spec_lunar_word(year), 12)
            + if spec_leap_index(spec_lunar_word(year)) > 0 {
            spec_leap_month_len(spec_lunar_word(year))
        } else {
            0int
        },
{
    reveal_with_fuel(spec_regular_months_sum, 13);
}

pub fn lunar_year_days(year: i32) -> (r: u32)
    ensures
        r as int == spec_lunar_year_len(year as int),
        r <= 390,
{
    let word = lunar_word(year);
    if word == 0 {
        return 0;
    }
    let mut total: u32 = 0;
    let mut m: u32 = 1;
    while m <= 12
        invariant
            1 <= m <= 13,
            word == spec_lunar_word(year as int),
            total == spec_regular_months_sum(word, m as int - 1),
            total <= 30 * (m - 1),
        decreases 13 - m,
    {
        if (word / month_divisor(m)) % 2 == 1 {
            total = total + 30;
        } else {
            total = total + 29;
        }
        m = m + 1;
    }
    if leap_index(word) > 0 {
        if (word / 65536) % 2 == 1 {
            total = total + 30;
        } else {
            total = total + 29;
        }
    }
    proof {
        lemma_year_len_is_months_sum(year as int);
    }
    total
}

/// Days of all lunar years from the base year up to, and excluding, `year`.
pub open spec fn spec_lunar_days_before_year(year: int) -> int
    decreases year - 1391,
{
    if year <= 1391 {
        0
    } else {
        spec_lunar_days_before_year(year - 1) + spec_lunar_year_len(year - 1)
    }
}

pub proof fn lemma_lunar_days_before_year_bounds(year: int)
    ensures
        0 <= spec_lunar_days_before_year(year),
        spec_lunar_days_before_year(year) <= 390 * 660,
        year <= 2051 ==> spec_lunar_days_before_year(year) <= 390 * (if year <= 1391 {
            0int
        } else {
            year - 1391
        }),
    decreases year - 1391,
{
    if year > 1391 {
        lemma_lunar_days_before_year_bounds(year - 1);
        if year - 1 > 2050 {
            assert(spec_lunar_word(year - 1) == 0u32);
        }
    }
}

pub fn lunar_days_before_year(year: i32) -> (r: i64)
    ensures
        r == spec_lunar_days_before_year(year as int),
{
    let mut days: i64 = 0;
    let mut y: i32 = 1391;
    if year <= 1391 {
        return 0;
    }
    while y < year
        invariant
            1391 <= y <= year,
            days == spec_lunar_days_before_year(y as int),
            0 <= days <= 390 * 660,
        decreases year - y,
    {
        proof {
            lemma_lunar_days_before_year_bounds(y as int + 1);
        }
        days = days + lunar_year_days(y) as i64;
        y = y + 1;
    }
    days
}

/// Days of the months of `year` that lie strictly before regular month
/// `month`, the intercalary month counted right after its regular slot.
pub open spec fn spec_lunar_months_walk(year: int, month: int) -> int
    decreases month,
{
    if month <= 1 {
        0
    } else {
        spec_lunar_months_walk(year, month - 1) + spec_lunar_month_len(year, month - 1, false)
            + if spec_leap_index(spec_lunar_word(year)) == month - 1 {
                spec_lunar_month_len(year, month - 1, true)
            } else {
                0
            }
    }
}

pub proof fn lemma_lunar_months_walk_bounds(year: int, month: int)
    ensures
        0 <= spec_lunar_months_walk(year, month),
        month >= 1 ==> spec_lunar_months_walk(year, month) <= 60 * (month - 1),
    decreases month,
{
    if month > 1 {
        lemma_lunar_months_walk_bounds(year, month - 1);
    }
}

/// Days of `year` before day 1 of month `month`; when `is_intercalation`
/// targets the year's intercalary month, the regular month of the same
/// number counts as well.
pub open spec fn spec_lunar_months_before(year: int, month: int, is_intercalation: bool) -> int {
    if year < 1391 || month == 0 {
        0
    } else {
        spec_lunar_months_walk(year, month) + if is_intercalation && spec_leap_index(
            spec_lunar_word(year),
        ) == month {
            spec_lunar_month_len(year, month, false)
        } else {
            0
        }
    }
}

pub fn lunar_months_before(year: i32, month: u32, is_intercalation: bool) -> (r: i64)
    ensures
        r == spec_lunar_months_before(year as int, month as int, is_intercalation),
{
    if year < 1391 || month == 0 {
        return 0;
    }
    let word = lunar_word(year);
    let li = leap_index(word);
    let mut days: i64 = 0;
    let mut bm: u32 = 1;
    while bm < month
        invariant
            1 <= bm <= month,
            word == spec_lunar_word(year as int),
            li as int == spec_leap_index(word),
            year >= 1391,
            days == spec_lunar_months_walk(year as int, bm as int),
            0 <= days <= 60 * (bm - 1),
        decreases month - bm,
    {
        days = days + lunar_month_len(year, bm, false) as i64;
        if li > 0 && li == bm {
            days = days + lunar_month_len(year, li, true) as i64;
        }
        bm = bm + 1;
    }
    if is_intercalation && li == month {
        days = days + lunar_month_len(year, month, false) as i64;
    }
    days
}

/// Day index of a lunar date on the shared axis: days of the earlier years,
/// days of the earlier months, then the day of the month itself. Day 1 of
/// the first month of the base year sits at index 1.
pub open spec fn spec_lunar_abs(year: int, month: int, day: int, is_intercalation: bool) -> int {
    if year < 1391 {
        0
    } else {
        spec_lunar_days_before_year(year) + spec_lunar_months_before(year, month, is_intercalation)
            + day
    }
}

pub fn lunar_abs(year: i32, month: u32, day: u32, is_intercalation: bool) -> (r: i64)
    ensures
        r == spec_lunar_abs(year as int, month as int, day as int, is_intercalation),
{
    if year < 1391 {
        return 0;
    }
    proof {
        lemma_lunar_days_before_year_bounds(year as int);
        lemma_lunar_months_walk_bounds(year as int, month as int);
    }
    lunar_days_before_year(year) + lunar_months_before(year, month, is_intercalation) + day as i64
}

} // verus!
