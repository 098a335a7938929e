use vstd::prelude::*;
use crate::align::{
    lemma_lunar_new_year_before_next_solar, lemma_solar_new_year_not_after_lunar,
    lemma_table_end_totals, lemma_year_aligned,
};
use crate::lunar::{
    lemma_lunar_days_before_year_bounds, spec_lunar_abs, spec_lunar_days_before_year,
    spec_lunar_month_len, spec_lunar_months_before, spec_lunar_months_walk, spec_lunar_year_len,
    spec_regular_months_sum,
};
use crate::solar::{
    spec_solar_abs, spec_solar_days_before_year,
    spec_solar_month_len, spec_solar_months_before, spec_solar_months_walk, spec_solar_year_len,
};
use crate::table::{spec_leap_index, spec_leap_month_len, spec_lunar_word};

verus! {

/// The validator: the encoded date lies within the supported bounds, the
/// month and day name a real slot, an intercalary request names the year's
/// intercalary month, and the day does not pass the month's length. On the
/// civil side the ten days removed in October 1582 are refused, and the other
/// days of that month may carry numbers up to 31.
pub open spec fn spec_check_valid(
    is_lunar: bool,
    is_intercalation: bool,
    year: int,
    month: int,
    day: int,
) -> bool {
    let date_value = year * 10000 + month * 100 + day;
    let in_range = if is_lunar {
        13910101 <= date_value <= 20501118
    } else {
        13910205 <= date_value <= 20501231
    };
    if in_range && 1 <= month <= 12 && day > 0 {
        if is_lunar && is_intercalation && spec_leap_index(spec_lunar_word(year)) != month {
            false
        } else if !is_lunar && year == 1582 && month == 10 && 4 < day < 15 {
            false
        } else {
            day <= if is_lunar {
                spec_lunar_month_len(year, month, is_intercalation)
            } else {
                spec_solar_month_len(year, month) + if year == 1582 && month == 10 {
                    10int
                } else {
                    0int
                }
            }
        }
    } else {
        false
    }
}

/// What validity gives of a lunar date's parts.
pub proof fn lemma_valid_lunar_bounds(is_intercalation: bool, year: int, month: int, day: int)
    requires
        spec_check_valid(true, is_intercalation, year, month, day),
    ensures
        1391 <= year <= 2050,
        1 <= month <= 12,
        1 <= day <= 30,
        day <= spec_lunar_month_len(year, month, is_intercalation),
        is_intercalation ==> spec_leap_index(spec_lunar_word(year)) == month,
        year == 2050 ==> month <= 11,
        year == 2050 && month == 11 ==> day <= 18,
{
}

/// What validity gives of a civil date's parts.
pub proof fn lemma_valid_solar_bounds(year: int, month: int, day: int)
    requires
        spec_check_valid(false, false, year, month, day),
    ensures
        1391 <= year <= 2050,
        1 <= month <= 12,
        1 <= day <= 31,
        day <= spec_solar_month_len(year, month) + if year == 1582 && month == 10 {
            10int
        } else {
            0int
        },
        year == 1582 && month == 10 ==> !(4 < day < 15),
        year == 1391 ==> month >= 3 || (month == 2 && day >= 5),
{
}

// ----- lunar structure -----

/// Walking more months never shortens the count.
pub proof fn lemma_lunar_walk_monotone(year: int, m1: int, m2: int)
    requires
        m1 <= m2,
    ensures
        spec_lunar_months_walk(year, m1) <= spec_lunar_months_walk(year, m2),
    decreases m2 - m1,
{
    if m1 < m2 {
        lemma_lunar_walk_monotone(year, m1, m2 - 1);
    }
}

/// The month walk splits into the regular months' sum and the intercalary
/// month once it has been passed.
proof fn lemma_lunar_walk_sum(year: int, month: int)
    requires
        1391 <= year,
        spec_lunar_word(year) != 0u32,
        1 <= month <= 13,
    ensures
        spec_lunar_months_walk(year, month) == spec_regular_months_sum(
            spec_lunar_word(year),
            month - 1,
        ) + if 1 <= spec_leap_index(spec_lunar_word(year)) < month {
            spec_leap_month_len(spec_lunar_word(year))
        } else {
            0int
        },
    decreases month,
{
    if month > 1 {
        lemma_lunar_walk_sum(year, month - 1);
    }
}

/// Walking past month 12 counts every day of the year.
pub proof fn lemma_lunar_walk_full_year(year: int)
    requires
        1391 <= year <= 2050,
    ensures
        spec_lunar_months_walk(year, 13) == spec_lunar_year_len(year),
{
    lemma_year_aligned(year);
    lemma_lunar_walk_sum(year, 13);
    crate::lunar::lemma_year_len_is_months_sum(year);
}

/// First days of consecutive months on the shared axis.
pub proof fn lemma_lunar_month_base_step(year: int, month: int)
    requires
        1391 <= year,
        1 <= month <= 12,
    ensures
        spec_lunar_months_before(year, month + 1, false) == spec_lunar_months_before(
            year,
            month,
            false,
        ) + spec_lunar_month_len(year, month, false) + if spec_leap_index(
            spec_lunar_word(year),
        ) == month {
            spec_lunar_month_len(year, month, true)
        } else {
            0int
        },
        spec_lunar_months_before(year, month, true) == spec_lunar_months_before(year, month, false)
            + if spec_leap_index(spec_lunar_word(year)) == month {
            spec_lunar_month_len(year, month, false)
        } else {
            0int
        },
{
}

/// A month's days stay within its year.
pub proof fn lemma_lunar_within_year(year: int, month: int, is_intercalation: bool)
    requires
        1391 <= year <= 2050,
        1 <= month <= 12,
        is_intercalation ==> spec_leap_index(spec_lunar_word(year)) == month,
    ensures
        spec_lunar_months_before(year, month, is_intercalation) + spec_lunar_month_len(
            year,
            month,
            is_intercalation,
        ) <= spec_lunar_year_len(year),
        spec_lunar_months_before(year, month, is_intercalation) >= 0,
{
    lemma_lunar_month_base_step(year, month);
    lemma_lunar_walk_monotone(year, month + 1, 13);
    lemma_lunar_walk_full_year(year);
    crate::lunar::lemma_lunar_months_walk_bounds(year, month);
}

// ----- lunar month search -----

/// Month chosen by the descending search: the largest month of `year`, not
/// above `month`, whose first day does not come after index `abs`; zero when
/// every month starts after it.
pub open spec fn spec_lunar_month_search(year: int, abs: int, month: int) -> int
    decreases month,
{
    if month <= 0 {
        0
    } else if abs >= spec_lunar_abs(year, month, 1, false) {
        month
    } else {
        spec_lunar_month_search(year, abs, month - 1)
    }
}

pub proof fn lemma_lunar_search_props(year: int, abs: int, month: int)
    requires
        0 <= month <= 12,
    ensures
        ({
            let f = spec_lunar_month_search(year, abs, month);
            &&& 0 <= f <= month
            &&& f > 0 ==> abs >= spec_lunar_abs(year, f, 1, false)
            &&& forall|m2: int|
                f < m2 <= month ==> abs < #[trigger] spec_lunar_abs(year, m2, 1, false)
        }),
    decreases month,
{
    if month > 0 && !(abs >= spec_lunar_abs(year, month, 1, false)) {
        lemma_lunar_search_props(year, abs, month - 1);
    }
}

/// A valid lunar date is recovered from its day index by the descending
/// month search within its own year.
pub proof fn lemma_lunar_recover(year: int, month: int, day: int, is_intercalation: bool)
    requires
        spec_check_valid(true, is_intercalation, year, month, day),
    ensures
        ({
            let a = spec_lunar_abs(year, month, day, is_intercalation);
            let f = spec_lunar_month_search(year, a, 12);
            let ic2 = spec_leap_index(spec_lunar_word(year)) == f && a >= spec_lunar_abs(
                year,
                f,
                1,
                true,
            );
            &&& f == month
            &&& ic2 == is_intercalation
            &&& a - spec_lunar_abs(year, f, 1, ic2) + 1 == day
            &&& spec_lunar_days_before_year(year) + 1 <= a
            &&& a <= spec_lunar_days_before_year(year) + spec_lunar_year_len(year)
        }),
{
    lemma_valid_lunar_bounds(is_intercalation, year, month, day);
    let a = spec_lunar_abs(year, month, day, is_intercalation);
    let li = spec_leap_index(spec_lunar_word(year));
    lemma_lunar_month_base_step(year, month);
    lemma_lunar_within_year(year, month, is_intercalation);
    lemma_lunar_search_props(year, a, 12);
    let f = spec_lunar_month_search(year, a, 12);
    // the search does not stop above `month`: the date's days lie before the
    // first day of the next month
    assert(a < spec_lunar_abs(year, month, 1, false) + spec_lunar_month_len(year, month, false)
        + if li == month {
        spec_lunar_month_len(year, month, true)
    } else {
        0int
    });
    if month < 12 {
        assert forall|m2: int| month < m2 <= 12 implies a < #[trigger] spec_lunar_abs(
            year,
            m2,
            1,
            false,
        ) by {
            lemma_lunar_walk_monotone(year, month + 1, m2);
        }
    }
    // and it does not stop below: day 1 of `month` is not after the date
    assert(spec_lunar_abs(year, month, 1, false) <= a);
    assert(f == month);
}


// ----- bounds of the axis -----

/// Regular month sums lie between 29 and 30 days a month.
pub proof fn lemma_months_sum_bounds(word: u32, month: int)
    requires
        month >= 0,
    ensures
        29 * month <= spec_regular_months_sum(word, month) <= 30 * month,
    decreases month,
{
    if month > 0 {
        lemma_months_sum_bounds(word, month - 1);
    }
}

/// A lunar year holds between 0 and 390 days.
pub proof fn lemma_lunar_year_len_bounds(year: int)
    ensures
        0 <= spec_lunar_year_len(year) <= 390,
{
    lemma_months_sum_bounds(spec_lunar_word(year), 12);
}

/// Later years never start earlier on the axis.
pub proof fn lemma_lunar_before_year_monotone(y1: int, y2: int)
    requires
        y1 <= y2,
    ensures
        spec_lunar_days_before_year(y1) <= spec_lunar_days_before_year(y2),
    decreases y2 - y1,
{
    if y1 < y2 {
        lemma_lunar_before_year_monotone(y1, y2 - 1);
        lemma_lunar_year_len_bounds(y2 - 1);
    }
}

/// Ground values of the last covered lunar year.
#[verifier::spinoff_prover]
#[verifier::rlimit(50)]
proof fn lemma_year_2050_lunar_values()
    ensures
        spec_lunar_days_before_year(2050) == 240674,
        spec_lunar_year_len(2050) == 384,
        spec_leap_index(spec_lunar_word(2050)) == 3,
        spec_lunar_months_walk(2050, 11) == 325,
        spec_lunar_months_walk(2050, 12) == 355,
{
    lemma_table_end_totals();
    reveal_with_fuel(spec_lunar_months_walk, 13);
    assert(spec_lunar_days_before_year(2051) == spec_lunar_days_before_year(2050)
        + spec_lunar_year_len(2050));
}

/// Ground values of the last covered civil year.
#[verifier::spinoff_prover]
#[verifier::rlimit(50)]
proof fn lemma_year_2050_solar_values()
    ensures
        spec_solar_days_before_year(2050) == 240687,
        spec_solar_year_len(2050) == 365,
        spec_solar_months_walk(2050, 12) == 334,
{
    lemma_table_end_totals();
    reveal_with_fuel(spec_solar_months_walk, 13);
    assert(spec_solar_days_before_year(2051) == spec_solar_days_before_year(2050)
        + spec_solar_year_len(2050));
}

/// Ground values of the last covered year.
proof fn lemma_year_2050_values()
    ensures
        spec_lunar_days_before_year(2050) == 240674,
        spec_solar_days_before_year(2050) == 240687,
        spec_lunar_year_len(2050) == 384,
        spec_solar_year_len(2050) == 365,
        spec_leap_index(spec_lunar_word(2050)) == 3,
        spec_lunar_months_walk(2050, 11) == 325,
        spec_lunar_months_walk(2050, 12) == 355,
        spec_solar_months_walk(2050, 12) == 334,
{
    lemma_year_2050_lunar_values();
    lemma_year_2050_solar_values();
}

/// Ground values of the first covered year.
proof fn lemma_year_1391_values()
    ensures
        spec_lunar_abs(1391, 1, 1, false) == 1,
        spec_solar_abs(1391, 2, 5) == 1,
        spec_solar_months_walk(1391, 2) == 31,
        spec_solar_months_walk(1391, 3) == 59,
{
    reveal_with_fuel(spec_lunar_months_walk, 3);
    reveal_with_fuel(spec_solar_months_walk, 4);
}

/// No valid date of either calendar lies past the shared upper end of the
/// axis, the day both calendars' bounds name.
pub proof fn lemma_lunar_abs_max(year: int, month: int, day: int, is_intercalation: bool)
    requires
        spec_check_valid(true, is_intercalation, year, month, day),
    ensures
        spec_lunar_abs(year, month, day, is_intercalation) <= 241017,
{
    lemma_valid_lunar_bounds(is_intercalation, year, month, day);
    lemma_year_2050_values();
    lemma_lunar_within_year(year, month, is_intercalation);
    if year <= 2049 {
        lemma_lunar_before_year_monotone(year + 1, 2050);
        assert(spec_lunar_days_before_year(year + 1) == spec_lunar_days_before_year(year)
            + spec_lunar_year_len(year));
    } else {
        lemma_lunar_month_base_step(2050, month);
        if month <= 10 {
            lemma_lunar_walk_monotone(2050, month + 1, 11);
        }
    }
}

// ----- solar structure -----

/// Walking more civil months never shortens the count.
pub proof fn lemma_solar_walk_monotone(year: int, m1: int, m2: int)
    requires
        m1 <= m2,
    ensures
        spec_solar_months_walk(year, m1) <= spec_solar_months_walk(year, m2),
    decreases m2 - m1,
{
    if m1 < m2 {
        lemma_solar_walk_monotone(year, m1, m2 - 1);
    }
}

/// Walking past month 12 counts every day of the civil year.
pub proof fn lemma_solar_walk_full_year(year: int)
    requires
        year >= 1391,
    ensures
        spec_solar_months_walk(year, 13) == spec_solar_year_len(year),
{
    reveal_with_fuel(spec_solar_months_walk, 14);
}

/// First days of consecutive civil months on the shared axis.
pub proof fn lemma_solar_month_base_step(year: int, month: int)
    requires
        1391 <= year,
        1 <= month <= 12,
    ensures
        spec_solar_months_before(year, month + 1) == spec_solar_months_before(year, month)
            + spec_solar_month_len(year, month),
{
}

/// A civil month's days stay within its year.
pub proof fn lemma_solar_within_year(year: int, month: int)
    requires
        1391 <= year,
        1 <= month <= 12,
    ensures
        spec_solar_months_before(year, month) + spec_solar_month_len(year, month)
            <= spec_solar_year_len(year),
        spec_solar_months_before(year, month) >= 0,
{
    lemma_solar_month_base_step(year, month);
    lemma_solar_walk_monotone(year, month + 1, 13);
    lemma_solar_walk_full_year(year);
    crate::solar::lemma_solar_months_walk_bounds(year, month);
}

// ----- solar month search -----

/// Month chosen by the descending civil search: the largest month of `year`,
/// not above `month`, whose first day does not come after index `abs`; zero
/// when every month starts after it.
pub open spec fn spec_solar_month_search(year: int, abs: int, month: int) -> int
    decreases month,
{
    if month <= 0 {
        0
    } else if abs >= spec_solar_abs(year, month, 1) {
        month
    } else {
        spec_solar_month_search(year, abs, month - 1)
    }
}

pub proof fn lemma_solar_search_props(year: int, abs: int, month: int)
    requires
        0 <= month <= 12,
    ensures
        ({
            let f = spec_solar_month_search(year, abs, month);
            &&& 0 <= f <= month
            &&& f > 0 ==> abs >= spec_solar_abs(year, f, 1)
            &&& forall|m2: int| f < m2 <= month ==> abs < #[trigger] spec_solar_abs(year, m2, 1)
        }),
    decreases month,
{
    if month > 0 && !(abs >= spec_solar_abs(year, month, 1)) {
        lemma_solar_search_props(year, abs, month - 1);
    }
}

/// A civil date whose day stays within the month's true length is recovered
/// from its day index by the descending search within its own year.
pub proof fn lemma_solar_recover(year: int, month: int, day: int)
    requires
        spec_check_valid(false, false, year, month, day),
        day <= spec_solar_month_len(year, month),
    ensures
        ({
            let a = spec_solar_abs(year, month, day);
            let f = spec_solar_month_search(year, a, 12);
            &&& f == month
            &&& a - spec_solar_abs(year, f, 1) + 1 == day
        }),
{
    lemma_valid_solar_bounds(year, month, day);
    let a = spec_solar_abs(year, month, day);
    lemma_solar_month_base_step(year, month);
    lemma_solar_search_props(year, a, 12);
    if month < 12 {
        assert forall|m2: int| month < m2 <= 12 implies a < #[trigger] spec_solar_abs(
            year,
            m2,
            1,
        ) by {
            lemma_solar_walk_monotone(year, month + 1, m2);
        }
    }
    assert(spec_solar_abs(year, month, 1) <= a);
}

// ----- choice of the year -----

/// Lunar year holding a civil date's day index: the civil year itself when
/// the index does not come before that year's lunar new year, else the year
/// before.
pub open spec fn spec_lunar_year_of_abs(solar_year: int, abs: int) -> int {
    if abs >= spec_lunar_abs(solar_year, 1, 1, false) {
        solar_year
    } else {
        solar_year - 1
    }
}

/// Civil year holding a lunar date's day index: the lunar year itself when
/// the index comes before the next civil new year, else the year after.
pub open spec fn spec_solar_year_of_abs(lunar_year: int, abs: int) -> int {
    if abs < spec_solar_abs(lunar_year + 1, 1, 1) {
        lunar_year
    } else {
        lunar_year + 1
    }
}

/// A valid civil date's day index lies within the civil year's own span of
/// the axis.
pub proof fn lemma_solar_abs_in_year(year: int, month: int, day: int)
    requires
        spec_check_valid(false, false, year, month, day),
    ensures
        ({
            let a = spec_solar_abs(year, month, day);
            &&& spec_solar_days_before_year(year) - 34 <= a
            &&& a <= spec_solar_days_before_year(year) + spec_solar_year_len(year) - 35
        }),
{
    lemma_valid_solar_bounds(year, month, day);
    lemma_solar_within_year(year, month);
    if year == 1582 && month == 10 {
        reveal_with_fuel(spec_solar_months_walk, 12);
        assert(spec_solar_months_walk(1582, 11) == 294);
        lemma_solar_walk_monotone(year, 11, 13);
        lemma_solar_walk_full_year(year);
    }
}

/// The lunar year chosen for a valid civil date's day index holds that index
/// within its own span of the axis.
pub proof fn lemma_lunar_year_of(year: int, month: int, day: int)
    requires
        spec_check_valid(false, false, year, month, day),
    ensures
        ({
            let a = spec_solar_abs(year, month, day);
            let ly = spec_lunar_year_of_abs(year, a);
            &&& 1391 <= ly <= 2050
            &&& spec_lunar_days_before_year(ly) + 1 <= a
            &&& a <= spec_lunar_days_before_year(ly) + spec_lunar_year_len(ly)
        }),
{
    lemma_valid_solar_bounds(year, month, day);
    lemma_solar_abs_in_year(year, month, day);
    let a = spec_solar_abs(year, month, day);
    let ly = spec_lunar_year_of_abs(year, a);
    if a >= spec_lunar_abs(year, 1, 1, false) {
        lemma_solar_new_year_not_after_lunar(year + 1);
        assert(spec_solar_days_before_year(year + 1) == spec_solar_days_before_year(year)
            + spec_solar_year_len(year));
        assert(spec_lunar_days_before_year(year + 1) == spec_lunar_days_before_year(year)
            + spec_lunar_year_len(year));
    } else {
        if year == 1391 {
            lemma_year_1391_values();
            lemma_solar_walk_monotone(1391, 3, month as int);
            assert(false);
        }
        lemma_lunar_new_year_before_next_solar(year - 1);
        assert(spec_lunar_days_before_year(year) == spec_lunar_days_before_year(year - 1)
            + spec_lunar_year_len(year - 1));
        assert(spec_solar_days_before_year(year) == spec_solar_days_before_year(year - 1)
            + spec_solar_year_len(year - 1));
    }
}

/// The civil year chosen for a valid lunar date's day index holds that index
/// within its own span of the axis.
pub proof fn lemma_solar_year_of(year: int, month: int, day: int, is_intercalation: bool)
    requires
        spec_check_valid(true, is_intercalation, year, month, day),
    ensures
        ({
            let a = spec_lunar_abs(year, month, day, is_intercalation);
            let sy = spec_solar_year_of_abs(year, a);
            &&& 1391 <= sy <= 2050
            &&& spec_solar_days_before_year(sy) - 34 <= a
            &&& a <= spec_solar_days_before_year(sy) + spec_solar_year_len(sy) - 35
        }),
{
    lemma_valid_lunar_bounds(is_intercalation, year, month, day);
    lemma_lunar_within_year(year, month, is_intercalation);
    let a = spec_lunar_abs(year, month, day, is_intercalation);
    let sy = spec_solar_year_of_abs(year, a);
    assert(spec_solar_days_before_year(year + 1) == spec_solar_days_before_year(year)
        + spec_solar_year_len(year));
    if a < spec_solar_abs(year + 1, 1, 1) {
        lemma_solar_new_year_not_after_lunar(year);
    } else {
        if year == 2050 {
            lemma_lunar_abs_max(year, month, day, is_intercalation);
            lemma_table_end_totals();
            assert(false);
        }
        lemma_lunar_new_year_before_next_solar(year + 1);
        assert(a <= spec_lunar_days_before_year(year) + spec_lunar_year_len(year));
        assert(spec_lunar_days_before_year(year + 1) == spec_lunar_days_before_year(year)
            + spec_lunar_year_len(year));
        assert(spec_solar_days_before_year(year + 2) == spec_solar_days_before_year(year + 1)
            + spec_solar_year_len(year + 1));
    }
}

/// Later civil years never start earlier on the axis.
pub proof fn lemma_solar_before_year_monotone(y1: int, y2: int)
    requires
        y1 <= y2,
    ensures
        spec_solar_days_before_year(y1) <= spec_solar_days_before_year(y2),
    decreases y2 - y1,
{
    if y1 < y2 {
        lemma_solar_before_year_monotone(y1, y2 - 1);
    }
}

/// No valid civil date lies past the shared upper end of the axis.
pub proof fn lemma_solar_abs_max(year: int, month: int, day: int)
    requires
        spec_check_valid(false, false, year, month, day),
    ensures
        spec_solar_abs(year, month, day) <= 241017,
{
    lemma_valid_solar_bounds(year, month, day);
    lemma_solar_abs_in_year(year, month, day);
    lemma_table_end_totals();
    assert(spec_solar_days_before_year(year + 1) == spec_solar_days_before_year(year)
        + spec_solar_year_len(year));
    lemma_solar_before_year_monotone(year + 1, 2051);
}

// ----- the two reverse mappings -----

/// Intercalary flag chosen by the reverse mapping at the found month: the
/// month is the year's intercalary slot and the index reaches the intercalary
/// month's own days.
pub open spec fn spec_conv_intercalation(year: int, month: int, abs: int) -> bool {
    spec_leap_index(spec_lunar_word(year)) == month && abs >= spec_lunar_abs(year, month, 1, true)
}

/// The reverse mapping from a valid civil date's day index lands on a valid
/// lunar date with the same index.
pub proof fn lemma_solar_to_lunar(year: int, month: int, day: int)
    requires
        spec_check_valid(false, false, year, month, day),
    ensures
        ({
            let a = spec_solar_abs(year, month, day);
            let ly = spec_lunar_year_of_abs(year, a);
            let lm = spec_lunar_month_search(ly, a, 12);
            let ic = spec_conv_intercalation(ly, lm, a);
            let ld = a - spec_lunar_abs(ly, lm, 1, ic) + 1;
            &&& 1391 <= ly <= 2050
            &&& 1 <= lm <= 12
            &&& 1 <= ld <= spec_lunar_month_len(ly, lm, ic)
            &&& (ic ==> spec_leap_index(spec_lunar_word(ly)) == lm)
            &&& spec_lunar_abs(ly, lm, ld, ic) == a
            &&& spec_check_valid(true, ic, ly, lm, ld)
        }),
{
    let a = spec_solar_abs(year, month, day);
    let ly = spec_lunar_year_of_abs(year, a);
    let lm = spec_lunar_month_search(ly, a, 12);
    let li = spec_leap_index(spec_lunar_word(ly));
    lemma_lunar_year_of(year, month, day);
    lemma_lunar_search_props(ly, a, 12);
    // month 1 starts at the year's first day, so the search finds a month
    assert(spec_lunar_abs(ly, 1, 1, false) == spec_lunar_days_before_year(ly) + 1);
    assert(1 <= lm <= 12);
    // the index stays before the next month's first day
    lemma_lunar_month_base_step(ly, lm);
    if lm == 12 {
        lemma_lunar_walk_full_year(ly);
        assert(spec_lunar_abs(ly, 13, 1, false) == spec_lunar_days_before_year(ly)
            + spec_lunar_year_len(ly) + 1);
    }
    assert(a < spec_lunar_abs(ly, lm + 1, 1, false));
    let ic = spec_conv_intercalation(ly, lm, a);
    let ld = a - spec_lunar_abs(ly, lm, 1, ic) + 1;
    assert(1 <= ld <= spec_lunar_month_len(ly, lm, ic));
    assert(spec_lunar_abs(ly, lm, ld, ic) == a);
    // the recovered date passes the validator
    if ly == 2050 {
        lemma_solar_abs_max(year, month, day);
        lemma_year_2050_values();
        reveal_with_fuel(spec_lunar_months_walk, 13);
        assert(lm <= 11);
        if lm == 11 {
            assert(!ic);
            assert(ld <= 18);
        }
        assert(2050 * 10000 + lm * 100 + ld <= 20501118);
    }
    assert(spec_check_valid(true, ic, ly, lm, ld));
}

/// The reverse mapping from a valid lunar date's day index lands on a valid
/// civil date; its raw day keeps the index, and the stored day skips the ten
/// days removed from October 1582.
pub proof fn lemma_lunar_to_solar(year: int, month: int, day: int, is_intercalation: bool)
    requires
        spec_check_valid(true, is_intercalation, year, month, day),
    ensures
        ({
            let a = spec_lunar_abs(year, month, day, is_intercalation);
            let sy = spec_solar_year_of_abs(year, a);
            let sm = spec_solar_month_search(sy, a, 12);
            let rd = a - spec_solar_abs(sy, sm, 1) + 1;
            let sd = rd + if sy == 1582 && sm == 10 && rd > 4 {
                10int
            } else {
                0int
            };
            &&& 1391 <= sy <= 2050
            &&& 1 <= sm <= 12
            &&& 1 <= rd <= spec_solar_month_len(sy, sm)
            &&& spec_solar_abs(sy, sm, rd) == a
            &&& spec_check_valid(false, false, sy, sm, sd)
        }),
{
    let a = spec_lunar_abs(year, month, day, is_intercalation);
    let sy = spec_solar_year_of_abs(year, a);
    let sm = spec_solar_month_search(sy, a, 12);
    lemma_valid_lunar_bounds(is_intercalation, year, month, day);
    lemma_solar_year_of(year, month, day, is_intercalation);
    lemma_solar_search_props(sy, a, 12);
    // month 1 starts at the civil year's first day, so the search finds a month
    assert(spec_solar_abs(sy, 1, 1) == spec_solar_days_before_year(sy) - 34);
    assert(1 <= sm <= 12);
    lemma_solar_month_base_step(sy, sm);
    if sm == 12 {
        lemma_solar_walk_full_year(sy);
        assert(spec_solar_abs(sy, 13, 1) == spec_solar_days_before_year(sy)
            + spec_solar_year_len(sy) - 34);
    }
    assert(a < spec_solar_abs(sy, sm + 1, 1));
    let rd = a - spec_solar_abs(sy, sm, 1) + 1;
    assert(1 <= rd <= spec_solar_month_len(sy, sm));
    assert(spec_solar_abs(sy, sm, rd) == a);
    let sd = rd + if sy == 1582 && sm == 10 && rd > 4 {
        10int
    } else {
        0int
    };
    // the recovered date passes the validator
    crate::lunar::lemma_lunar_months_walk_bounds(year, month);
    lemma_lunar_days_before_year_bounds(year);
    assert(a >= 1);
    if sy == 1391 {
        lemma_year_1391_values();
        assert(spec_solar_abs(1391, 2, 1) == -3);
        assert(sm >= 2);
        if sm == 2 {
            assert(sd == rd && rd >= 5);
        }
    }
    assert(spec_check_valid(false, false, sy, sm, sd));
}

} // verus!
