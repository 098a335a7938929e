use vstd::prelude::*;
use crate::align::lemma_year_aligned;
use crate::convert::{
    lemma_lunar_recover, lemma_lunar_to_solar, lemma_lunar_within_year, lemma_solar_abs_in_year,
    lemma_solar_recover, lemma_solar_to_lunar, lemma_valid_lunar_bounds, lemma_valid_solar_bounds,
    spec_check_valid, spec_conv_intercalation, spec_lunar_month_search, spec_lunar_year_of_abs,
    spec_solar_month_search, spec_solar_year_of_abs,
};
use crate::lunar::{
    spec_lunar_abs, spec_lunar_days_before_year, spec_lunar_month_len, spec_lunar_year_len,
    spec_regular_months_sum,
};
use crate::solar::{
    spec_solar_abs, spec_solar_days_before_year, spec_solar_month_len, spec_solar_months_walk,
    spec_solar_year_len,
};
use crate::table::{spec_leap_index, spec_lunar_word};

verus! {

/// A valid civil date, set and read back through the lunar side, returns
/// unchanged: converting its day index to a lunar date and that lunar date's
/// index back to a civil date gives the date itself. The civil days of
/// October 1582 after the reform gap are the one exception the mapping
/// cannot return to, and stay out.
pub proof fn lemma_solar_round_trip(year: int, month: int, day: int)
    requires
        spec_check_valid(false, false, year, month, day),
        !(year == 1582 && month == 10 && day >= 15),
    ensures
        ({
            let a = spec_solar_abs(year, month, day);
            let ly = spec_lunar_year_of_abs(year, a);
            let lm = spec_lunar_month_search(ly, a, 12);
            let ic = spec_conv_intercalation(ly, lm, a);
            let ld = a - spec_lunar_abs(ly, lm, 1, ic) + 1;
            let a2 = spec_lunar_abs(ly, lm, ld, ic);
            let sy = spec_solar_year_of_abs(ly, a2);
            let sm = spec_solar_month_search(sy, a2, 12);
            let rd = a2 - spec_solar_abs(sy, sm, 1) + 1;
            &&& spec_check_valid(true, ic, ly, lm, ld)
            &&& a2 == a
            &&& sy == year
            &&& sm == month
            &&& rd + (if sy == 1582 && sm == 10 && rd > 4 {
                10int
            } else {
                0int
            }) == day
        }),
{
    let a = spec_solar_abs(year, month, day);
    lemma_valid_solar_bounds(year, month, day);
    lemma_solar_to_lunar(year, month, day);
    let ly = spec_lunar_year_of_abs(year, a);
    lemma_solar_abs_in_year(year, month, day);
    // the chosen civil year is the date's own year again
    assert(spec_solar_days_before_year(year + 1) == spec_solar_days_before_year(year)
        + spec_solar_year_len(year));
    assert(spec_solar_year_of_abs(ly, a) == year);
    // the descending civil search recovers month and day
    lemma_solar_recover(year, month, day);
}

/// A valid lunar date, set and read back through the civil side, returns
/// unchanged, intercalary flag included. The lunar days whose civil image
/// falls in October 1582 after the reform gap are the one exception the
/// mapping cannot return to, and stay out.
pub proof fn lemma_lunar_round_trip(year: int, month: int, day: int, is_intercalation: bool)
    requires
        spec_check_valid(true, is_intercalation, year, month, day),
        !(spec_solar_abs(1582, 10, 5) <= spec_lunar_abs(year, month, day, is_intercalation)
            <= spec_solar_abs(1582, 10, 21)),
    ensures
        ({
            let a = spec_lunar_abs(year, month, day, is_intercalation);
            let sy = spec_solar_year_of_abs(year, a);
            let sm = spec_solar_month_search(sy, a, 12);
            let rd = a - spec_solar_abs(sy, sm, 1) + 1;
            let sd = rd + if sy == 1582 && sm == 10 && rd > 4 {
                10int
            } else {
                0int
            };
            let a2 = spec_solar_abs(sy, sm, sd);
            let ly = spec_lunar_year_of_abs(sy, a2);
            let lm = spec_lunar_month_search(ly, a2, 12);
            let ic = spec_conv_intercalation(ly, lm, a2);
            &&& spec_check_valid(false, false, sy, sm, sd)
            &&& sd == rd
            &&& a2 == a
            &&& ly == year
            &&& lm == month
            &&& ic == is_intercalation
            &&& a2 - spec_lunar_abs(ly, lm, 1, ic) + 1 == day
        }),
{
    let a = spec_lunar_abs(year, month, day, is_intercalation);
    lemma_valid_lunar_bounds(is_intercalation, year, month, day);
    lemma_lunar_to_solar(year, month, day, is_intercalation);
    let sy = spec_solar_year_of_abs(year, a);
    let sm = spec_solar_month_search(sy, a, 12);
    let rd = a - spec_solar_abs(sy, sm, 1) + 1;
    // the day is stored raw: an adjusted one would put the index into the
    // window this law keeps out
    if sy == 1582 && sm == 10 && rd > 4 {
        crate::convert::lemma_solar_month_base_step(1582, 10);
        assert(spec_solar_abs(1582, 10, 5) <= a <= spec_solar_abs(1582, 10, 21));
    }
    // the chosen lunar year is the date's own year again
    lemma_lunar_within_year(year, month, is_intercalation);
    assert(spec_lunar_days_before_year(year + 1) == spec_lunar_days_before_year(year)
        + spec_lunar_year_len(year));
    assert(spec_lunar_year_of_abs(sy, a) == year);
    // the descending lunar search recovers month, flag and day
    lemma_lunar_recover(year, month, day, is_intercalation);
}

/// Sum of the lengths of the regular months 1..=month of a year, by the
/// month-length function itself.
pub open spec fn spec_lunar_months_total(year: int, month: int) -> int
    decreases month,
{
    if month <= 0 {
        0
    } else {
        spec_lunar_months_total(year, month - 1) + spec_lunar_month_len(year, month, false)
    }
}

proof fn lemma_lunar_months_total_is_sum(year: int, month: int)
    requires
        1391 <= year,
        spec_lunar_word(year) != 0u32,
        0 <= month <= 12,
    ensures
        spec_lunar_months_total(year, month) == spec_regular_months_sum(
            spec_lunar_word(year),
            month,
        ),
    decreases month,
{
    if month > 0 {
        lemma_lunar_months_total_is_sum(year, month - 1);
    }
}

/// The twelve regular month lengths of a covered lunar year, plus its
/// intercalary month's length when it has one, add up to the distance between
/// its new year and the next on the shared axis.
pub proof fn lemma_lunar_month_lengths_consistent(year: int)
    requires
        1391 <= year <= 2050,
    ensures
        spec_lunar_months_total(year, 12) + (if spec_leap_index(spec_lunar_word(year)) > 0 {
            spec_lunar_month_len(year, spec_leap_index(spec_lunar_word(year)), true)
        } else {
            0int
        }) == spec_lunar_abs(year + 1, 1, 1, false) - spec_lunar_abs(year, 1, 1, false),
{
    lemma_year_aligned(year);
    lemma_lunar_months_total_is_sum(year, 12);
    crate::lunar::lemma_year_len_is_months_sum(year);
    assert(spec_lunar_days_before_year(year + 1) == spec_lunar_days_before_year(year)
        + spec_lunar_year_len(year));
}

/// The twelve civil month lengths of a year add up to the distance between
/// its new year and the next on the shared axis; 1582, shortened by the
/// reform, keeps 355 days.
#[verifier::rlimit(50)]
pub proof fn lemma_solar_month_lengths_consistent(year: int)
    requires
        1391 <= year <= 2050,
    ensures
        spec_solar_months_walk(year, 13) == spec_solar_abs(year + 1, 1, 1) - spec_solar_abs(
            year,
            1,
            1,
        ),
        spec_solar_year_len(1582) == 355,
{
    crate::convert::lemma_solar_walk_full_year(year);
    assert(crate::solar::spec_solar_days_before_year(year + 1)
        == crate::solar::spec_solar_days_before_year(year) + spec_solar_year_len(year));
}

/// An intercalary request for a month that is not the year's intercalary
/// slot never validates.
pub proof fn lemma_intercalation_rejected(year: int, month: int, day: int)
    requires
        spec_leap_index(spec_lunar_word(year)) != month,
    ensures
        !spec_check_valid(true, true, year, month, day),
{
}

/// The ten days removed in the Gregorian reform never validate on the civil
/// side.
pub proof fn lemma_reform_window_rejected(day: int)
    requires
        5 <= day <= 14,
    ensures
        !spec_check_valid(false, false, 1582, 10, day),
{
}

} // verus!
