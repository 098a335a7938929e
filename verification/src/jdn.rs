use vstd::prelude::*;
use vstd::arithmetic::div_mod::{lemma_fundamental_div_mod, lemma_fundamental_div_mod_converse};
use crate::convert::{lemma_valid_solar_bounds, spec_check_valid};
use crate::solar::spec_solar_month_len;

verus! {

/// Civil day of the week, by the day's Julian Day Number modulo seven.
#[derive(Debug, PartialEq, Eq, Copy, Clone)]
pub enum DayOfWeek {
    Monday,
    Tuesday,
    Wednesday,
    Thursday,
    Friday,
    Saturday,
    Sunday,
}

/// A date on or after 1582-10-15, counted by the Gregorian calendar.
pub open spec fn spec_is_gregorian_date(year: int, month: int, day: int) -> bool {
    year > 1582 || (year == 1582 && month > 10) || (year == 1582 && month == 10 && day >= 15)
}

/// Julian Day Number of a civil date, by the usual integer formula: January
/// and February count as months 13 and 14 of the year before, and the
/// century correction applies to Gregorian dates only.
pub open spec fn spec_jdn(year: int, month: int, day: int) -> int {
    let ay = if month <= 2 {
        year - 1
    } else {
        year
    };
    let am = if month <= 2 {
        month + 12
    } else {
        month
    };
    let base = (1461 * (ay + 4716)) / 4 + (153 * (am + 1)) / 5 + day;
    let b = if spec_is_gregorian_date(year, month, day) {
        2 - ay / 100 + (ay / 100) / 4
    } else {
        0int
    };
    base + b - 1524
}

/// Inputs the JDN function refuses: the ten days removed in the Gregorian
/// reform, and month or day numbers outside the calendar's shape.
pub open spec fn spec_jdn_rejected(year: int, month: int, day: int) -> bool {
    (year == 1582 && month == 10 && 4 < day < 15) || month == 0 || month > 12 || day == 0 || day
        > 31
}

/// Julian Day Number of a civil date; absent exactly on the refused inputs.
/// The result is the formula's value reduced to the integer's width, so every
/// date of the supported years keeps the exact value; only year numbers in
/// the millions, whose JDN passes that width, wrap.
pub fn get_julian_day_number(year: u32, month: u32, day: u32) -> (r: Option<u32>)
    ensures
        r is Some <==> !spec_jdn_rejected(year as int, month as int, day as int),
        r is Some ==> 0 <= spec_jdn(year as int, month as int, day as int),
        r is Some ==> r.unwrap() == spec_jdn(year as int, month as int, day as int)
            % 0x1_0000_0000,
        (r is Some && spec_jdn(year as int, month as int, day as int) <= u32::MAX) ==> r.unwrap()
            == spec_jdn(year as int, month as int, day as int),
{
    if year == 1582 && month == 10 && day > 4 && day < 15 {
        return None;
    }
    if month == 0 || month > 12 || day == 0 || day > 31 {
        return None;
    }
    let adjusted: u64 = if month <= 2 {
        year as u64 + 4715
    } else {
        year as u64 + 4716
    };
    let am: u64 = if month <= 2 {
        month as u64 + 12
    } else {
        month as u64
    };
    let base: u64 = 1461 * adjusted / 4 + 153 * (am + 1) / 5 + day as u64;
    let gregorian = year > 1582 || (year == 1582 && month > 10) || (year == 1582 && month == 10
        && day >= 15);
    let b: i64 = if gregorian {
        let t: i64 = ((year as u64 - if month <= 2 {
            1
        } else {
            0
        }) / 100) as i64;
        2 - t + t / 4
    } else {
        0
    };
    proof {
        assert(4 * (1461 * (adjusted as int) / 4) + 4 > 1461 * (adjusted as int) - 4) by (nonlinear_arith);
    }
    let jdn: u64 = (base as i64 + b - 1524) as u64;
    proof {
        assert((jdn as u32) as u64 == jdn % 0x1_0000_0000u64) by (bit_vector);
    }
    Some(#[verifier::truncate] (jdn as u32))
}

/// The weekday a Julian Day Number falls on: numbers divisible by seven are
/// Mondays.
pub open spec fn spec_day_of_week(jdn: int) -> DayOfWeek {
    let r = jdn % 7;
    if r == 0 {
        DayOfWeek::Monday
    } else if r == 1 {
        DayOfWeek::Tuesday
    } else if r == 2 {
        DayOfWeek::Wednesday
    } else if r == 3 {
        DayOfWeek::Thursday
    } else if r == 4 {
        DayOfWeek::Friday
    } else if r == 5 {
        DayOfWeek::Saturday
    } else {
        DayOfWeek::Sunday
    }
}

/// Day of the week of a civil date: the weekday of the JDN the sibling
/// function returns. Absent exactly where the JDN is.
pub fn get_day_of_week(year: u32, month: u32, day: u32) -> (r: Option<DayOfWeek>)
    ensures
        r is Some <==> !spec_jdn_rejected(year as int, month as int, day as int),
        r is Some ==> r.unwrap() == spec_day_of_week(
            spec_jdn(year as int, month as int, day as int) % 0x1_0000_0000,
        ),
        (r is Some && spec_jdn(year as int, month as int, day as int) <= u32::MAX) ==> r.unwrap()
            == spec_day_of_week(spec_jdn(year as int, month as int, day as int)),
{
    match get_julian_day_number(year, month, day) {
        None => None,
        Some(jdn) => Some(
            match jdn % 7 {
                0 => DayOfWeek::Monday,
                1 => DayOfWeek::Tuesday,
                2 => DayOfWeek::Wednesday,
                3 => DayOfWeek::Thursday,
                4 => DayOfWeek::Friday,
                5 => DayOfWeek::Saturday,
                _ => DayOfWeek::Sunday,
            },
        ),
    }
}

/// The weekday mapping repeats every seven days, starting from Monday at
/// every multiple of seven.
pub proof fn lemma_day_of_week_cycle(jdn: int)
    ensures
        spec_day_of_week(jdn) == spec_day_of_week(jdn + 7),
        jdn % 7 == 0 ==> spec_day_of_week(jdn) == DayOfWeek::Monday,
        jdn % 7 == 6 ==> spec_day_of_week(jdn) == DayOfWeek::Sunday,
{
    assert((jdn + 7) % 7 == jdn % 7) by (nonlinear_arith);
}

/// The civil day after a date: the next day of the month, day 15 after
/// 1582-10-04, or the first day of the next month or year.
pub open spec fn spec_next_solar_date(year: int, month: int, day: int) -> (int, int, int) {
    if year == 1582 && month == 10 && day == 4 {
        (1582, 10, 15)
    } else if day < spec_solar_month_len(year, month) + (if year == 1582 && month == 10 {
        10int
    } else {
        0int
    }) {
        (year, month, day + 1)
    } else if month < 12 {
        (year, month + 1, 1)
    } else {
        (year + 1, 1, 1)
    }
}

/// Stepping an integer by one moves its quotient up exactly at the
/// divisor's boundary.
proof fn lemma_div_step(x: int, d: int)
    requires
        d > 0,
    ensures
        (x + 1) / d == x / d + if x % d == d - 1 {
            1int
        } else {
            0int
        },
{
    lemma_fundamental_div_mod(x, d);
    if x % d == d - 1 {
        assert(x + 1 == (x / d + 1) * d + 0) by (nonlinear_arith)
            requires
                x == d * (x / d) + (x % d),
                x % d == d - 1,
        ;
        lemma_fundamental_div_mod_converse(x + 1, d, x / d + 1, 0);
    } else {
        assert(x + 1 == (x / d) * d + (x % d + 1)) by (nonlinear_arith)
            requires
                x == d * (x / d) + (x % d),
        ;
        lemma_fundamental_div_mod_converse(x + 1, d, x / d, x % d + 1);
    }
}

/// The four-year term of the JDN formula grows by 365 days a year, and by
/// one more across a fourth year.
proof fn lemma_quarter_term_step(q: int)
    ensures
        1461 * (q + 1) / 4 == 1461 * q / 4 + 365 + if q % 4 == 3 {
            1int
        } else {
            0int
        },
{
    lemma_fundamental_div_mod(q, 4);
    lemma_fundamental_div_mod_converse(1461 * q, 4, 365 * q + q / 4, q % 4);
    lemma_div_step(1461 * q, 4);
    lemma_fundamental_div_mod(1461 * q + 1, 4);
    lemma_fundamental_div_mod_converse(
        1461 * q + 1461,
        4,
        (1461 * q + 1) / 4 + 365,
        (1461 * q + 1) % 4,
    );
}

/// How the century correction moves from one year to the next: it is
/// unchanged off century boundaries, and drops by one at centuries that are
/// not fourth centuries.
proof fn lemma_century_term_step(y: int)
    requires
        y >= 1,
    ensures
        ({
            let t1 = (y - 1) / 100;
            let t2 = y / 100;
            (2 - t2 + t2 / 4) - (2 - t1 + t1 / 4) == if y % 100 == 0 {
                (if y % 400 == 0 {
                    0int
                } else {
                    -1int
                })
            } else {
                0int
            }
        }),
{
    let t2 = y / 100;
    lemma_fundamental_div_mod(y, 100);
    if y % 100 == 0 {
        lemma_fundamental_div_mod_converse(y - 1, 100, t2 - 1, 99);
        lemma_fundamental_div_mod(t2, 4);
        lemma_fundamental_div_mod_converse(y, 400, t2 / 4, 100 * (t2 % 4));
        if t2 % 4 == 0 {
            lemma_fundamental_div_mod_converse(t2 - 1, 4, t2 / 4 - 1, 3);
        } else {
            lemma_fundamental_div_mod_converse(t2 - 1, 4, t2 / 4, t2 % 4 - 1);
        }
    } else {
        lemma_fundamental_div_mod_converse(y - 1, 100, t2, y % 100 - 1);
    }
}

/// Within the supported range the JDN walks the civil days one by one: the
/// day after a valid date has the next JDN. The one jump the formula makes,
/// from 1582-10-04 to 1582-10-15, is also a single step.
pub proof fn lemma_jdn_steps_by_one(year: int, month: int, day: int)
    requires
        spec_check_valid(false, false, year, month, day),
    ensures
        ({
            let (y2, m2, d2) = spec_next_solar_date(year, month, day);
            spec_jdn(y2, m2, d2) == spec_jdn(year, month, day) + 1
        }),
{
    lemma_valid_solar_bounds(year, month, day);
    let (y2, m2, d2) = spec_next_solar_date(year, month, day);
    if year == 1582 && month == 10 && day == 4 {
        // across the removed days: the Gregorian correction of -10 sets in
        assert(spec_jdn(1582, 10, 15) == spec_jdn(1582, 10, 4) + 1);
    } else if d2 == day + 1 {
        // within a month only the day term moves; the correction is fixed,
        // both sides of the gap in October 1582 included
        assert(spec_is_gregorian_date(year, month, day) == spec_is_gregorian_date(
            year,
            month,
            day + 1,
        ));
    } else if month == 2 {
        // the last of February: the four-year term and, from 1583 on, the
        // century correction move together with the leap rule
        let q = year + 4715;
        lemma_quarter_term_step(q);
        if year > 1582 {
            lemma_century_term_step(year);
        }
        assert(day == spec_solar_month_len(year, 2));
        assert(spec_jdn(y2, m2, d2) == spec_jdn(year, month, day) + 1);
    } else {
        // the last day of any other month: the month term grows by that
        // month's length
        assert(day == spec_solar_month_len(year, month) + if year == 1582 && month == 10 {
            10int
        } else {
            0int
        });
        if month == 1 {
            assert(spec_jdn(y2, m2, d2) == spec_jdn(year, month, day) + 1);
        } else if month == 12 {
            assert(spec_jdn(y2, m2, d2) == spec_jdn(year, month, day) + 1);
        } else {
            assert(3 <= month <= 11);
            assert(spec_jdn(y2, m2, d2) == spec_jdn(year, month, day) + 1);
        }
    }
}

} // verus!
