use korean_lunar_calendar::{DayOfWeek, LunarSolarConverter};

#[test]
fn test_get_julian_day_number_gregorian() {
    let jdn = LunarSolarConverter::get_julian_day_number(2022, 7, 10);
    let want = Some(2459771);
    assert_eq!(
        jdn, want,
        "Expected JDN {:?} for 2022-07-10, got {:?}",
        want, jdn
    );
}

#[test]
fn test_get_julian_day_number_julian() {
    let jdn = LunarSolarConverter::get_julian_day_number(1500, 3, 1);
    let want = Some(2268993);
    assert_eq!(
        jdn, want,
        "Expected JDN {:?} for 1500-03-01, got {:?}",
        want, jdn
    );
}

#[test]
fn test_get_julian_day_number_reform_before() {
    let jdn = LunarSolarConverter::get_julian_day_number(1582, 10, 4);
    let want = Some(2299160);
    assert_eq!(
        jdn, want,
        "Expected JDN {:?} for 1582-10-04, got {:?}",
        want, jdn
    );
}

#[test]
fn test_get_julian_day_number_reform_after() {
    let jdn = LunarSolarConverter::get_julian_day_number(1582, 10, 15);
    let want = Some(2299161);
    assert_eq!(
        jdn, want,
        "Expected JDN {:?} for 1582-10-15, got {:?}",
        want, jdn
    );
}

#[test]
fn test_get_julian_day_number_min_date() {
    let jdn = LunarSolarConverter::get_julian_day_number(1391, 2, 5);
    let want = Some(2229156);
    assert_eq!(
        jdn, want,
        "Expected JDN {:?} for 1391-02-05, got {:?}",
        want, jdn
    );
}

#[test]
fn test_get_julian_day_number_invalid_gap() {
    let jdn = LunarSolarConverter::get_julian_day_number(1582, 10, 10);
    assert_eq!(
        jdn, None,
        "Expected None for invalid date 1582-10-10 (Gregorian gap)"
    );
}

#[test]
fn test_get_julian_day_number_invalid_range_before() {
    let jdn = LunarSolarConverter::get_julian_day_number(1391, 2, 4);
    let want = Some(2229155);
    assert_eq!(
        jdn, want,
        "Expected JDN {:?} for 1391-02-04, got {:?}",
        want, jdn
    );
}

#[test]
fn test_get_julian_day_number_invalid_range_after() {
    let jdn = LunarSolarConverter::get_julian_day_number(2051, 1, 1);
    let want = Some(2470173);
    assert_eq!(
        jdn, want,
        "Expected JDN {:?} for 2051-01-01, got {:?}",
        want, jdn
    );
}

#[test]
fn test_get_day_of_week_monday() {
    let dow = LunarSolarConverter::get_day_of_week(2022, 7, 11);
    let want = Some(DayOfWeek::Monday);
    assert_eq!(
        dow, want,
        "Expected {:?} for 2022-07-11, got {:?}",
        want, dow
    );
}

#[test]
fn test_get_day_of_week_sunday() {
    let dow = LunarSolarConverter::get_day_of_week(2022, 7, 10);
    let want = Some(DayOfWeek::Sunday);
    assert_eq!(
        dow, want,
        "Expected {:?} for 2022-07-10, got {:?}",
        want, dow
    );
}

#[test]
fn test_get_day_of_week_reform_before() {
    let result = LunarSolarConverter::get_day_of_week(1582, 10, 4);
    assert_eq!(result, Some(DayOfWeek::Thursday));
}

#[test]
fn test_get_day_of_week_reform_after() {
    let result = LunarSolarConverter::get_day_of_week(1582, 10, 15);
    assert_eq!(result, Some(DayOfWeek::Friday));
}

#[test]
fn test_get_day_of_week_invalid_gap() {
    let dow = LunarSolarConverter::get_day_of_week(1582, 10, 10);
    assert_eq!(dow, None, "Expected None for invalid date 1582-10-10");
}

#[test]
fn test_jdn_steps_by_one_across_month_ends() {
    // consecutive civil days, across a month end, a year end, and a leap
    // February, differ by one JDN
    let pairs = [
        ((2022, 2, 28), (2022, 3, 1)),
        ((2024, 2, 29), (2024, 3, 1)),
        ((1900, 2, 28), (1900, 3, 1)),
        ((2000, 2, 29), (2000, 3, 1)),
        ((2022, 12, 31), (2023, 1, 1)),
        ((2022, 7, 31), (2022, 8, 1)),
        ((1500, 2, 29), (1500, 3, 1)),
    ];
    for ((y1, m1, d1), (y2, m2, d2)) in pairs {
        let a = LunarSolarConverter::get_julian_day_number(y1, m1, d1).unwrap();
        let b = LunarSolarConverter::get_julian_day_number(y2, m2, d2).unwrap();
        assert_eq!(b, a + 1, "JDN must step by one from {:?}", (y1, m1, d1));
    }
}

#[test]
fn test_day_of_week_repeats_every_seven_days() {
    let first = LunarSolarConverter::get_day_of_week(2022, 7, 10);
    let again = LunarSolarConverter::get_day_of_week(2022, 7, 17);
    assert_eq!(first, again, "the weekday must repeat after seven days");
    assert_eq!(first, Some(DayOfWeek::Sunday));
}
