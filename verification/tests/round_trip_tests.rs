use korean_lunar_calendar::LunarSolarConverter;

#[test]
fn test_solar_round_trip_returns_the_date() {
    let mut converter = LunarSolarConverter::new();
    assert!(converter.set_solar_date(2022, 7, 10));
    let (ly, lm, ld, ic) = (
        converter.lunar_year(),
        converter.lunar_month(),
        converter.lunar_day(),
        converter.is_intercalation(),
    );
    assert!(converter.set_lunar_date(ly, lm, ld, ic));
    assert_eq!(converter.solar_year(), 2022);
    assert_eq!(converter.solar_month(), 7);
    assert_eq!(converter.solar_day(), 10);
}

#[test]
fn test_lunar_round_trip_keeps_intercalation() {
    let mut converter = LunarSolarConverter::new();
    assert!(converter.set_lunar_date(2023, 2, 15, true));
    let (sy, sm, sd) = (
        converter.solar_year(),
        converter.solar_month(),
        converter.solar_day(),
    );
    assert_eq!((sy, sm, sd), (2023, 4, 5));
    assert!(converter.set_solar_date(sy, sm, sd));
    assert_eq!(converter.lunar_year(), 2023);
    assert_eq!(converter.lunar_month(), 2);
    assert_eq!(converter.lunar_day(), 15);
    assert!(converter.is_intercalation());
}

#[test]
fn test_intercalary_and_regular_month_differ() {
    let mut converter = LunarSolarConverter::new();
    assert!(converter.set_lunar_date(2023, 2, 15, true));
    let intercalary_solar = converter.get_solar_iso_format();
    assert!(converter.set_lunar_date(2023, 2, 15, false));
    let regular_solar = converter.get_solar_iso_format();
    assert_eq!(regular_solar, "2023-03-06");
    assert_eq!(intercalary_solar, "2023-04-05");
    assert_ne!(intercalary_solar, regular_solar);
}

#[test]
fn test_lunar_minimum_maps_to_solar_minimum() {
    let mut converter = LunarSolarConverter::new();
    assert!(converter.set_lunar_date(1391, 1, 1, false));
    assert_eq!(converter.get_solar_iso_format(), "1391-02-05");
    assert!(converter.set_solar_date(1391, 2, 5));
    assert_eq!(converter.get_lunar_iso_format(), "1391-01-01");
}

#[test]
fn test_lunar_maximum_maps_to_solar_maximum() {
    let mut converter = LunarSolarConverter::new();
    assert!(converter.set_lunar_date(2050, 11, 18, false));
    assert_eq!(converter.get_solar_iso_format(), "2050-12-31");
    assert!(converter.set_solar_date(2050, 12, 31));
    assert_eq!(converter.get_lunar_iso_format(), "2050-11-18");
}

#[test]
fn test_dates_past_the_bounds_are_rejected() {
    let mut converter = LunarSolarConverter::new();
    assert!(!converter.set_lunar_date(2050, 11, 19, false));
    assert!(!converter.set_solar_date(2051, 1, 1));
    assert!(!converter.set_solar_date(1391, 2, 4));
    assert!(!converter.set_lunar_date(1390, 12, 29, false));
}

#[test]
fn test_rejected_date_keeps_the_state() {
    let mut converter = LunarSolarConverter::new();
    assert!(converter.set_solar_date(2022, 7, 10));
    assert!(!converter.set_solar_date(1582, 10, 10));
    assert!(!converter.set_lunar_date(2022, 6, 12, true));
    assert_eq!(converter.get_solar_iso_format(), "2022-07-10");
    assert_eq!(converter.get_lunar_iso_format(), "2022-06-12");
}

#[test]
fn test_day_zero_and_month_thirteen_are_rejected() {
    let mut converter = LunarSolarConverter::new();
    assert!(!converter.set_solar_date(2022, 7, 0));
    assert!(!converter.set_solar_date(2022, 13, 1));
    assert!(!converter.set_lunar_date(2022, 0, 1, false));
    assert!(!converter.set_lunar_date(2022, 6, 31, false));
}

#[test]
fn test_days_around_the_reform_gap() {
    let mut converter = LunarSolarConverter::new();
    assert!(converter.set_solar_date(1582, 10, 4));
    assert_eq!(converter.get_lunar_iso_format(), "1582-09-18");
    assert!(!converter.set_solar_date(1582, 10, 5));
    assert!(!converter.set_solar_date(1582, 10, 14));
    assert!(converter.set_solar_date(1582, 10, 15));
    assert_eq!(converter.get_lunar_iso_format(), "1582-09-29");
}

#[test]
fn test_lunar_month_lengths_fill_the_year() {
    // the twelve month lengths of 2022, which has no intercalary month, add
    // up to the distance between its new year and the next on the day axis
    let mut total: i64 = 0;
    for month in 1..=12u32 {
        total += LunarSolarConverter::get_lunar_days(2022, month, false) as i64;
    }
    assert_eq!(LunarSolarConverter::get_lunar_intercalary_month(2022), None);
    let span = LunarSolarConverter::get_lunar_abs_days(2023, 1, 1, false)
        - LunarSolarConverter::get_lunar_abs_days(2022, 1, 1, false);
    assert_eq!(total, span);
    assert_eq!(total, 355);
}

#[test]
fn test_lunar_month_lengths_fill_an_intercalary_year() {
    let mut total: i64 = 0;
    for month in 1..=12u32 {
        total += LunarSolarConverter::get_lunar_days(2023, month, false) as i64;
    }
    let leap = LunarSolarConverter::get_lunar_intercalary_month(2023).unwrap();
    total += LunarSolarConverter::get_lunar_days(2023, leap, true) as i64;
    let span = LunarSolarConverter::get_lunar_abs_days(2024, 1, 1, false)
        - LunarSolarConverter::get_lunar_abs_days(2023, 1, 1, false);
    assert_eq!(total, span);
}

#[test]
fn test_solar_month_lengths_fill_the_year() {
    // the civil months of 1582 fill its shortened year of 355 days
    let mut total: i64 = 0;
    for month in 1..=12u32 {
        total += LunarSolarConverter::get_solar_days(1582, month) as i64;
    }
    let span = LunarSolarConverter::get_solar_abs_days(1583, 1, 1)
        - LunarSolarConverter::get_solar_abs_days(1582, 1, 1);
    assert_eq!(total, span);
    assert_eq!(total, 355);
}

#[test]
fn test_gapja_marks_an_intercalary_month() {
    let mut converter = LunarSolarConverter::new();
    assert!(converter.set_lunar_date(2023, 2, 15, true));
    let gapja = converter.get_gapja_string();
    assert!(
        gapja.ends_with(" (\u{c724}\u{c6d4})"),
        "hangul gapja must carry the intercalation marker: {:?}",
        gapja
    );
    let chinese = converter.get_chinese_gapja_string();
    assert!(
        chinese.ends_with(" (\u{958f}\u{6708})"),
        "hanzi gapja must carry the intercalation marker: {:?}",
        chinese
    );
    let lunar = converter.get_lunar_iso_format();
    assert_eq!(lunar, "2023-02-15 Intercalation");
}

#[test]
fn test_fresh_converter_renders_zero_dates() {
    let converter = LunarSolarConverter::new();
    assert_eq!(converter.get_solar_iso_format(), "0000-00-00");
    assert_eq!(converter.get_lunar_iso_format(), "0000-00-00");
}
