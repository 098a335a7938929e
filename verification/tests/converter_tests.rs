use korean_lunar_calendar::LunarSolarConverter;

#[test]
fn test_lunar_iso_format() {
    let mut converter = LunarSolarConverter::new();
    converter.set_solar_date(2022, 7, 10);
    let lunar = converter.get_lunar_iso_format();
    let want = "2022-06-12";

    println!("{}", lunar);

    assert_eq!(lunar, want, "got {:?} want {:?}", lunar, want);
}

#[test]
fn test_gapja_string() {
    let mut converter = LunarSolarConverter::new();
    converter.set_solar_date(2022, 7, 10);
    let lunar_gapja = converter.get_gapja_string();
    let want = "\u{c784}\u{c778}\u{b144} \u{c815}\u{bbf8}\u{c6d4} \u{ac11}\u{c790}\u{c77c}";

    println!("{}", lunar_gapja);

    assert_eq!(lunar_gapja, want, "got {:?} want {:?}", lunar_gapja, want);
}

#[test]
fn test_chinese_gapja_string() {
    let mut converter = LunarSolarConverter::new();
    converter.set_solar_date(2022, 7, 10);
    let lunar_chinese_gapja = converter.get_chinese_gapja_string();
    let want = "\u{58ec}\u{5bc5}\u{5e74} \u{4e01}\u{672a}\u{6708} \u{7532}\u{5b50}\u{65e5}";

    println!("{}", lunar_chinese_gapja);

    assert_eq!(
        lunar_chinese_gapja, want,
        "got {:?} want {:?}",
        lunar_chinese_gapja, want
    );
}

#[test]
fn test_solar_iso_format() {
    let mut converter = LunarSolarConverter::new();
    converter.set_lunar_date(2022, 6, 12, false);
    let solar = converter.get_solar_iso_format();
    let want = "2022-07-10";

    println!("{}", solar);

    assert_eq!(solar, want, "got {:?} want {:?}", solar, want);
}

#[test]
fn test_gapja_string_intercalation() {
    let mut converter = LunarSolarConverter::new();
    let is_valid = converter.set_lunar_date(2022, 6, 12, true);

    assert!(
        !is_valid,
        "Expected set_lunar_date to return false for non-existent intercalary month"
    );
}

#[test]
fn test_chinese_gapja_string_intercalation() {
    let mut converter = LunarSolarConverter::new();
    let is_valid = converter.set_lunar_date(2022, 6, 12, true);

    assert!(
        !is_valid,
        "Expected set_lunar_date to return false for non-existent intercalary month"
    );
}

#[test]
fn test_set_solar_date() {
    let mut converter = LunarSolarConverter::new();
    let is_valid = converter.set_solar_date(2022, 7, 10);

    assert!(is_valid, "Expected solar date to be valid");
    assert_eq!(converter.lunar_year(), 2022);
    assert_eq!(converter.lunar_month(), 6);
    assert_eq!(converter.lunar_day(), 12);
}

#[test]
fn test_set_lunar_date() {
    let mut converter = LunarSolarConverter::new();
    let is_valid = converter.set_lunar_date(2022, 6, 12, false);

    assert!(is_valid, "Expected lunar date to be valid");
    assert_eq!(converter.solar_year(), 2022);
    assert_eq!(converter.solar_month(), 7);
    assert_eq!(converter.solar_day(), 10);
}

#[test]
fn test_invalid_solar_date() {
    let mut converter = LunarSolarConverter::new();
    let is_valid = converter.set_solar_date(1582, 10, 10);

    assert!(!is_valid, "Expected solar date to be invalid");
}

#[test]
fn test_invalid_lunar_date() {
    let mut converter = LunarSolarConverter::new();
    let is_valid = converter.set_lunar_date(1390, 12, 31, false);

    assert!(!is_valid, "Expected lunar date to be invalid");
}

#[test]
fn test_get_lunar_days() {
    let days = LunarSolarConverter::get_lunar_days(2022, 6, false);

    assert_eq!(days, 30, "Expected 30 days for June 2022");
}

#[test]
fn test_get_lunar_days_invalid_month() {
    let days = LunarSolarConverter::get_lunar_days(2022, 13, false);

    assert_eq!(days, 0, "Expected 0 days for invalid month 2022");
}

#[test]
fn test_get_lunar_days_invalid_year() {
    let days = LunarSolarConverter::get_lunar_days(1390, 6, false);
    assert_eq!(days, 0, "Expected 0 days for invalid year 1390");
}

#[test]
fn test_get_lunar_days_past_table_end() {
    // years past the table's end have no word, so every month length is 0
    let days = LunarSolarConverter::get_lunar_days(2051, 6, false);
    assert_eq!(days, 0, "Expected 0 days for year 2051, past the table");
    let days = LunarSolarConverter::get_lunar_days(2051, 6, true);
    assert_eq!(days, 0, "Expected 0 days for year 2051, past the table");
}

#[test]
fn test_get_solar_days() {
    let days = LunarSolarConverter::get_solar_days(2022, 2);

    assert_eq!(days, 28, "Expected 28 days for February 2022");
}

#[test]
fn test_get_solar_days_invalid_month() {
    let days = LunarSolarConverter::get_solar_days(2022, 13);

    assert_eq!(days, 0, "Expected 0 days for invalid month 2022");
}

#[test]
fn test_get_lunar_abs_days() {
    let days = LunarSolarConverter::get_lunar_abs_days(2022, 6, 12, false);

    assert_eq!(days, 230616, "Expected 230616 absolute lunar days");
}

#[test]
fn test_get_lunar_abs_days_invalid_year() {
    let days = LunarSolarConverter::get_lunar_abs_days(1390, 6, 12, false);

    assert_eq!(
        days, 0,
        "Expected 0 absolute lunar days for invalid year 1390"
    );
}

#[test]
fn test_get_solar_abs_days() {
    let days = LunarSolarConverter::get_solar_abs_days(2022, 7, 10);

    assert_eq!(days, 230616, "Expected 230616 absolute solar days");
}

#[test]
fn test_get_solar_abs_days_invalid_year() {
    let days = LunarSolarConverter::get_solar_abs_days(1390, 7, 10);

    assert_eq!(
        days, 0,
        "Expected 0 absolute solar days for invalid year 1390"
    );
}

#[test]
fn test_invalid_date_for_get_gapja_string() {
    let mut converter = LunarSolarConverter::new();
    converter.set_lunar_date(1390, 12, 31, false);
    let gapja = converter.get_gapja_string();

    assert_eq!(gapja, "", "Expected empty string since the date is invalid");
}

#[test]
fn test_invalid_date_for_get_chinese_gapja_string() {
    let mut converter = LunarSolarConverter::new();
    converter.set_lunar_date(1390, 12, 31, false);
    let gapja = converter.get_chinese_gapja_string();

    assert_eq!(gapja, "", "Expected empty string since the date is invalid");
}

#[test]
fn test_is_solar_leap_year() {
    assert!(
        LunarSolarConverter::is_solar_leap_year(2024),
        "2024 should be a leap year"
    );
    assert!(
        !LunarSolarConverter::is_solar_leap_year(2023),
        "2023 should not be a leap year"
    );
    assert!(
        !LunarSolarConverter::is_solar_leap_year(1900),
        "1900 should not be a leap year"
    );
    assert!(
        LunarSolarConverter::is_solar_leap_year(2000),
        "2000 should be a leap year"
    );
    assert!(
        LunarSolarConverter::is_solar_leap_year(1500),
        "1500 should be a leap year (Julian)"
    );
    assert!(
        !LunarSolarConverter::is_solar_leap_year(1582),
        "1582 should not be a leap year"
    );
    assert!(
        LunarSolarConverter::is_solar_leap_year(1600),
        "1600 should be a leap year"
    );
}

#[test]
fn test_get_lunar_intercalary_month() {
    assert_eq!(
        LunarSolarConverter::get_lunar_intercalary_month(2023),
        Some(2),
        "Year 2023 should have intercalary month 2"
    );
    assert_eq!(
        LunarSolarConverter::get_lunar_intercalary_month(2020),
        Some(4),
        "Year 2020 should have intercalary month 4"
    );
    assert_eq!(
        LunarSolarConverter::get_lunar_intercalary_month(2022),
        None,
        "Year 2022 should not have an intercalary month"
    );
    assert_eq!(
        LunarSolarConverter::get_lunar_intercalary_month(1391),
        None,
        "Year 1391 should not have an intercalary month"
    );
}

#[test]
fn test_get_lunar_intercalary_month_out_of_range() {
    assert_eq!(
        LunarSolarConverter::get_lunar_intercalary_month(1390),
        None,
        "Year 1390 is out of range"
    );
    assert_eq!(
        LunarSolarConverter::get_lunar_intercalary_month(2051),
        None,
        "Year 2051 is out of range"
    );
}
