use forecast_inference::{
    calc_day_of_season_for, parse_date, season_of_month, CalendarDate, InferenceError, Season,
};

#[test]
fn june_fifteenth_is_summer_day_fifteen() {
    let date = parse_date("2024-06-15").unwrap();
    assert_eq!(date, CalendarDate { year: 2024, month: 6, day: 15 });
    assert_eq!(season_of_month(date.month), Ok(Season::Summer));
    assert_eq!(calc_day_of_season_for(date.month, date.day), Ok(15));
}

#[test]
fn november_fifth_is_autumn_day_thirty_six() {
    let date = parse_date("2024-11-05").unwrap();
    assert_eq!(season_of_month(date.month), Ok(Season::Autumn));
    assert_eq!(calc_day_of_season_for(date.month, date.day), Ok(36));
}

#[test]
fn month_thirteen_is_invalid_month() {
    assert_eq!(parse_date("2024-13-01"), Err(InferenceError::InvalidMonth));
    assert_eq!(parse_date("2024-00-10"), Err(InferenceError::InvalidMonth));
}

#[test]
fn malformed_dates_are_invalid() {
    assert_eq!(parse_date("2024/06/15"), Err(InferenceError::InvalidDate));
    assert_eq!(parse_date("2024-6-15"), Err(InferenceError::InvalidDate));
    assert_eq!(parse_date(""), Err(InferenceError::InvalidDate));
    assert_eq!(parse_date("2024-06-1x"), Err(InferenceError::InvalidDate));
    assert_eq!(parse_date("2024-06-15 "), Err(InferenceError::InvalidDate));
}

#[test]
fn nonexistent_days_are_invalid() {
    assert_eq!(parse_date("2024-02-30"), Err(InferenceError::InvalidDate));
    assert_eq!(parse_date("2023-02-29"), Err(InferenceError::InvalidDate));
    assert_eq!(parse_date("1900-02-29"), Err(InferenceError::InvalidDate));
    assert_eq!(parse_date("2024-04-31"), Err(InferenceError::InvalidDate));
    assert_eq!(parse_date("2024-01-00"), Err(InferenceError::InvalidDate));
    assert_eq!(
        parse_date("2024-02-29"),
        Ok(CalendarDate { year: 2024, month: 2, day: 29 })
    );
    assert_eq!(
        parse_date("2000-02-29"),
        Ok(CalendarDate { year: 2000, month: 2, day: 29 })
    );
}

#[test]
fn every_month_has_one_season() {
    let expected = [
        Season::Winter,
        Season::Winter,
        Season::Spring,
        Season::Spring,
        Season::Spring,
        Season::Summer,
        Season::Summer,
        Season::Summer,
        Season::Autumn,
        Season::Autumn,
        Season::Autumn,
        Season::Winter,
    ];
    for m in 1..=12u32 {
        assert_eq!(season_of_month(m), Ok(expected[(m - 1) as usize]));
    }
    assert_eq!(season_of_month(0), Err(InferenceError::InvalidMonth));
    assert_eq!(season_of_month(13), Err(InferenceError::InvalidMonth));
}

#[test]
fn day_of_season_follows_offset_table() {
    let offsets = [31u32, 62, 0, 31, 61, 0, 30, 61, 0, 30, 31, 0];
    for m in 1..=12u32 {
        assert_eq!(calc_day_of_season_for(m, 1), Ok(1 + offsets[(m - 1) as usize]));
    }
    assert_eq!(calc_day_of_season_for(2, 28), Ok(90));
    assert_eq!(calc_day_of_season_for(13, 1), Err(InferenceError::InvalidMonth));
}

#[test]
fn error_kinds_split_input_from_internal() {
    assert!(InferenceError::InvalidDate.is_input_error());
    assert!(InferenceError::InvalidMonth.is_input_error());
    assert!(InferenceError::MissingBaseVector.is_input_error());
    assert!(!InferenceError::ModelExecutionError.is_input_error());
}
