use forecast_inference::{
    DailyData, DailyUnits, ForecastResponse, HourlyData, HourlyUnits, InferenceError, Params,
    FEATURE_WIDTH, HOURS_PER_DAY,
};

fn units() -> HourlyUnits {
    let u = || String::from("u");
    HourlyUnits {
        time: u(),
        temperature_2m: u(),
        relative_humidity_2m: u(),
        precipitation: u(),
        cloud_cover: u(),
        wind_speed_10m: u(),
        sunshine_duration: u(),
        diffuse_radiation: u(),
        direct_normal_irradiance: u(),
        global_tilted_irradiance: u(),
        diffuse_radiation_instant: u(),
        direct_normal_irradiance_instant: u(),
        global_tilted_irradiance_instant: u(),
    }
}

fn series(base: f64, n: usize) -> Vec<f64> {
    (0..n).map(|i| base + i as f64).collect()
}

fn record(first_date: Option<&str>, n: usize) -> ForecastResponse<f64> {
    ForecastResponse {
        latitude: 52.5,
        longitude: 13.4,
        generationtime_ms: 0.1,
        utc_offset_seconds: 3600,
        timezone: String::from("Europe/Berlin"),
        timezone_abbreviation: String::from("CET"),
        elevation: 38.0,
        hourly_units: units(),
        hourly: HourlyData {
            time: Vec::new(),
            temperature_2m: series(100.0, n),
            relative_humidity_2m: series(200.0, n),
            precipitation: series(300.0, n),
            cloud_cover: series(400.0, n),
            wind_speed_10m: series(500.0, n),
            sunshine_duration: series(600.0, n),
            diffuse_radiation: series(700.0, n),
            direct_normal_irradiance: series(800.0, n),
            global_tilted_irradiance: series(900.0, n),
            diffuse_radiation_instant: series(1000.0, n),
            direct_normal_irradiance_instant: series(1100.0, n),
            global_tilted_irradiance_instant: series(1200.0, n),
        },
        daily_units: DailyUnits {
            time: String::from("iso8601"),
            sunrise: String::from("iso8601"),
            sunset: String::from("iso8601"),
            sunshine_duration: String::from("s"),
        },
        daily: DailyData {
            time: first_date.map(String::from).into_iter().collect(),
            sunrise: Vec::new(),
            sunset: Vec::new(),
            sunshine_duration: Vec::new(),
        },
    }
}

#[test]
fn features_follow_the_fixed_order() {
    let rows = record(Some("2024-11-05"), 24).to_feature_vec(0.0, |d| d as f64).unwrap();
    assert_eq!(rows.len(), HOURS_PER_DAY);
    let h = 7.0;
    assert_eq!(
        rows[7],
        vec![
            36.0,
            100.0 + h,
            300.0 + h,
            400.0 + h,
            600.0 + h,
            900.0 + h,
            500.0 + h,
            200.0 + h,
            700.0 + h,
            800.0 + h,
            1000.0 + h,
            1100.0 + h,
            1200.0 + h,
        ]
    );
}

#[test]
fn short_series_read_as_zero() {
    let rows = record(Some("2024-06-15"), 5).to_feature_vec(0.0, |d| d as f64).unwrap();
    assert_eq!(rows.len(), 24);
    for (i, row) in rows.iter().enumerate() {
        assert_eq!(row.len(), FEATURE_WIDTH);
        assert_eq!(row[0], 15.0);
        if i < 5 {
            assert_eq!(row[1], 100.0 + i as f64);
        } else {
            assert!(row[1..].iter().all(|v| *v == 0.0));
        }
    }
}

#[test]
fn empty_series_give_day_of_season_only() {
    let rows = record(Some("2024-02-10"), 0).to_feature_vec(0.0, |d| d as f64).unwrap();
    assert_eq!(rows.len(), 24);
    for row in &rows {
        assert_eq!(row[0], 72.0);
        assert!(row[1..].iter().all(|v| *v == 0.0));
    }
}

#[test]
fn bad_first_daily_date_fails() {
    let r = record(Some("2024-13-05"), 24).to_feature_vec(0.0, |d| d as f64);
    assert_eq!(r.unwrap_err(), InferenceError::InvalidMonth);
    let r = record(Some("not a date"), 24).to_feature_vec(0.0, |d| d as f64);
    assert_eq!(r.unwrap_err(), InferenceError::InvalidDate);
    let r = record(None, 24).to_feature_vec(0.0, |d| d as f64);
    assert_eq!(r.unwrap_err(), InferenceError::InvalidDate);
}

#[test]
fn day_of_season_of_daily_date() {
    let rec = record(Some("2024-11-05"), 0);
    assert_eq!(rec.calc_day_of_season("2024-11-05"), Ok(36));
    assert_eq!(rec.calc_day_of_season("2024-03-31"), Ok(31));
    assert_eq!(rec.calc_day_of_season("2024-13-01"), Err(InferenceError::InvalidMonth));
}

#[test]
fn query_names_the_day_and_series() {
    let p = Params::for_day("2024-06-15", String::from("52.5"), String::from("13.4"));
    assert_eq!(p.latitude, "52.5");
    assert_eq!(p.longitude, "13.4");
    assert_eq!(p.start_date, "2024-06-15");
    assert_eq!(p.end_date, "2024-06-15");
    assert_eq!(p.hourly.split(',').count(), 12);
    assert!(p.hourly.starts_with("temperature_2m,relative_humidity_2m,"));
    assert_eq!(p.daily, "sunrise,sunset,sunshine_duration");
    assert_eq!(p.timezone, "Europe/Berlin");
}
