use vstd::prelude::*;

verus! {

/// The four seasons, each served by its own model.
#[derive(Clone, Copy, Debug, PartialEq, Eq, Structural)]
pub enum Season {
    Winter,
    Summer,
    Spring,
    Autumn,
}

/// A proleptic Gregorian calendar date.
#[derive(Clone, Copy, Debug, PartialEq, Eq, Structural)]
pub struct CalendarDate {
    pub year: i32,
    pub month: u32,
    pub day: u32,
}

/// The query sent to the forecast service for one day at one place.
pub struct Params {
    pub latitude: String,
    pub longitude: String,
    pub start_date: String,
    pub end_date: String,
    pub hourly: String,
    pub daily: String,
    pub timezone: String,
}

impl Params {
    /// The query for the forecast of day `day` at the given coordinates: the
    /// twelve hourly series and three daily series that the features read, in
    /// Berlin time.
    pub fn for_day(day: &str, latitude: String, longitude: String) -> (r: Params)
        ensures
            r.latitude == latitude,
            r.longitude == longitude,
            r.start_date@ == day@,
            r.end_date@ == day@,
            r.hourly@ == "temperature_2m,relative_humidity_2m,precipitation,cloud_cover,wind_speed_10m,sunshine_duration,diffuse_radiation,direct_normal_irradiance,global_tilted_irradiance,diffuse_radiation_instant,direct_normal_irradiance_instant,global_tilted_irradiance_instant"@,
            r.daily@ == "sunrise,sunset,sunshine_duration"@,
            r.timezone@ == "Europe/Berlin"@,
    {
        Params {
            latitude,
            longitude,
            start_date: day.to_owned(),
            end_date: day.to_owned(),
            hourly: "temperature_2m,relative_humidity_2m,precipitation,cloud_cover,wind_speed_10m,sunshine_duration,diffuse_radiation,direct_normal_irradiance,global_tilted_irradiance,diffuse_radiation_instant,direct_normal_irradiance_instant,global_tilted_irradiance_instant".to_owned(),
            daily: "sunrise,sunset,sunshine_duration".to_owned(),
            timezone: "Europe/Berlin".to_owned(),
        }
    }
}

/// One day of forecast as the service returns it; `T` is the scalar type of
/// the measurements.
pub struct ForecastResponse<T> {
    pub latitude: T,
    pub longitude: T,
    pub generationtime_ms: T,
    pub utc_offset_seconds: i32,
    pub timezone: String,
    pub timezone_abbreviation: String,
    pub elevation: T,
    pub hourly_units: HourlyUnits,
    pub hourly: HourlyData<T>,
    pub daily_units: DailyUnits,
    pub daily: DailyData<T>,
}

/// The unit of each hourly series.
pub struct HourlyUnits {
    pub time: String,
    pub temperature_2m: String,
    pub relative_humidity_2m: String,
    pub precipitation: String,
    pub cloud_cover: String,
    pub wind_speed_10m: String,
    pub sunshine_duration: String,
    pub diffuse_radiation: String,
    pub direct_normal_irradiance: String,
    pub global_tilted_irradiance: String,
    pub diffuse_radiation_instant: String,
    pub direct_normal_irradiance_instant: String,
    pub global_tilted_irradiance_instant: String,
}

/// Parallel hourly series; any of them may be shorter than a day.
pub struct HourlyData<T> {
    pub time: Vec<String>,
    pub temperature_2m: Vec<T>,
    pub relative_humidity_2m: Vec<T>,
    pub precipitation: Vec<T>,
    pub cloud_cover: Vec<T>,
    pub wind_speed_10m: Vec<T>,
    pub sunshine_duration: Vec<T>,
    pub diffuse_radiation: Vec<T>,
    pub direct_normal_irradiance: Vec<T>,
    pub global_tilted_irradiance: Vec<T>,
    pub diffuse_radiation_instant: Vec<T>,
    pub direct_normal_irradiance_instant: Vec<T>,
    pub global_tilted_irradiance_instant: Vec<T>,
}

/// The unit of each daily series.
pub struct DailyUnits {
    pub time: String,
    pub sunrise: String,
    pub sunset: String,
    pub sunshine_duration: String,
}

/// Daily series; the first entry of `time` dates the forecast.
pub struct DailyData<T> {
    pub time: Vec<String>,
    pub sunrise: Vec<String>,
    pub sunset: Vec<String>,
    pub sunshine_duration: Vec<T>,
}

/// The body of a failed response.
pub struct ErrResponse<'a> {
    pub message: &'a str,
}

} // verus!
