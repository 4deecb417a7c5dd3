//! Seasonal, windowed, autoregressive inference over one day of hourly
//! weather forecast data.
//!
//! The library covers the logic of a request: reading the calendar date,
//! choosing the seasonal model, extracting per-hour feature vectors,
//! building the sliding input and recurrence windows, and sequencing the
//! 24 model steps. Running a model is left to the caller, which drives an
//! [`InferenceSession`] step by step.
pub mod calendar;
pub mod error;
pub mod features;
pub mod session;
pub mod types;
pub mod window;

pub use calendar::{calc_day_of_season_for, parse_date, season_of_month};
pub use error::InferenceError;
pub use features::{FEATURE_WIDTH, HOURS_PER_DAY};
pub use session::{InferenceSession, Models};
pub use types::{
    CalendarDate, DailyData, DailyUnits, ErrResponse, ForecastResponse, HourlyData, HourlyUnits, Params,
    Season,
};
pub use window::{
    create_window_input, create_window_prev_out, INPUT_WINDOW_LEN, OUTPUT_WIDTH,
    RECURRENCE_WINDOW_LEN,
};
