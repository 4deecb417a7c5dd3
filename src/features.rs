use vstd::prelude::*;

use crate::calendar::{
    calc_day_of_season_for, date_of, parse_date, season_offset,
};
use crate::error::InferenceError;
use crate::types::{ForecastResponse, HourlyData};
use crate::window::rows_have_width;

verus! {

/// Hours in the forecast day.
pub const HOURS_PER_DAY: usize = 24;

/// Scalars in one hour's feature vector.
pub const FEATURE_WIDTH: usize = 13;

/// The day of the season that the date text `s` names.
pub open spec fn day_of_season_of(s: Seq<char>) -> Result<u32, InferenceError> {
    match date_of(s) {
        Ok(d) => Ok((d.day + season_offset(d.month as int)) as u32),
        Err(e) => Err(e),
    }
}

/// Entry `i` of a series, or `zero` where the series is too short.
pub open spec fn value_or<T>(s: Seq<T>, i: int, zero: T) -> T {
    if 0 <= i < s.len() {
        s[i]
    } else {
        zero
    }
}

/// The feature vector of hour `i`: the day of the season, then the twelve
/// measurements in their fixed order.
pub open spec fn feature_row<T>(h: HourlyData<T>, i: int, day: T, zero: T) -> Seq<T> {
    seq![
        day,
        value_or(h.temperature_2m@, i, zero),
        value_or(h.precipitation@, i, zero),
        value_or(h.cloud_cover@, i, zero),
        value_or(h.sunshine_duration@, i, zero),
        value_or(h.global_tilted_irradiance@, i, zero),
        value_or(h.wind_speed_10m@, i, zero),
        value_or(h.relative_humidity_2m@, i, zero),
        value_or(h.diffuse_radiation@, i, zero),
        value_or(h.direct_normal_irradiance@, i, zero),
        value_or(h.diffuse_radiation_instant@, i, zero),
        value_or(h.direct_normal_irradiance_instant@, i, zero),
        value_or(h.global_tilted_irradiance_instant@, i, zero),
    ]
}

/// `rows` holds the day's feature vectors for `h`, each opening with `day`.
pub open spec fn is_feature_table<T>(rows: Seq<Vec<T>>, h: HourlyData<T>, day: T, zero: T) -> bool {
    &&& rows.len() == HOURS_PER_DAY
    &&& forall|i: int| 0 <= i < rows.len() ==> #[trigger] rows[i]@ == feature_row(h, i, day, zero)
}

/// Whatever the record holds, its feature table has 24 vectors of 13 scalars.
pub proof fn lemma_feature_table_shape<T>(rows: Seq<Vec<T>>, h: HourlyData<T>, day: T, zero: T)
    requires
        is_feature_table(rows, h, day, zero),
    ensures
        rows.len() == HOURS_PER_DAY,
        rows_have_width(rows, FEATURE_WIDTH as nat),
{
    assert forall|j: int| 0 <= j < rows.len() implies (#[trigger] rows[j])@.len()
        == FEATURE_WIDTH by {
        assert(rows[j]@ == feature_row(h, j, day, zero));
    }
}

fn value_at<T: Copy>(s: &Vec<T>, i: usize, zero: T) -> (r: T)
    ensures
        r == value_or(s@, i as int, zero),
{
    if i < s.len() {
        s[i]
    } else {
        zero
    }
}

fn hour_features<T: Copy>(h: &HourlyData<T>, i: usize, day: T, zero: T) -> (r: Vec<T>)
    ensures
        r@ == feature_row(*h, i as int, day, zero),
{
    let r = vec![
        day,
        value_at(&h.temperature_2m, i, zero),
        value_at(&h.precipitation, i, zero),
        value_at(&h.cloud_cover, i, zero),
        value_at(&h.sunshine_duration, i, zero),
        value_at(&h.global_tilted_irradiance, i, zero),
        value_at(&h.wind_speed_10m, i, zero),
        value_at(&h.relative_humidity_2m, i, zero),
        value_at(&h.diffuse_radiation, i, zero),
        value_at(&h.direct_normal_irradiance, i, zero),
        value_at(&h.diffuse_radiation_instant, i, zero),
        value_at(&h.direct_normal_irradiance_instant, i, zero),
        value_at(&h.global_tilted_irradiance_instant, i, zero),
    ];
    assert(r@ =~= feature_row(*h, i as int, day, zero));
    r
}

impl<T: Copy> ForecastResponse<T> {
    /// The day of the season that the date text `inpt` names.
    pub fn calc_day_of_season(&self, inpt: &str) -> (r: Result<u32, InferenceError>)
        ensures
            r == day_of_season_of(inpt@),
    {
        let date = parse_date(inpt)?;
        calc_day_of_season_for(date.month, date.day)
    }

    /// The day's 24 feature vectors. The day of the season comes from the
    /// first daily date and is turned into a scalar by `scalar_of`; a
    /// measurement missing at an hour reads as `zero`.
    pub fn to_feature_vec<F: Fn(u32) -> T>(&self, zero: T, scalar_of: F) -> (r: Result<
        Vec<Vec<T>>,
        InferenceError,
    >)
        requires
            forall|d: u32| scalar_of.requires((d,)),
        ensures
            self.daily.time@.len() == 0 ==> r == Err::<Vec<Vec<T>>, InferenceError>(
                InferenceError::InvalidDate,
            ),
            self.daily.time@.len() > 0 ==> match day_of_season_of(self.daily.time@[0]@) {
                Err(e) => r == Err::<Vec<Vec<T>>, InferenceError>(e),
                Ok(d) => r matches Ok(rows) && rows@.len() == HOURS_PER_DAY && rows_have_width(
                    rows@,
                    FEATURE_WIDTH as nat,
                ) && scalar_of.ensures((d,), rows@[0]@[0]) && is_feature_table(
                    rows@,
                    self.hourly,
                    rows@[0]@[0],
                    zero,
                ),
            },
    {
        if self.daily.time.len() == 0 {
            return Err(InferenceError::InvalidDate);
        }
        let day = self.calc_day_of_season(self.daily.time[0].as_str())?;
        let day_scalar = scalar_of(day);
        let mut rows: Vec<Vec<T>> = Vec::with_capacity(HOURS_PER_DAY);
        let mut i: usize = 0;
        while i < HOURS_PER_DAY
            invariant
                i <= HOURS_PER_DAY,
                rows@.len() == i,
                forall|j: int|
                    0 <= j < i ==> #[trigger] rows@[j]@ == feature_row(
                        self.hourly,
                        j,
                        day_scalar,
                        zero,
                    ),
            decreases HOURS_PER_DAY - i,
        {
            let row = hour_features(&self.hourly, i, day_scalar, zero);
            rows.push(row);
            i = i + 1;
        }
        assert(rows@[0]@[0] == day_scalar);
        proof {
            lemma_feature_table_shape(rows@, self.hourly, day_scalar, zero);
        }
        Ok(rows)
    }
}

} // verus!
