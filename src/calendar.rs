use vstd::prelude::*;
use vstd::string::StrSliceExecFns;

use crate::error::InferenceError;
use crate::types::{CalendarDate, Season};

verus! {

pub open spec fn is_digit(c: char) -> bool {
    '0' <= c && c <= '9'
}

pub open spec fn digit_value(c: char) -> int {
    c as int - '0' as int
}

/// `s` has the shape `YYYY-MM-DD`: ten characters, dashes at 4 and 7, digits elsewhere.
pub open spec fn is_date_shape(s: Seq<char>) -> bool {
    &&& s.len() == 10
    &&& s[4] == '-'
    &&& s[7] == '-'
    &&& forall|k: int| 0 <= k < 10 && k != 4 && k != 7 ==> is_digit(#[trigger] s[k])
}

pub open spec fn year_field(s: Seq<char>) -> int {
    1000 * digit_value(s[0]) + 100 * digit_value(s[1]) + 10 * digit_value(s[2]) + digit_value(
        s[3],
    )
}

pub open spec fn month_field(s: Seq<char>) -> int {
    10 * digit_value(s[5]) + digit_value(s[6])
}

pub open spec fn day_field(s: Seq<char>) -> int {
    10 * digit_value(s[8]) + digit_value(s[9])
}

pub open spec fn is_leap_year(y: int) -> bool {
    y % 4 == 0 && (y % 100 != 0 || y % 400 == 0)
}

pub open spec fn days_in_month(y: int, m: int) -> int {
    if m == 2 {
        if is_leap_year(y) {
            29
        } else {
            28
        }
    } else if m == 4 || m == 6 || m == 9 || m == 11 {
        30
    } else {
        31
    }
}

/// `y-m-d` names a day of the proleptic Gregorian calendar.
pub open spec fn is_valid_ymd(y: int, m: int, d: int) -> bool {
    1 <= m <= 12 && 1 <= d <= days_in_month(y, m)
}

/// What reading `s` as a `YYYY-MM-DD` date gives. A well-shaped text with a
/// month outside 1 to 12 is told apart from other malformed dates.
pub open spec fn date_of(s: Seq<char>) -> Result<CalendarDate, InferenceError> {
    if !is_date_shape(s) {
        Err(InferenceError::InvalidDate)
    } else if !(1 <= month_field(s) <= 12) {
        Err(InferenceError::InvalidMonth)
    } else if !is_valid_ymd(year_field(s), month_field(s), day_field(s)) {
        Err(InferenceError::InvalidDate)
    } else {
        Ok(
            CalendarDate {
                year: year_field(s) as i32,
                month: month_field(s) as u32,
                day: day_field(s) as u32,
            },
        )
    }
}

/// The season that a month belongs to, for months 1 to 12.
pub open spec fn month_season(m: int) -> Option<Season> {
    if m == 12 || m == 1 || m == 2 {
        Some(Season::Winter)
    } else if 3 <= m <= 5 {
        Some(Season::Spring)
    } else if 6 <= m <= 8 {
        Some(Season::Summer)
    } else if 9 <= m <= 11 {
        Some(Season::Autumn)
    } else {
        None
    }
}

/// Every month from 1 to 12 falls in exactly one season, each season takes
/// its three months, and no other number has a season.
pub proof fn lemma_month_season_total(m: int)
    ensures
        (1 <= m <= 12) <==> month_season(m) is Some,
        month_season(m) == Some(Season::Winter) <==> (m == 12 || m == 1 || m == 2),
        month_season(m) == Some(Season::Spring) <==> (3 <= m <= 5),
        month_season(m) == Some(Season::Summer) <==> (6 <= m <= 8),
        month_season(m) == Some(Season::Autumn) <==> (9 <= m <= 11),
{
}

/// Days added to the day of the month to count from the start of its season.
/// The table is kept as the trained models saw it: November counts from 31.
pub open spec fn season_offset(m: int) -> int {
    if m == 12 || m == 3 || m == 6 || m == 9 {
        0
    } else if m == 1 || m == 4 || m == 11 {
        31
    } else if m == 7 || m == 10 {
        30
    } else if m == 2 {
        62
    } else if m == 5 || m == 8 {
        61
    } else {
        0
    }
}

/// Relies on chrono::NaiveDate::from_ymd_opt, which gives `Some` exactly for a
/// month in 1 to 12 and a day that the month has in that year (years 0 to 9999
/// lie within its range).
#[verifier::external_body]
fn gregorian_date_exists(year: i32, month: u32, day: u32) -> (r: bool)
    requires
        0 <= year <= 9999,
    ensures
        r == is_valid_ymd(year as int, month as int, day as int),
{
    chrono::NaiveDate::from_ymd_opt(year, month, day).is_some()
}

fn digit_at(s: &str, k: usize) -> (r: Option<u32>)
    requires
        k < s@.len(),
    ensures
        r == (if is_digit(s@[k as int]) {
            Some(digit_value(s@[k as int]) as u32)
        } else {
            None::<u32>
        }),
{
    let c = s.get_char(k);
    if '0' <= c && c <= '9' {
        Some((c as u32) - ('0' as u32))
    } else {
        None
    }
}

/// Reads a `YYYY-MM-DD` date.
pub fn parse_date(s: &str) -> (r: Result<CalendarDate, InferenceError>)
    ensures
        r == date_of(s@),
{
    if s.unicode_len() != 10 || s.get_char(4) != '-' || s.get_char(7) != '-' {
        return Err(InferenceError::InvalidDate);
    }
    let mut digits: Vec<u32> = Vec::new();
    let mut k: usize = 0;
    while k < 10
        invariant
            s@.len() == 10,
            k <= 10,
            digits@.len() == k,
            forall|j: int|
                0 <= j < k && j != 4 && j != 7 ==> is_digit(#[trigger] s@[j]) && digits@[j]
                    == digit_value(s@[j]),
        decreases 10 - k,
    {
        if k == 4 || k == 7 {
            digits.push(0);
        } else {
            match digit_at(s, k) {
                Some(v) => digits.push(v),
                None => {
                    assert(!is_date_shape(s@));
                    return Err(InferenceError::InvalidDate);
                },
            }
        }
        k = k + 1;
    }
    assert(is_date_shape(s@));
    let year = 1000 * digits[0] + 100 * digits[1] + 10 * digits[2] + digits[3];
    let month = 10 * digits[5] + digits[6];
    let day = 10 * digits[8] + digits[9];
    if month < 1 || month > 12 {
        return Err(InferenceError::InvalidMonth);
    }
    if !gregorian_date_exists(year as i32, month, day) {
        return Err(InferenceError::InvalidDate);
    }
    Ok(CalendarDate { year: year as i32, month, day })
}

/// Chooses the season of a month.
pub fn season_of_month(month: u32) -> (r: Result<Season, InferenceError>)
    ensures
        match month_season(month as int) {
            Some(season) => r == Ok::<Season, InferenceError>(season),
            None => r == Err::<Season, InferenceError>(InferenceError::InvalidMonth),
        },
{
    match month {
        12 | 1 | 2 => Ok(Season::Winter),
        3..=5 => Ok(Season::Spring),
        6..=8 => Ok(Season::Summer),
        9..=11 => Ok(Season::Autumn),
        _ => Err(InferenceError::InvalidMonth),
    }
}

/// The day of the season of a month and a day of that month.
pub fn calc_day_of_season_for(month: u32, day: u32) -> (r: Result<u32, InferenceError>)
    requires
        day <= 31,
    ensures
        1 <= month <= 12 ==> r == Ok::<u32, InferenceError>(
            (day + season_offset(month as int)) as u32,
        ),
        !(1 <= month <= 12) ==> r == Err::<u32, InferenceError>(InferenceError::InvalidMonth),
{
    match month {
        12 => Ok(day),
        1 => Ok(day + 31),
        2 => Ok(day + 31 + 31),
        3 => Ok(day),
        4 => Ok(day + 31),
        5 => Ok(day + 31 + 30),
        6 => Ok(day),
        7 => Ok(day + 30),
        8 => Ok(day + 30 + 31),
        9 => Ok(day),
        10 => Ok(day + 30),
        11 => Ok(day + 31),
        _ => Err(InferenceError::InvalidMonth),
    }
}

} // verus!
