//! The normalized weather snapshot and its human-readable rendering.
//!
//! Upstream payloads carry fractional values; here they are held as
//! fixed-point integers so that every quantity is a plain value with exact
//! arithmetic: temperatures and wind speeds in tenths of their unit, the
//! probability of precipitation in thousandths, and wind directions in
//! hundredths of a degree.

use vstd::prelude::*;
use vstd::string::StringExecFns;

use crate::error::WeatherError;
use crate::text::{
    capitalize_first_letter, capitalized, dec_str, deci_str, deci_to_string, digit_str,
    u64_to_string,
};
use crate::weather_type::{contains_ci, contains_keyword};

verus! {

/// One weather condition entry: a free-text description.
pub struct Weather {
    pub description: String,
}

/// Current conditions. Temperatures and wind speed are tenths (of a degree
/// Fahrenheit and of a mile per hour); the wind direction is hundredths of a
/// degree.
pub struct Current {
    pub temp: i32,
    pub feels_like: i32,
    pub humidity: u8,
    pub wind_speed: i32,
    pub wind_deg: u32,
    pub weather: Vec<Weather>,
}

/// The day's forecast temperatures, tenths of a degree Fahrenheit.
pub struct DailyTemp {
    pub min: i32,
    pub max: i32,
}

/// One day of forecast. `pop` is the probability of precipitation in
/// thousandths; the provider may hand back values outside 0..=1000, which
/// the formatter clamps before use.
pub struct Daily {
    pub pop: i64,
    pub summary: String,
    pub temp: DailyTemp,
    pub weather: Vec<Weather>,
}

/// The normalized weather payload: current conditions and an ordered
/// sequence of daily forecasts, index 0 today and index 1, when present,
/// tomorrow.
pub struct WeatherResponse {
    pub current: Current,
    pub daily: Vec<Daily>,
}

/// The shape the formatter needs: at least one day of forecast, and a
/// weather description for the current conditions and for each day it reads.
pub open spec fn snapshot_wellformed(w: WeatherResponse) -> bool {
    &&& w.daily@.len() >= 1
    &&& w.current.weather@.len() >= 1
    &&& w.daily@[0].weather@.len() >= 1
    &&& w.daily@.len() >= 2 ==> w.daily@[1].weather@.len() >= 1
}

/// The sixteen-point compass index for a wind direction in hundredths of a
/// degree: the compass is divided into sectors of 22.5 degrees centred on the
/// sixteen directions, wrapping around at north.
pub open spec fn wind_index(deg_centi: int) -> int {
    ((deg_centi + 1125) / 2250) % 16
}

/// The compass direction name for an index in 0..=15, clockwise from north.
pub open spec fn cardinal_str(i: int) -> Seq<char> {
    if i == 0 {
        "N"@
    } else if i == 1 {
        "NNE"@
    } else if i == 2 {
        "NE"@
    } else if i == 3 {
        "ENE"@
    } else if i == 4 {
        "E"@
    } else if i == 5 {
        "ESE"@
    } else if i == 6 {
        "SE"@
    } else if i == 7 {
        "SSE"@
    } else if i == 8 {
        "S"@
    } else if i == 9 {
        "SSW"@
    } else if i == 10 {
        "SW"@
    } else if i == 11 {
        "WSW"@
    } else if i == 12 {
        "W"@
    } else if i == 13 {
        "WNW"@
    } else if i == 14 {
        "NW"@
    } else {
        "NNW"@
    }
}

/// Maps a wind direction in hundredths of a degree to its sixteen-point
/// compass name, wrapping around at north.
pub fn degrees_to_cardinal(degrees: u32) -> (r: &'static str)
    ensures
        r@ == cardinal_str(wind_index(degrees as int)),
{
    let idx: u64 = ((degrees as u64) + 1125) / 2250 % 16;
    if idx == 0 {
        "N"
    } else if idx == 1 {
        "NNE"
    } else if idx == 2 {
        "NE"
    } else if idx == 3 {
        "ENE"
    } else if idx == 4 {
        "E"
    } else if idx == 5 {
        "ESE"
    } else if idx == 6 {
        "SE"
    } else if idx == 7 {
        "SSE"
    } else if idx == 8 {
        "S"
    } else if idx == 9 {
        "SSW"
    } else if idx == 10 {
        "SW"
    } else if idx == 11 {
        "WSW"
    } else if idx == 12 {
        "W"
    } else if idx == 13 {
        "WNW"
    } else if idx == 14 {
        "NW"
    } else {
        "NNW"
    }
}

/// `pop` clamped into the unit interval, in thousandths.
pub open spec fn clamped_milli(pop: int) -> int {
    if pop < 0 {
        0
    } else if pop > 1000 {
        1000
    } else {
        pop
    }
}

/// The precipitation percentage for a probability in thousandths: clamped
/// into the unit interval, then rounded to the nearest whole percent.
pub open spec fn precip_pct(pop: int) -> int {
    (clamped_milli(pop) + 5) / 10
}

/// Clamps a probability of precipitation (thousandths) into the unit
/// interval and rounds it to the nearest whole percent.
pub fn precip_percent(pop: i64) -> (r: u64)
    ensures
        r as int == precip_pct(pop as int),
        r <= 100,
{
    let clamped: i64 = if pop < 0 {
        0
    } else if pop > 1000 {
        1000
    } else {
        pop
    };
    ((clamped as u64) + 5) / 10
}

/// The precipitation label for a day: "Snow" when its description mentions
/// snow in any casing, else "Rain".
pub open spec fn precip_label(day: Daily) -> Seq<char> {
    if contains_ci(day.weather@[0].description@, "snow"@) {
        "Snow"@
    } else {
        "Rain"@
    }
}

/// The label of tomorrow's precipitation: taken from the second forecast day
/// when there is one, else "Rain".
pub open spec fn tomorrow_label(w: WeatherResponse) -> Seq<char> {
    if w.daily@.len() >= 2 {
        precip_label(w.daily@[1])
    } else {
        "Rain"@
    }
}

/// Tomorrow's precipitation percentage: from the second forecast day when
/// there is one, else zero.
pub open spec fn tomorrow_pct(w: WeatherResponse) -> int {
    if w.daily@.len() >= 2 {
        precip_pct(w.daily@[1].pop as int)
    } else {
        0
    }
}

/// The fixed-order multi-line summary of a well-formed snapshot.
pub open spec fn summary_text(w: WeatherResponse) -> Seq<char> {
    "Summary: "@ + w.daily@[0].summary@ + "\n        Current weather: "@
        + w.current.weather@[0].description@ + "\n        Temperature: "@ + deci_str(
        w.current.temp as int,
    ) + "\u{b0}F (Feels like "@ + deci_str(w.current.feels_like as int) + "\u{b0}F)"@
        + "\n        High: "@ + deci_str(w.daily@[0].temp.max as int) + "\u{b0}F"@
        + "\n        Low: "@ + deci_str(w.daily@[0].temp.min as int) + "\u{b0}F"@
        + "\n        Humidity: "@ + dec_str(w.current.humidity as int) + "%"@
        + "\n        Wind: "@ + deci_str(w.current.wind_speed as int) + " mph "@ + cardinal_str(
        wind_index(w.current.wind_deg as int),
    ) + "\n        Chance of "@ + precip_label(w.daily@[0]) + " Today: "@ + dec_str(
        precip_pct(w.daily@[0].pop as int),
    ) + "%"@ + "\n        Chance of "@ + tomorrow_label(w) + " Tomorrow: "@ + dec_str(
        tomorrow_pct(w),
    ) + "% "@
}

/// Today's description with only its first character upper-cased.
pub open spec fn short_description(w: WeatherResponse) -> Seq<char> {
    capitalized(w.daily@[0].weather@[0].description@)
}

/// The detail of the malformed-payload error: which part of the shape is
/// missing.
pub open spec fn malformed_detail(w: WeatherResponse) -> Seq<char> {
    if w.daily@.len() == 0 {
        "missing daily forecast"@
    } else {
        "missing weather description"@
    }
}

/// Chooses the precipitation label of a day from its first description.
fn precip_label_exec(day: &Daily) -> (r: &'static str)
    requires
        day.weather@.len() >= 1,
    ensures
        r@ == precip_label(*day),
{
    if contains_keyword(day.weather[0].description.as_str(), "snow") {
        "Snow"
    } else {
        "Rain"
    }
}

/// Renders a snapshot as the multi-line summary text and the capitalized
/// short description of today's weather.
///
/// Succeeds exactly on well-formed snapshots: at least one forecast day, and
/// a weather description wherever one is read. Anything else is a
/// malformed-payload error, never a silent default.
pub fn format_weather_data(w: &WeatherResponse) -> (r: Result<(String, String), WeatherError>)
    ensures
        r is Ok <==> snapshot_wellformed(*w),
        r matches Ok(p) ==> p.0@ == summary_text(*w) && p.1@ == short_description(*w),
        r matches Err(e) ==> e matches WeatherError::MalformedPayload { detail } && detail@
            == malformed_detail(*w),
{
    if w.daily.len() == 0 {
        return Err(
            WeatherError::MalformedPayload { detail: String::from_str("missing daily forecast") },
        );
    }
    if w.current.weather.len() == 0 || w.daily[0].weather.len() == 0 || (w.daily.len() >= 2
        && w.daily[1].weather.len() == 0) {
        return Err(
            WeatherError::MalformedPayload {
                detail: String::from_str("missing weather description"),
            },
        );
    }
    let today = &w.daily[0];
    let mut s = String::from_str("Summary: ");
    s.append(today.summary.as_str());
    s.append("\n        Current weather: ");
    s.append(w.current.weather[0].description.as_str());
    s.append("\n        Temperature: ");
    s.append(deci_to_string(w.current.temp as i64).as_str());
    s.append("\u{b0}F (Feels like ");
    s.append(deci_to_string(w.current.feels_like as i64).as_str());
    s.append("\u{b0}F)");
    s.append("\n        High: ");
    s.append(deci_to_string(today.temp.max as i64).as_str());
    s.append("\u{b0}F");
    s.append("\n        Low: ");
    s.append(deci_to_string(today.temp.min as i64).as_str());
    s.append("\u{b0}F");
    s.append("\n        Humidity: ");
    s.append(u64_to_string(w.current.humidity as u64).as_str());
    s.append("%");
    s.append("\n        Wind: ");
    s.append(deci_to_string(w.current.wind_speed as i64).as_str());
    s.append(" mph ");
    s.append(degrees_to_cardinal(w.current.wind_deg));
    s.append("\n        Chance of ");
    s.append(precip_label_exec(today));
    s.append(" Today: ");
    s.append(u64_to_string(precip_percent(today.pop)).as_str());
    s.append("%");
    s.append("\n        Chance of ");
    if w.daily.len() >= 2 {
        s.append(precip_label_exec(&w.daily[1]));
    } else {
        s.append("Rain");
    }
    s.append(" Tomorrow: ");
    if w.daily.len() >= 2 {
        s.append(u64_to_string(precip_percent(w.daily[1].pop)).as_str());
    } else {
        s.append(u64_to_string(0).as_str());
    }
    s.append("% ");
    let short = capitalize_first_letter(today.weather[0].description.as_str());
    assert(s@ =~= summary_text(*w)) by {
        assert(dec_str(0) == digit_str(0));
    }
    Ok((s, short))
}

} // verus!
