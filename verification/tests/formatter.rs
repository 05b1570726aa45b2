use weather_alerts::error::WeatherError;
use weather_alerts::text::{capitalize_first_letter, deci_to_string, u64_to_string};
use weather_alerts::weather::{
    degrees_to_cardinal, format_weather_data, precip_percent, Current, Daily, DailyTemp, Weather,
    WeatherResponse,
};

fn day(pop: i64, summary: &str, min: i32, max: i32, description: &str) -> Daily {
    Daily {
        pop,
        summary: summary.to_string(),
        temp: DailyTemp { min, max },
        weather: vec![Weather { description: description.to_string() }],
    }
}

fn snapshot(days: Vec<Daily>) -> WeatherResponse {
    WeatherResponse {
        current: Current {
            temp: 725,
            feels_like: 701,
            humidity: 45,
            wind_speed: 103,
            wind_deg: 18000,
            weather: vec![Weather { description: "clear sky".to_string() }],
        },
        daily: days,
    }
}

#[test]
fn precipitation_is_clamped() {
    // A probability above 1 reads as 100%, one below 0 as 0%.
    assert_eq!(precip_percent(1500), 100);
    assert_eq!(precip_percent(-200), 0);
    assert_eq!(precip_percent(420), 42);
    assert_eq!(precip_percent(425), 43);
    assert_eq!(precip_percent(1000), 100);
    assert_eq!(precip_percent(0), 0);
}

#[test]
fn clamped_percentages_reach_the_summary() {
    let w = snapshot(vec![
        day(1500, "wet", 650, 800, "heavy rain"),
        day(-200, "dry", 650, 800, "clear sky"),
    ]);
    let (text, _) = format_weather_data(&w).unwrap();
    assert!(text.contains("Chance of Rain Today: 100%"));
    assert!(text.contains("Chance of Rain Tomorrow: 0%"));
}

#[test]
fn wind_degrees_to_compass() {
    // Hundredths of a degree: 0, 348.75, 11.0, 11.3 degrees.
    assert_eq!(degrees_to_cardinal(0), "N");
    assert_eq!(degrees_to_cardinal(34875), "N");
    assert_eq!(degrees_to_cardinal(1100), "N");
    assert_eq!(degrees_to_cardinal(1130), "NNE");
    assert_eq!(degrees_to_cardinal(18000), "S");
    assert_eq!(degrees_to_cardinal(9000), "E");
    assert_eq!(degrees_to_cardinal(27000), "W");
    assert_eq!(degrees_to_cardinal(36000), "N");
}

#[test]
fn empty_daily_is_malformed() {
    let w = snapshot(vec![]);
    match format_weather_data(&w) {
        Err(WeatherError::MalformedPayload { detail }) => {
            assert_eq!(detail, "missing daily forecast");
        }
        _ => panic!("expected a malformed-payload error"),
    }
}

#[test]
fn empty_weather_list_is_malformed() {
    let mut w = snapshot(vec![day(420, "ok", 650, 800, "clear sky")]);
    w.daily[0].weather.clear();
    match format_weather_data(&w) {
        Err(WeatherError::MalformedPayload { detail }) => {
            assert_eq!(detail, "missing weather description");
        }
        _ => panic!("expected a malformed-payload error"),
    }
}

#[test]
fn full_summary_text() {
    let w = snapshot(vec![
        day(420, "Mild day", 650, 800, "clear sky"),
        day(100, "Colder", 550, 700, "light snow"),
    ]);
    let (text, short) = format_weather_data(&w).unwrap();
    let expected = "Summary: Mild day\n        Current weather: clear sky\n        Temperature: 72.5\u{b0}F (Feels like 70.1\u{b0}F)\n        High: 80.0\u{b0}F\n        Low: 65.0\u{b0}F\n        Humidity: 45%\n        Wind: 10.3 mph S\n        Chance of Rain Today: 42%\n        Chance of Snow Tomorrow: 10% ";
    assert_eq!(text, expected);
    assert_eq!(short, "Clear sky");
}

#[test]
fn single_day_defaults_tomorrow() {
    let w = snapshot(vec![day(420, "Mild day", 650, 800, "clear sky")]);
    let (text, _) = format_weather_data(&w).unwrap();
    assert!(text.ends_with("Chance of Rain Tomorrow: 0% "));
}

#[test]
fn snow_label_for_snowy_day() {
    let w = snapshot(vec![day(420, "Snowy", 200, 320, "light snow")]);
    let (text, short) = format_weather_data(&w).unwrap();
    assert!(text.contains("Chance of Snow Today: 42%"));
    assert_eq!(short, "Light snow");
}

#[test]
fn capitalize_only_first_character() {
    assert_eq!(capitalize_first_letter("light snow"), "Light snow");
    assert_eq!(capitalize_first_letter("Broken Clouds"), "Broken Clouds");
    assert_eq!(capitalize_first_letter(""), "");
    assert_eq!(capitalize_first_letter("7 mph wind"), "7 mph wind");
}

#[test]
fn decimal_renderers() {
    assert_eq!(u64_to_string(0), "0");
    assert_eq!(u64_to_string(42), "42");
    assert_eq!(u64_to_string(1000), "1000");
    assert_eq!(deci_to_string(725), "72.5");
    assert_eq!(deci_to_string(-123), "-12.3");
    assert_eq!(deci_to_string(0), "0.0");
    assert_eq!(deci_to_string(-5), "-0.5");
}

#[test]
fn negative_temperature_in_summary() {
    let mut w = snapshot(vec![day(0, "Frigid", -205, -12, "light snow")]);
    w.current.temp = -123;
    w.current.feels_like = -250;
    let (text, _) = format_weather_data(&w).unwrap();
    assert!(text.contains("Temperature: -12.3\u{b0}F (Feels like -25.0\u{b0}F)"));
    assert!(text.contains("High: -1.2\u{b0}F"));
    assert!(text.contains("Low: -20.5\u{b0}F"));
}
