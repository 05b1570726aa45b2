use weather_alerts::orchestrator::{
    build_fetch_result, FetchOutcome, FetchResult, Orchestrator, PollAction,
};
use weather_alerts::weather::{Current, Daily, DailyTemp, Weather, WeatherResponse};
use weather_alerts::weather_type::WeatherType;

fn success(label: &str) -> FetchResult {
    FetchResult::Success {
        summary_text: format!("summary for {}", label),
        short_description: "Clear sky".to_string(),
        location_label: label.to_string(),
        category: WeatherType::Clear,
    }
}

#[test]
fn many_polls_start_exactly_one_fetch() {
    // However often the render loop polls one idle state, only the first
    // poll starts the background fetch.
    let mut o = Orchestrator::new();
    let mut starts = 0;
    for _ in 0..1000 {
        if o.poll() == PollAction::StartFetch {
            starts += 1;
        }
    }
    assert_eq!(starts, 1);
    assert!(o.in_flight);
}

#[test]
fn publish_then_poll_consumes_result() {
    let mut o = Orchestrator::new();
    assert_eq!(o.poll(), PollAction::StartFetch);
    assert_eq!(o.poll(), PollAction::Wait);
    o.publish(success("Paris"));
    assert_eq!(o.poll(), PollAction::Consumed);
    assert_eq!(o.display.weather_data.as_deref(), Some("summary for Paris"));
    assert_eq!(o.display.daily_weather_description.as_deref(), Some("Clear sky"));
    assert_eq!(o.display.location.as_deref(), Some("Paris"));
    assert_eq!(o.display.weather_type, WeatherType::Clear);
    assert!(o.pending_result.is_none());
    // With data displayed, later polls neither start nor consume.
    assert_eq!(o.poll(), PollAction::Wait);
}

#[test]
fn failure_result_shows_message_only() {
    let mut o = Orchestrator::new();
    assert_eq!(o.poll(), PollAction::StartFetch);
    o.publish(FetchResult::Failure { message: "no network".to_string() });
    assert_eq!(o.poll(), PollAction::Consumed);
    assert_eq!(o.display.weather_data.as_deref(), Some("no network"));
    assert!(o.display.daily_weather_description.is_none());
    assert!(o.display.location.is_none());
    assert_eq!(o.display.weather_type, WeatherType::Clear);
}

#[test]
fn observed_states_are_always_valid() {
    // A poll may see fetching-with-empty-slot, idle-with-result, or
    // idle-with-nothing; never a finished fetch with no result.
    let mut o = Orchestrator::new();
    let valid = |o: &Orchestrator| !(o.in_flight && o.pending_result.is_some());
    assert!(valid(&o));
    for _ in 0..10 {
        o.poll();
        assert!(valid(&o));
    }
    o.publish(success("x"));
    assert!(valid(&o));
    assert!(!o.in_flight);
    assert!(o.pending_result.is_some());
    for _ in 0..10 {
        o.poll();
        assert!(valid(&o));
    }
}

fn snowy_snapshot() -> WeatherResponse {
    WeatherResponse {
        current: Current {
            temp: 300,
            feels_like: 250,
            humidity: 80,
            wind_speed: 52,
            wind_deg: 0,
            weather: vec![Weather { description: "light snow".to_string() }],
        },
        daily: vec![Daily {
            pop: 420,
            summary: "Snow all day".to_string(),
            temp: DailyTemp { min: 200, max: 320 },
            weather: vec![Weather { description: "light snow".to_string() }],
        }],
    }
}

#[test]
fn completed_outcome_builds_success() {
    let outcome = FetchOutcome::Completed {
        weather: snowy_snapshot(),
        daily_weather_description: "light snow".to_string(),
        city: "Oslo".to_string(),
    };
    match build_fetch_result(outcome) {
        FetchResult::Success { summary_text, short_description, location_label, category } => {
            assert!(summary_text.contains("Chance of Snow Today: 42%"));
            assert_eq!(short_description, "Light snow");
            assert_eq!(location_label, "Oslo");
            assert_eq!(category, WeatherType::Snow);
        }
        _ => panic!("expected a success result"),
    }
}

#[test]
fn completed_outcome_with_empty_daily_fails() {
    let mut w = snowy_snapshot();
    w.daily.clear();
    let outcome = FetchOutcome::Completed {
        weather: w,
        daily_weather_description: "light snow".to_string(),
        city: "Oslo".to_string(),
    };
    match build_fetch_result(outcome) {
        FetchResult::Failure { message } => {
            assert_eq!(message, "Error fetching weather data: missing daily forecast");
        }
        _ => panic!("expected a failure result"),
    }
}

#[test]
fn credential_missing_gives_guidance() {
    match build_fetch_result(FetchOutcome::CredentialMissing) {
        FetchResult::Failure { message } => {
            assert!(message.starts_with("API Key Missing"));
            assert!(message.contains("OPENWEATHERMAP_API_KEY"));
        }
        _ => panic!("expected a failure result"),
    }
}

#[test]
fn unreachable_relay_recommends_starting_it() {
    let outcome = FetchOutcome::RelayUnreachable { detail: "connection refused".to_string() };
    match build_fetch_result(outcome) {
        FetchResult::Failure { message } => {
            assert_eq!(
                message,
                "Error fetching weather data: Failed to connect to weather server: connection refused. Make sure the proxy server is running."
            );
        }
        _ => panic!("expected a failure result"),
    }
}

#[test]
fn distinct_messages_per_failure_class() {
    let rejected = build_fetch_result(FetchOutcome::RelayRejected { detail: "boom".to_string() });
    let invalid =
        build_fetch_result(FetchOutcome::RelayResponseInvalid { detail: "eof".to_string() });
    let bad_data =
        build_fetch_result(FetchOutcome::WeatherDataInvalid { detail: "shape".to_string() });
    let no_location = build_fetch_result(FetchOutcome::LocationLookupFailed);
    let msg = |r: FetchResult| match r {
        FetchResult::Failure { message } => message,
        _ => panic!("expected a failure result"),
    };
    assert_eq!(msg(rejected), "Error fetching weather data: Weather server error: boom");
    assert_eq!(
        msg(invalid),
        "Error fetching weather data: Failed to parse weather server response: eof"
    );
    assert_eq!(msg(bad_data), "Error fetching weather data: Failed to parse weather data: shape");
    assert_eq!(msg(no_location), "Error fetching weather data: Failed to get user location");
}
