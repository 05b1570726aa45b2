//! The single-flight fetch orchestrator.
//!
//! A render loop polls on every frame and must never block, while one
//! background task at a time runs the multi-step fetch pipeline. The two
//! share only this state: an in-flight flag and a single result slot. The
//! render loop calls [`Orchestrator::poll`] under a short-lived lock; the
//! background task, when done, calls [`Orchestrator::publish`] under the same
//! lock. Because each call is one indivisible step over the shared state,
//! the contracts here pin down the two guarantees the display depends on:
//! at most one fetch is ever in flight, and a finished fetch is never
//! observable without its result.

use vstd::prelude::*;
use vstd::string::StringExecFns;

use crate::error::WeatherError;
use crate::text::capitalized;
use crate::weather::{
    format_weather_data, snapshot_wellformed, summary_text, WeatherResponse,
};
use crate::weather_type::{classify, determine_weather_type, WeatherType};

verus! {

/// What one fetch cycle produced: a formatted result ready for display, or a
/// user-facing message saying why there is none.
pub enum FetchResult {
    Success {
        summary_text: String,
        short_description: String,
        location_label: String,
        category: WeatherType,
    },
    Failure {
        message: String,
    },
}

/// What the render loop displays: nothing yet, or the content of the last
/// consumed fetch result.
pub struct DisplayState {
    pub weather_data: Option<String>,
    pub daily_weather_description: Option<String>,
    pub location: Option<String>,
    pub weather_type: WeatherType,
}

/// A display with no data yet: the render loop shows a spinner and the first
/// poll starts a fetch.
pub open spec fn empty_display() -> DisplayState {
    DisplayState {
        weather_data: None,
        daily_weather_description: None,
        location: None,
        weather_type: WeatherType::Clear,
    }
}

/// A consumed fetch result applied to the display: a success fills every
/// field; a failure shows its message alone, with the neutral category.
pub open spec fn apply_result(r: FetchResult) -> DisplayState {
    match r {
        FetchResult::Success { summary_text, short_description, location_label, category } => DisplayState {
            weather_data: Some(summary_text),
            daily_weather_description: Some(short_description),
            location: Some(location_label),
            weather_type: category,
        },
        FetchResult::Failure { message } => DisplayState {
            weather_data: Some(message),
            daily_weather_description: None,
            location: None,
            weather_type: WeatherType::Clear,
        },
    }
}

/// What a poll did: started the one background fetch, consumed a pending
/// result into the display, or nothing.
#[derive(Clone, Copy, Debug, PartialEq, Eq, Structural)]
pub enum PollAction {
    StartFetch,
    Consumed,
    Wait,
}

/// The shared state between the render loop and the background task: the
/// in-flight flag, the single result slot, and the displayed data.
pub struct Orchestrator {
    pub in_flight: bool,
    pub pending_result: Option<FetchResult>,
    pub display: DisplayState,
}

impl Orchestrator {
    /// The states a poll may observe: while a fetch is in flight the slot is
    /// empty, since the result is published and the flag cleared in one
    /// indivisible step. Equivalently: fetching with no result yet, idle
    /// with a result waiting, or idle with nothing pending.
    pub open spec fn wf(self) -> bool {
        self.in_flight ==> self.pending_result is None
    }

    /// The next state after a poll: a pending result is consumed into the
    /// display; otherwise, when idle with nothing displayed yet, the fetch
    /// starts; otherwise nothing changes.
    pub open spec fn poll_next(self) -> Orchestrator {
        if self.pending_result is Some {
            Orchestrator {
                in_flight: self.in_flight,
                pending_result: None,
                display: apply_result(self.pending_result->0),
            }
        } else if !self.in_flight && self.display.weather_data is None {
            Orchestrator { in_flight: true, ..self }
        } else {
            self
        }
    }

    /// The action a poll takes, matching [`Self::poll_next`].
    pub open spec fn poll_action(self) -> PollAction {
        if self.pending_result is Some {
            PollAction::Consumed
        } else if !self.in_flight && self.display.weather_data is None {
            PollAction::StartFetch
        } else {
            PollAction::Wait
        }
    }

    /// The next state after the background task publishes its result: the
    /// slot is filled and the flag cleared in the same step.
    pub open spec fn publish_next(self, r: FetchResult) -> Orchestrator {
        Orchestrator { in_flight: false, pending_result: Some(r), display: self.display }
    }

    /// A fresh orchestrator: idle, nothing pending, nothing displayed.
    pub fn new() -> (s: Orchestrator)
        ensures
            s == (Orchestrator {
                in_flight: false,
                pending_result: None,
                display: empty_display(),
            }),
    {
        Orchestrator {
            in_flight: false,
            pending_result: None,
            display: DisplayState {
                weather_data: None,
                daily_weather_description: None,
                location: None,
                weather_type: WeatherType::Clear,
            },
        }
    }

    /// One poll from the render loop. Consumes a pending result into the
    /// display (moving it, not copying); otherwise, when idle with nothing
    /// displayed yet, flips to fetching in the same indivisible step and
    /// tells the caller to launch the background task; otherwise does
    /// nothing. Never blocks.
    pub fn poll(&mut self) -> (a: PollAction)
        ensures
            *final(self) == old(self).poll_next(),
            a == old(self).poll_action(),
    {
        match self.pending_result.take() {
            Some(r) => {
                self.display = match r {
                    FetchResult::Success {
                        summary_text,
                        short_description,
                        location_label,
                        category,
                    } => DisplayState {
                        weather_data: Some(summary_text),
                        daily_weather_description: Some(short_description),
                        location: Some(location_label),
                        weather_type: category,
                    },
                    FetchResult::Failure { message } => DisplayState {
                        weather_data: Some(message),
                        daily_weather_description: None,
                        location: None,
                        weather_type: WeatherType::Clear,
                    },
                };
                PollAction::Consumed
            },
            None => {
                if !self.in_flight && self.display.weather_data.is_none() {
                    self.in_flight = true;
                    PollAction::StartFetch
                } else {
                    PollAction::Wait
                }
            },
        }
    }

    /// The background task hands over its result: the slot is filled and the
    /// in-flight flag cleared as one step, so no poll can observe the fetch
    /// as finished without the result being there.
    pub fn publish(&mut self, r: FetchResult)
        requires
            old(self).in_flight,
        ensures
            *final(self) == old(self).publish_next(r),
    {
        self.pending_result = Some(r);
        self.in_flight = false;
    }
}

/// How one run of the background pipeline ended. The pipeline resolves the
/// caller's location, asks the relay for weather, and parses what came back;
/// each way it can stop short is a variant, with the transport's own words
/// as `detail` where there are any.
pub enum FetchOutcome {
    /// The provider credential is not configured.
    CredentialMissing,
    /// The IP-geolocation lookup failed or answered badly.
    LocationLookupFailed,
    /// The relay could not be reached at all.
    RelayUnreachable { detail: String },
    /// The relay answered with an error status; `detail` is its error body.
    RelayRejected { detail: String },
    /// The relay's response body could not be parsed.
    RelayResponseInvalid { detail: String },
    /// The weather payload inside the relay's response could not be parsed.
    WeatherDataInvalid { detail: String },
    /// Every step succeeded: the normalized payload, the convenience
    /// description of today's weather, and the resolved city.
    Completed { weather: WeatherResponse, daily_weather_description: String, city: String },
}

/// The static guidance shown when the provider credential is missing:
/// remediation differs from a network failure, so the message does too.
pub open spec fn credential_guidance() -> Seq<char> {
    "API Key Missing: Please set OPENWEATHERMAP_API_KEY environment variable.\n\nFor packaged apps, you can:\n1. Create a .env file in the app's directory\n2. Or set it as a system environment variable\n3. Or run: export OPENWEATHERMAP_API_KEY='your-key' before launching"@
}

/// Turns the outcome of one background pipeline run into the fetch result
/// that is published to the render loop: on success, the formatted summary,
/// the capitalized short description, the location label and the condition
/// category; on any failure, a message whose guidance is specific to the
/// failure class. No outcome escapes as a fault: every run publishes
/// something.
pub fn build_fetch_result(o: FetchOutcome) -> (r: FetchResult)
    ensures
        ({
            match o {
                FetchOutcome::CredentialMissing => r matches FetchResult::Failure { message }
                    && message@ == credential_guidance(),
                FetchOutcome::LocationLookupFailed => r matches FetchResult::Failure { message }
                    && message@ == "Error fetching weather data: Failed to get user location"@,
                FetchOutcome::RelayUnreachable { detail } => r matches FetchResult::Failure {
                    message,
                } && message@ == "Error fetching weather data: Failed to connect to weather server: "@
                    + detail@ + ". Make sure the proxy server is running."@,
                FetchOutcome::RelayRejected { detail } => r matches FetchResult::Failure { message }
                    && message@ == "Error fetching weather data: Weather server error: "@ + detail@,
                FetchOutcome::RelayResponseInvalid { detail } => r matches FetchResult::Failure {
                    message,
                } && message@
                    == "Error fetching weather data: Failed to parse weather server response: "@
                    + detail@,
                FetchOutcome::WeatherDataInvalid { detail } => r matches FetchResult::Failure {
                    message,
                } && message@ == "Error fetching weather data: Failed to parse weather data: "@
                    + detail@,
                FetchOutcome::Completed { weather, daily_weather_description, city } => {
                    if snapshot_wellformed(weather) {
                        r matches FetchResult::Success {
                            summary_text: st,
                            short_description: sd,
                            location_label: ll,
                            category: c,
                        } && st@ == summary_text(weather) && sd@ == capitalized(
                            daily_weather_description@,
                        ) && ll@ == city@ && c == classify(daily_weather_description@)
                    } else {
                        r matches FetchResult::Failure { message } && message@
                            == "Error fetching weather data: "@ + crate::weather::malformed_detail(
                            weather,
                        )
                    }
                },
            }
        }),
{
    match o {
        FetchOutcome::CredentialMissing => FetchResult::Failure {
            message: String::from_str(
                "API Key Missing: Please set OPENWEATHERMAP_API_KEY environment variable.\n\nFor packaged apps, you can:\n1. Create a .env file in the app's directory\n2. Or set it as a system environment variable\n3. Or run: export OPENWEATHERMAP_API_KEY='your-key' before launching",
            ),
        },
        FetchOutcome::LocationLookupFailed => FetchResult::Failure {
            message: String::from_str("Error fetching weather data: Failed to get user location"),
        },
        FetchOutcome::RelayUnreachable { detail } => {
            let mut message = String::from_str(
                "Error fetching weather data: Failed to connect to weather server: ",
            );
            message.append(detail.as_str());
            message.append(". Make sure the proxy server is running.");
            FetchResult::Failure { message }
        },
        FetchOutcome::RelayRejected { detail } => {
            let mut message = String::from_str(
                "Error fetching weather data: Weather server error: ",
            );
            message.append(detail.as_str());
            FetchResult::Failure { message }
        },
        FetchOutcome::RelayResponseInvalid { detail } => {
            let mut message = String::from_str(
                "Error fetching weather data: Failed to parse weather server response: ",
            );
            message.append(detail.as_str());
            FetchResult::Failure { message }
        },
        FetchOutcome::WeatherDataInvalid { detail } => {
            let mut message = String::from_str(
                "Error fetching weather data: Failed to parse weather data: ",
            );
            message.append(detail.as_str());
            FetchResult::Failure { message }
        },
        FetchOutcome::Completed { weather, daily_weather_description, city } => {
            match format_weather_data(&weather) {
                Ok(formatted) => {
                    let category = determine_weather_type(daily_weather_description.as_str());
                    let short = crate::text::capitalize_first_letter(
                        daily_weather_description.as_str(),
                    );
                    FetchResult::Success {
                        summary_text: formatted.0,
                        short_description: short,
                        location_label: city,
                        category,
                    }
                },
                Err(e) => {
                    let mut message = String::from_str("Error fetching weather data: ");
                    match e {
                        WeatherError::MalformedPayload { detail } => {
                            message.append(detail.as_str());
                        },
                        _ => {
                            assert(false);
                        },
                    }
                    FetchResult::Failure { message }
                },
            }
        },
    }
}

/// Single flight: once a poll has started the fetch, every further poll
/// leaves the in-flight flag set and starts nothing, until a publish
/// intervenes. So however many polls race over one idle state, exactly one
/// launches the background task.
pub proof fn lemma_single_flight(s: Orchestrator)
    requires
        s.wf(),
        s.poll_action() == PollAction::StartFetch,
    ensures
        s.poll_next().in_flight,
        s.poll_next().wf(),
        s.poll_next().poll_action() != PollAction::StartFetch,
{
}

/// The state after `n` polls in a row with no publish between them.
pub open spec fn poll_many(s: Orchestrator, n: nat) -> Orchestrator
    decreases n,
{
    if n == 0 {
        s
    } else {
        poll_many(s, (n - 1) as nat).poll_next()
    }
}

/// However many polls follow one another while a fetch is in flight, none
/// starts a second fetch and none changes the state: the launch happens
/// exactly once per cycle.
pub proof fn lemma_no_second_fetch(s: Orchestrator, n: nat)
    requires
        s.wf(),
        s.in_flight,
    ensures
        poll_many(s, n) == s,
        poll_many(s, n).poll_action() != PollAction::StartFetch,
    decreases n,
{
    if n > 0 {
        lemma_no_second_fetch(s, (n - 1) as nat);
    }
}

/// While a fetch is in flight, polling is a no-op: it cannot start a second
/// fetch and leaves the state as it is.
pub proof fn lemma_poll_while_fetching(s: Orchestrator)
    requires
        s.wf(),
        s.in_flight,
    ensures
        s.poll_action() == PollAction::Wait,
        s.poll_next() == s,
{
}

/// No torn read: publishing fills the result slot and clears the in-flight
/// flag in the same step, so no observable state has the fetch finished with
/// nothing pending. The next poll consumes exactly the published result
/// into the display and empties the slot.
pub proof fn lemma_publish_then_consume(s: Orchestrator, r: FetchResult)
    requires
        s.wf(),
        s.in_flight,
    ensures
        s.publish_next(r).wf(),
        !s.publish_next(r).in_flight,
        s.publish_next(r).pending_result == Some(r),
        s.publish_next(r).poll_action() == PollAction::Consumed,
        s.publish_next(r).poll_next().display == apply_result(r),
        s.publish_next(r).poll_next().pending_result is None,
{
}

/// Every step preserves the well-formedness that polls rely on: polling from
/// any well-formed state, and publishing from a fetching state, land in a
/// well-formed state again.
pub proof fn lemma_steps_preserve_wf(s: Orchestrator, r: FetchResult)
    ensures
        s.wf() ==> s.poll_next().wf(),
        s.in_flight ==> s.publish_next(r).wf(),
{
}

} // verus!
