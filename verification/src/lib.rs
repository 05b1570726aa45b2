//! Live local weather, verified at its core.
//!
//! The crate holds the logic of a small weather display: a classifier that
//! maps free-text weather descriptions to a closed set of condition
//! categories, a formatter that renders a normalized weather snapshot as a
//! human-readable summary, a single-flight fetch orchestrator that bridges a
//! blocking network pipeline into a non-blocking render loop, and the
//! decision logic of an aggregation relay that resolves coordinates and
//! fetches weather from upstream providers.
//!
//! Network calls, window creation and rendering live outside this crate; the
//! functions here take plain values and hand plain values back, with their
//! behaviour stated in contracts.

pub mod error;
pub mod orchestrator;
pub mod relay;
pub mod text;
pub mod weather;
pub mod weather_type;
