//! Core of a small record service: settings, the error taxonomy and its
//! HTTP mapping, the record types, the latency probe's draw, and the
//! lifecycle state machine that orders startup, serving and shutdown.
pub mod error;
pub mod latency;
pub mod lifecycle;
mod outside;
pub mod settings;
pub mod types;

pub use error::{Error, Result};
pub use latency::latency_millis;
pub use lifecycle::{Action, Event, Phase};
pub use settings::{ApplicationSettings, DbSettings, Settings};
pub use types::{Cat, EyeColor};
