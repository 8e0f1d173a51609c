//! Playback-state core of a single-track audio player: the position clock,
//! the session controller that plans seeks and relative skips, the decisions
//! of the decoder fallback path, and the command surface that shells use.
pub mod clock;
pub mod command;
pub mod decode;
pub mod service;
pub mod session;

pub use clock::PlaybackClock;
pub use command::Command;
pub use decode::{PlayerError, TrackInfo};
pub use service::{PlayerService, Request};
pub use session::{PlayerSession, SeekPlan};
