//! Playback engine of a terminal music player.
//!
//! The engine is a state machine over a queue of tracks. Time is handed in by
//! the caller as a reading of a monotonic clock in nanoseconds, and everything
//! the engine wants the audio device to do is recorded as a [`SinkCommand`],
//! which the caller drains and carries out.
pub mod input;
pub mod laws;
pub mod model;
pub mod player;
pub mod playlist;
pub mod probe;
pub mod sink;
pub mod status;

pub use input::InputMode;
pub use player::MusicPlayer;
pub use playlist::{PlayList, PlayListItem};
pub use probe::{PlayError, ProbeReport};
pub use sink::SinkCommand;
pub use status::PlayStatus;
