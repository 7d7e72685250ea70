//! Core of an interactive ambient-sound mixer.
//!
//! The library holds the mixer's control state — an ordered registry of
//! channels, each with a discrete volume level and a play state, a cyclic
//! selection cursor, and a session-wide master pause — together with the
//! pure windowing algorithm that maps the channel list onto a bounded
//! display area. Everything that touches a terminal, the file system or an
//! audio device stays outside; callers feed key events in and carry the
//! returned playback directives out to their audio backend.

pub mod control;
pub mod discovery;
pub mod cursor;
pub mod mixer;
pub mod viewport;

pub use control::{dispatch, Command, Key, Step};
pub use cursor::cycle;
pub use discovery::is_playable_extension;
pub use mixer::{Channel, Directive, Mixer};
pub use viewport::{window, Row, Window};
