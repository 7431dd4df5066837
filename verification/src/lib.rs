//! The simulation core of a three-lane arcade mini-game, together with the
//! bookkeeping of the music player that it is embedded in.
//!
//! All time is an input: every operation that depends on the clock takes the
//! current reading of a monotonic clock in whole milliseconds.
pub mod clock;
pub mod game;
pub mod jukebox_state;
