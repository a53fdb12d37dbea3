//! Keeps a "now playing" presence display, and the system's media controls,
//! in sync with a music player.
//!
//! The crate holds the decisions only: which timestamps to show, what the
//! presence payload looks like, when to connect, send, clear or close. The
//! caller owns the connection and the clock, performs what the worker asks for
//! and reports how it went.
//!
//! - `model`: the values that callers hand in.
//! - `channel`: the commands and the queue that carries them to the worker.
//! - `text`: prefixes, replacement, cutting and decimal numbers on text.
//! - `snapshot`: the record of the active track with its derived texts.
//! - `timestamps`: the progress window while playing and while paused.
//! - `payload`: what the display is asked to show.
//! - `update`: what to ask of an open connection.
//! - `worker`: the state machine that ties these together.
//! - `invariants`: what holds of the worker in every state it can reach.
//! - `smtc`: the session with the system's media transport controls.

pub mod channel;
pub mod invariants;
pub mod model;
pub mod payload;
pub mod smtc;
pub mod snapshot;
pub mod text;
pub mod timestamps;
pub mod update;
pub mod worker;
