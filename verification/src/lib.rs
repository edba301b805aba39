//! The verified core of a music-player daemon: its playlist, its decisions on
//! requests and media events, the framing of its messages, and a stopwatch.
pub mod ipc;
pub mod manager;
pub mod player;
pub mod stopwatch;
pub mod time;
