//! Persistent state of a game and its byte layout.

pub mod bytes;
pub mod game;
