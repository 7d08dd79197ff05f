//! Session engine of a multiplayer song-guessing party game.
//!
//! A lobby is a deterministic state machine: players join, ready up, and a
//! scheduler walks through timed rounds while guesses are credited. Every
//! transition is an ordinary function from the current state and one input
//! to the next state and the events to publish, so the surrounding server
//! only has to move bytes and keep time.

pub mod catalog;
pub mod codes;
pub mod connection;
pub mod events;
pub mod game;
pub mod game_state;
pub mod games;
pub mod ids;
pub mod laws;
pub mod lobby;
pub mod scheduler;
pub mod settings;
pub mod song;
pub mod text;
