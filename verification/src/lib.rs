//! The logic of a chat bot for a speedrunning community: who a command is
//! about, what the leaderboard's answers look like once they are put into
//! words, and the smaller decisions that commands make on the way.
//!
//! Nothing in here talks to the outside. The program around the library
//! fetches and sends; the library says what to ask for and what to show.

pub mod commands;
pub mod custom_params;
pub mod database;
pub mod error;
pub mod global_api;
pub mod logging;
pub mod pagination;
pub mod params;
pub mod steam_id;
pub mod target;
pub mod text;

pub use error::{Error, Result};
