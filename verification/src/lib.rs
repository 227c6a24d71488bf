//! The logic of Yastr, a small Nostr relay for a circle of friends: which
//! events it takes in, which statements it runs, what it answers, and how it
//! serves the files that are stored in events.

pub mod text;
pub mod event;
pub mod sqlx_extras;
pub mod message;
pub mod db;
pub mod commands;
pub mod server;
