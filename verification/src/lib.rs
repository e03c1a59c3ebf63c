//! A verified core for a coding-session companion: it tails newline-delimited
//! JSON transcripts, classifies records into domain events, aggregates them
//! into a presentation status, and decides when to add a personality comment.

pub mod classify;
pub mod config;
pub mod events;
pub mod jsonv;
pub mod lines;
pub mod offsets;
pub mod personality;
pub(crate) mod rng;
pub mod state;
pub mod text;
pub mod watch;
