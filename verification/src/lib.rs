//! Verified core of a Polis-style deliberation service on the AT Protocol:
//! polls, statements and votes, the hashtags a firehose consumer watches,
//! and the decisions the HTTP handlers make.

pub mod agents;
pub mod auth;
pub mod db;
pub mod handlers;
pub mod jetstream;
pub mod lexicon;
pub mod mentions;
pub mod models;
pub mod oauth2;
pub mod records;
pub mod tags;
pub mod text;

pub use mentions::{Mention, TagReport};
pub use records::{CreatePoll, CreateStatement, CreateVote};
