//! Jetstream events and the collections of the deliberation lexicons.

use vstd::prelude::*;

verus! {

/// Collection of poll records.
pub const COLLECTION_POLL: &'static str = "com.crown-shy.testing.poll";
/// Collection of statement records.
pub const COLLECTION_STATEMENT: &'static str = "com.crown-shy.testing.statement";
/// Collection of vote records.
pub const COLLECTION_VOTE: &'static str = "com.crown-shy.testing.vote";
/// Collection of Bluesky posts.
pub const COLLECTION_POST: &'static str = "app.bsky.feed.post";

/// An event of the Jetstream firehose.
#[derive(Debug)]
pub enum JetstreamEvent {
    /// A commit to a repository.
    Commit { did: String, time_us: u64, commit: CommitData },
    /// Any other kind of event.
    Other,
}

/// The commit an event carries.
#[derive(Debug)]
pub struct CommitData {
    pub rev: String,
    pub operation: String,
    pub collection: String,
    pub rkey: String,
    /// The committed record, as JSON text; it is read according to the collection.
    pub record: String,
}

} // verus!
