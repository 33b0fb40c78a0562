//! The stored row of a vote.

use vstd::prelude::*;
use crate::models::{
    PollRef, StatementRef, Timestamp, Vote, VoteValue, stored_vote, vote_text,
};

verus! {

/// A row of the `votes` table; the value is stored as its word
/// ("agree", "disagree" or "pass").
#[derive(Debug, PartialEq, Eq)]
pub struct Model {
    pub uri: String,
    pub cid: String,
    pub did: String,
    pub value: String,
    pub statement_uri: String,
    pub statement_cid: String,
    pub poll_uri: String,
    pub poll_cid: String,
    pub created_at: Timestamp,
}

/// The columns of the `votes` table.
#[derive(Debug, Clone, Copy, PartialEq, Eq, Structural)]
pub enum Column {
    Uri,
    Cid,
    Did,
    Value,
    StatementUri,
    StatementCid,
    PollUri,
    PollCid,
    CreatedAt,
}

/// The vote a row reads back as; a word other than the three reads as `Pass`.
pub open spec fn row_vote(m: Model) -> Vote {
    Vote {
        value: stored_vote(m.value@),
        subject: StatementRef { uri: m.statement_uri, cid: m.statement_cid },
        poll: PollRef { uri: m.poll_uri, cid: m.poll_cid },
        did: m.did,
        cid: m.cid,
        uri: m.uri,
        created_at: m.created_at,
    }
}

impl Clone for Model {
    fn clone(&self) -> (r: Self)
        ensures
            r == *self,
    {
        Model {
            uri: self.uri.clone(),
            cid: self.cid.clone(),
            did: self.did.clone(),
            value: self.value.clone(),
            statement_uri: self.statement_uri.clone(),
            statement_cid: self.statement_cid.clone(),
            poll_uri: self.poll_uri.clone(),
            poll_cid: self.poll_cid.clone(),
            created_at: self.created_at,
        }
    }
}

impl Model {
    /// The row that stores `vote` as the record `uri` / `cid` of the user
    /// `did` (the vote's own uri, cid and did are not used).
    pub fn from_vote(uri: &str, cid: &str, did: &str, vote: &Vote) -> (r: Model)
        ensures
            r.uri@ == uri@,
            r.cid@ == cid@,
            r.did@ == did@,
            r.value@ == vote_text(vote.value),
            r.statement_uri == vote.subject.uri,
            r.statement_cid == vote.subject.cid,
            r.poll_uri == vote.poll.uri,
            r.poll_cid == vote.poll.cid,
            r.created_at == vote.created_at,
    {
        Model {
            uri: uri.to_owned(),
            cid: cid.to_owned(),
            did: did.to_owned(),
            value: vote.value.as_str().to_owned(),
            statement_uri: vote.subject.uri.clone(),
            statement_cid: vote.subject.cid.clone(),
            poll_uri: vote.poll.uri.clone(),
            poll_cid: vote.poll.cid.clone(),
            created_at: vote.created_at,
        }
    }

    /// The vote this row stores.
    pub fn into_vote(self) -> (r: Vote)
        ensures
            r == row_vote(self),
    {
        let value = VoteValue::from_stored(self.value.as_str());
        Vote {
            value,
            subject: StatementRef { uri: self.statement_uri, cid: self.statement_cid },
            poll: PollRef { uri: self.poll_uri, cid: self.poll_cid },
            did: self.did,
            cid: self.cid,
            uri: self.uri,
            created_at: self.created_at,
        }
    }
}

/// The columns an upsert of a vote overwrites when a row with the same
/// uri is already stored: the content id and the value.
pub fn conflict_update_columns() -> (r: Vec<Column>)
    ensures
        r@ == seq![Column::Cid, Column::Value],
{
    let mut v: Vec<Column> = Vec::new();
    v.push(Column::Cid);
    v.push(Column::Value);
    assert(v@ =~= seq![Column::Cid, Column::Value]);
    v
}

} // verus!
