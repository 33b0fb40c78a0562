//! The stored row of a poll.

use vstd::prelude::*;
use crate::models::{Poll, Timestamp, copy_opt_string};

verus! {

/// A row of the `polls` table.
#[derive(Debug, PartialEq, Eq)]
pub struct Model {
    pub uri: String,
    pub cid: String,
    pub did: String,
    pub topic: String,
    pub description: Option<String>,
    pub created_at: Timestamp,
    pub closed_at: Option<Timestamp>,
}

/// The columns of the `polls` table.
#[derive(Debug, Clone, Copy, PartialEq, Eq, Structural)]
pub enum Column {
    Uri,
    Cid,
    Did,
    Topic,
    Description,
    CreatedAt,
    ClosedAt,
}

/// The poll a row reads back as.
pub open spec fn row_poll(m: Model) -> Poll {
    Poll {
        topic: m.topic,
        description: m.description,
        created_at: m.created_at,
        closed_at: m.closed_at,
        uri: m.uri,
        did: m.did,
        cid: m.cid,
    }
}

impl Clone for Model {
    fn clone(&self) -> (r: Self)
        ensures
            r == *self,
    {
        Model {
            uri: self.uri.clone(),
            cid: self.cid.clone(),
            did: self.did.clone(),
            topic: self.topic.clone(),
            description: copy_opt_string(&self.description),
            created_at: self.created_at,
            closed_at: self.closed_at,
        }
    }
}

impl Model {
    /// The row that stores `poll` as the record `uri` / `cid` of the user
    /// `did` (the poll's own uri, cid and did are not used).
    pub fn from_poll(uri: &str, cid: &str, did: &str, poll: &Poll) -> (r: Model)
        ensures
            r.uri@ == uri@,
            r.cid@ == cid@,
            r.did@ == did@,
            r.topic == poll.topic,
            r.description == poll.description,
            r.created_at == poll.created_at,
            r.closed_at == poll.closed_at,
    {
        Model {
            uri: uri.to_owned(),
            cid: cid.to_owned(),
            did: did.to_owned(),
            topic: poll.topic.clone(),
            description: copy_opt_string(&poll.description),
            created_at: poll.created_at,
            closed_at: poll.closed_at,
        }
    }

    /// The poll this row stores.
    pub fn into_poll(self) -> (r: Poll)
        ensures
            r == row_poll(self),
    {
        Poll {
            topic: self.topic,
            description: self.description,
            created_at: self.created_at,
            closed_at: self.closed_at,
            uri: self.uri,
            did: self.did,
            cid: self.cid,
        }
    }
}

/// The columns an upsert of a poll overwrites when a row with the same uri
/// is already stored: the content id, topic, description and closing time.
/// The author and the creation time of the first write stay.
pub fn conflict_update_columns() -> (r: Vec<Column>)
    ensures
        r@ == seq![Column::Cid, Column::Topic, Column::Description, Column::ClosedAt],
{
    let mut v: Vec<Column> = Vec::new();
    v.push(Column::Cid);
    v.push(Column::Topic);
    v.push(Column::Description);
    v.push(Column::ClosedAt);
    assert(v@ =~= seq![Column::Cid, Column::Topic, Column::Description, Column::ClosedAt]);
    v
}

} // verus!
