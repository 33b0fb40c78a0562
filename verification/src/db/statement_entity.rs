//! The stored row of a statement.

use vstd::prelude::*;
use crate::models::{PollRef, Statement, Timestamp};

verus! {

/// A row of the `statements` table.
#[derive(Debug, PartialEq, Eq)]
pub struct Model {
    pub uri: String,
    pub cid: String,
    pub did: String,
    pub text: String,
    pub poll_uri: String,
    pub poll_cid: String,
    pub created_at: Timestamp,
}

/// The columns of the `statements` table.
#[derive(Debug, Clone, Copy, PartialEq, Eq, Structural)]
pub enum Column {
    Uri,
    Cid,
    Did,
    Text,
    PollUri,
    PollCid,
    CreatedAt,
}

/// The statement a row reads back as.
pub open spec fn row_statement(m: Model) -> Statement {
    Statement {
        text: m.text,
        poll: PollRef { uri: m.poll_uri, cid: m.poll_cid },
        created_at: m.created_at,
        did: m.did,
        cid: m.cid,
        uri: m.uri,
    }
}

impl Clone for Model {
    fn clone(&self) -> (r: Self)
        ensures
            r == *self,
    {
        Model {
            uri: self.uri.clone(),
            cid: self.cid.clone(),
            did: self.did.clone(),
            text: self.text.clone(),
            poll_uri: self.poll_uri.clone(),
            poll_cid: self.poll_cid.clone(),
            created_at: self.created_at,
        }
    }
}

impl Model {
    /// The row that stores `statement` as the record `uri` / `cid` of the
    /// user `did` (the statement's own uri, cid and did are not used).
    pub fn from_statement(uri: &str, cid: &str, did: &str, statement: &Statement) -> (r: Model)
        ensures
            r.uri@ == uri@,
            r.cid@ == cid@,
            r.did@ == did@,
            r.text == statement.text,
            r.poll_uri == statement.poll.uri,
            r.poll_cid == statement.poll.cid,
            r.created_at == statement.created_at,
    {
        Model {
            uri: uri.to_owned(),
            cid: cid.to_owned(),
            did: did.to_owned(),
            text: statement.text.clone(),
            poll_uri: statement.poll.uri.clone(),
            poll_cid: statement.poll.cid.clone(),
            created_at: statement.created_at,
        }
    }

    /// The statement this row stores.
    pub fn into_statement(self) -> (r: Statement)
        ensures
            r == row_statement(self),
    {
        Statement {
            text: self.text,
            poll: PollRef { uri: self.poll_uri, cid: self.poll_cid },
            created_at: self.created_at,
            did: self.did,
            cid: self.cid,
            uri: self.uri,
        }
    }
}

/// The columns an upsert of a statement overwrites when a row with the
/// same uri is already stored: the content id and the text.
pub fn conflict_update_columns() -> (r: Vec<Column>)
    ensures
        r@ == seq![Column::Cid, Column::Text],
{
    let mut v: Vec<Column> = Vec::new();
    v.push(Column::Cid);
    v.push(Column::Text);
    assert(v@ =~= seq![Column::Cid, Column::Text]);
    v
}

} // verus!
