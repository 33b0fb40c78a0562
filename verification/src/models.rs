//! Records of the deliberation system: polls, the statements made on them
//! and the votes cast on statements.

use vstd::prelude::*;
use crate::text::{lowercase_of, same_text, to_lowercase};

verus! {

/// A point in time, as seconds since the Unix epoch and the nanoseconds
/// within that second.
#[derive(Debug, Clone, Copy, PartialEq, Eq)]
pub struct Timestamp {
    pub secs: i64,
    pub nanos: u32,
}

/// Whether `a` is no later than `b`.
pub open spec fn not_later(a: Timestamp, b: Timestamp) -> bool {
    a.secs < b.secs || (a.secs == b.secs && a.nanos <= b.nanos)
}

/// The possible values for a vote.
#[derive(Debug, Clone, Copy, PartialEq, Eq, Structural)]
pub enum VoteValue {
    Agree,
    Disagree,
    Pass,
}

/// Reference to a poll record.
#[derive(Debug, PartialEq, Eq)]
pub struct PollRef {
    /// AT-URI of the poll record
    pub uri: String,
    /// Content identifier of the poll record
    pub cid: String,
}

impl Clone for PollRef {
    fn clone(&self) -> (r: Self)
        ensures
            r == *self,
    {
        PollRef { uri: self.uri.clone(), cid: self.cid.clone() }
    }
}

/// Reference to a statement record.
#[derive(Debug, PartialEq, Eq)]
pub struct StatementRef {
    /// AT-URI of the statement record
    pub uri: String,
    /// Content identifier of the statement record
    pub cid: String,
}

impl Clone for StatementRef {
    fn clone(&self) -> (r: Self)
        ensures
            r == *self,
    {
        StatementRef { uri: self.uri.clone(), cid: self.cid.clone() }
    }
}

/// A poll, the topic put up for deliberation.
#[derive(Debug, PartialEq, Eq)]
pub struct Poll {
    /// The topic or question being discussed
    pub topic: String,
    /// Optional longer description of the poll
    pub description: Option<String>,
    /// When the poll was created
    pub created_at: Timestamp,
    /// When the poll was closed to new submissions, if it was
    pub closed_at: Option<Timestamp>,
    pub uri: String,
    pub did: String,
    pub cid: String,
}

/// A copy of an optional string.
pub fn copy_opt_string(s: &Option<String>) -> (r: Option<String>)
    ensures
        r == *s,
{
    match s {
        Some(t) => Some(t.clone()),
        None => None,
    }
}

impl Clone for Poll {
    fn clone(&self) -> (r: Self)
        ensures
            r == *self,
    {
        Poll {
            topic: self.topic.clone(),
            description: copy_opt_string(&self.description),
            created_at: self.created_at,
            closed_at: self.closed_at,
            uri: self.uri.clone(),
            did: self.did.clone(),
            cid: self.cid.clone(),
        }
    }
}

/// A statement made on a poll.
#[derive(Debug, PartialEq, Eq)]
pub struct Statement {
    /// The text content of the statement
    pub text: String,
    /// The poll this statement belongs to
    pub poll: PollRef,
    /// When the statement was created
    pub created_at: Timestamp,
    pub uri: String,
    pub did: String,
    pub cid: String,
}

impl Clone for Statement {
    fn clone(&self) -> (r: Self)
        ensures
            r == *self,
    {
        Statement {
            text: self.text.clone(),
            poll: self.poll.clone(),
            created_at: self.created_at,
            uri: self.uri.clone(),
            did: self.did.clone(),
            cid: self.cid.clone(),
        }
    }
}

/// A vote cast on a statement.
#[derive(Debug, PartialEq, Eq)]
pub struct Vote {
    /// The vote value
    pub value: VoteValue,
    /// The statement being voted on
    pub subject: StatementRef,
    /// The poll this vote belongs to
    pub poll: PollRef,
    /// When the vote was created
    pub created_at: Timestamp,
    pub uri: String,
    pub did: String,
    pub cid: String,
}

impl Clone for Vote {
    fn clone(&self) -> (r: Self)
        ensures
            r == *self,
    {
        Vote {
            value: self.value,
            subject: self.subject.clone(),
            poll: self.poll.clone(),
            created_at: self.created_at,
            uri: self.uri.clone(),
            did: self.did.clone(),
            cid: self.cid.clone(),
        }
    }
}


/// The lowercase word that names a vote value, as stored and as requested.
pub open spec fn vote_text(v: VoteValue) -> Seq<char> {
    match v {
        VoteValue::Agree => "agree"@,
        VoteValue::Disagree => "disagree"@,
        VoteValue::Pass => "pass"@,
    }
}

/// The vote value a stored word reads back as: one of the three words, or
/// `Pass` for any other text.
pub open spec fn stored_vote(s: Seq<char>) -> VoteValue {
    if s == "agree"@ {
        VoteValue::Agree
    } else if s == "disagree"@ {
        VoteValue::Disagree
    } else {
        VoteValue::Pass
    }
}

/// The vote value a requested word names, if it names one.
pub open spec fn chosen_vote(s: Seq<char>) -> Option<VoteValue> {
    if s == "agree"@ {
        Some(VoteValue::Agree)
    } else if s == "disagree"@ {
        Some(VoteValue::Disagree)
    } else if s == "pass"@ {
        Some(VoteValue::Pass)
    } else {
        None
    }
}

impl VoteValue {
    /// The word stored for this vote value.
    pub fn as_str(&self) -> (r: &'static str)
        ensures
            r@ == vote_text(*self),
    {
        match self {
            VoteValue::Agree => "agree",
            VoteValue::Disagree => "disagree",
            VoteValue::Pass => "pass",
        }
    }

    /// Reads a stored word back into a vote value; an unknown word reads as `Pass`.
    pub fn from_stored(s: &str) -> (r: VoteValue)
        ensures
            r == stored_vote(s@),
    {
        if same_text(s, "agree") {
            VoteValue::Agree
        } else if same_text(s, "disagree") {
            VoteValue::Disagree
        } else {
            VoteValue::Pass
        }
    }

    /// The vote value that an already lowercased request word names.
    pub fn from_choice(lowered: &str) -> (r: Option<VoteValue>)
        ensures
            r == chosen_vote(lowered@),
    {
        if same_text(lowered, "agree") {
            Some(VoteValue::Agree)
        } else if same_text(lowered, "disagree") {
            Some(VoteValue::Disagree)
        } else if same_text(lowered, "pass") {
            Some(VoteValue::Pass)
        } else {
            None
        }
    }

    /// Parses the vote value of a request: the word is lowercased first, so
    /// that "Agree" and "AGREE" name the same value as "agree".
    pub fn parse_choice(value: &str) -> (r: Option<VoteValue>)
        ensures
            r == chosen_vote(lowercase_of(value@)),
    {
        let lowered = to_lowercase(value);
        VoteValue::from_choice(lowered.as_str())
    }
}

/// The three vote words are pairwise different (they differ in length).
proof fn lemma_vote_words_differ()
    ensures
        "agree"@ != "disagree"@,
        "agree"@ != "pass"@,
        "disagree"@ != "pass"@,
{
    reveal_strlit("agree");
    reveal_strlit("disagree");
    reveal_strlit("pass");
    assert("agree"@.len() == 5);
    assert("disagree"@.len() == 8);
    assert("pass"@.len() == 4);
}

/// A stored vote value reads back as the value that was stored.
pub proof fn lemma_stored_vote_round_trip(v: VoteValue)
    ensures
        stored_vote(vote_text(v)) == v,
{
    lemma_vote_words_differ();
}

/// The word stored for a vote value is a request word that names that value,
/// and a request word names a value only when it is that value's word.
pub proof fn lemma_chosen_vote_is_vote_text(v: VoteValue, s: Seq<char>)
    ensures
        chosen_vote(vote_text(v)) == Some(v),
        chosen_vote(s) == Some(v) <==> s == vote_text(v),
{
    lemma_vote_words_differ();
}

} // verus!
