//! The stored rows of polls, statements and votes, what they read back as,
//! and the choice of the next statement a user is asked to vote on.

pub mod poll_entity;
pub mod statement_entity;
pub mod vote_entity;

use vstd::prelude::*;
use crate::models::{not_later, Poll, Statement, Vote, vote_text};
use crate::text::same_text;
use poll_entity::row_poll;
use statement_entity::row_statement;
use vote_entity::row_vote;

verus! {

/// The polls some rows read back as, in the rows' order.
pub fn polls_from_models(models: &Vec<poll_entity::Model>) -> (r: Vec<Poll>)
    ensures
        r@ == models@.map_values(|m: poll_entity::Model| row_poll(m)),
{
    let mut out: Vec<Poll> = Vec::new();
    let mut i: usize = 0;
    while i < models.len()
        invariant
            0 <= i <= models.len(),
            out@ =~= models@.take(i as int).map_values(|m: poll_entity::Model| row_poll(m)),
        decreases models.len() - i,
    {
        out.push(models[i].clone().into_poll());
        i = i + 1;
    }
    assert(models@.take(models.len() as int) =~= models@);
    out
}

/// The statements some rows read back as, in the rows' order.
pub fn statements_from_models(models: &Vec<statement_entity::Model>) -> (r: Vec<Statement>)
    ensures
        r@ == models@.map_values(|m: statement_entity::Model| row_statement(m)),
{
    let mut out: Vec<Statement> = Vec::new();
    let mut i: usize = 0;
    while i < models.len()
        invariant
            0 <= i <= models.len(),
            out@ =~= models@.take(i as int).map_values(
                |m: statement_entity::Model| row_statement(m),
            ),
        decreases models.len() - i,
    {
        out.push(models[i].clone().into_statement());
        i = i + 1;
    }
    assert(models@.take(models.len() as int) =~= models@);
    out
}

/// The votes some rows read back as, in the rows' order.
pub fn votes_from_models(models: &Vec<vote_entity::Model>) -> (r: Vec<Vote>)
    ensures
        r@ == models@.map_values(|m: vote_entity::Model| row_vote(m)),
{
    let mut out: Vec<Vote> = Vec::new();
    let mut i: usize = 0;
    while i < models.len()
        invariant
            0 <= i <= models.len(),
            out@ =~= models@.take(i as int).map_values(|m: vote_entity::Model| row_vote(m)),
        decreases models.len() - i,
    {
        out.push(models[i].clone().into_vote());
        i = i + 1;
    }
    assert(models@.take(models.len() as int) =~= models@);
    out
}

/// A vote stored with `from_vote` reads back as the vote that was written,
/// under the record uri, content id and author it was stored as.
pub proof fn lemma_vote_row_reads_back(m: vote_entity::Model, v: Vote)
    requires
        m.value@ == vote_text(v.value),
        m.statement_uri == v.subject.uri,
        m.statement_cid == v.subject.cid,
        m.poll_uri == v.poll.uri,
        m.poll_cid == v.poll.cid,
        m.created_at == v.created_at,
    ensures
        row_vote(m).value == v.value,
        row_vote(m).subject == v.subject,
        row_vote(m).poll == v.poll,
        row_vote(m).created_at == v.created_at,
        row_vote(m).uri == m.uri && row_vote(m).cid == m.cid && row_vote(m).did == m.did,
{
    crate::models::lemma_stored_vote_round_trip(v.value);
}

/// A poll stored with `from_poll` reads back as the poll that was written,
/// under the record uri, content id and author it was stored as.
pub proof fn lemma_poll_row_reads_back(m: poll_entity::Model, p: Poll)
    requires
        m.topic == p.topic,
        m.description == p.description,
        m.created_at == p.created_at,
        m.closed_at == p.closed_at,
    ensures
        row_poll(m) == (Poll { uri: m.uri, cid: m.cid, did: m.did, ..p }),
{
}

/// A statement stored with `from_statement` reads back as the statement
/// that was written, under the record uri, content id and author it was
/// stored as.
pub proof fn lemma_statement_row_reads_back(m: statement_entity::Model, s: Statement)
    requires
        m.text == s.text,
        m.poll_uri == s.poll.uri,
        m.poll_cid == s.poll.cid,
        m.created_at == s.created_at,
    ensures
        row_statement(m) == (Statement { uri: m.uri, cid: m.cid, did: m.did, ..s }),
{
}

/// Whether the user `did` has a vote on the statement at `statement_uri`.
pub open spec fn has_voted(votes: Seq<Vote>, did: Seq<char>, statement_uri: Seq<char>) -> bool {
    exists|j: int|
        0 <= j < votes.len() && (#[trigger] votes[j]).did@ == did && votes[j].subject.uri@
            == statement_uri
}

/// Whether `i` is the first statement the user `did` has not voted on.
pub open spec fn is_first_unvoted(
    statements: Seq<Statement>,
    votes: Seq<Vote>,
    did: Seq<char>,
    i: int,
) -> bool {
    &&& 0 <= i < statements.len()
    &&& !has_voted(votes, did, statements[i].uri@)
    &&& forall|j: int| 0 <= j < i ==> has_voted(votes, did, #[trigger] statements[j].uri@)
}

/// The position of the first statement the user `did` has not voted on.
pub open spec fn first_unvoted(statements: Seq<Statement>, votes: Seq<Vote>, did: Seq<char>) -> Option<
    int,
> {
    if exists|i: int| is_first_unvoted(statements, votes, did, i) {
        Some(choose|i: int| is_first_unvoted(statements, votes, did, i))
    } else {
        None
    }
}

/// Whether `votes` holds a vote by `did` on the statement at `uri`.
fn voted_on(votes: &Vec<Vote>, did: &str, uri: &str) -> (r: bool)
    ensures
        r == has_voted(votes@, did@, uri@),
{
    let mut j: usize = 0;
    while j < votes.len()
        invariant
            0 <= j <= votes.len(),
            forall|k: int|
                0 <= k < j ==> !((#[trigger] votes@[k]).did@ == did@ && votes@[k].subject.uri@
                    == uri@),
        decreases votes.len() - j,
    {
        if same_text(votes[j].did.as_str(), did) && same_text(
            votes[j].subject.uri.as_str(),
            uri,
        ) {
            return true;
        }
        j = j + 1;
    }
    false
}

/// The next statement the user `did` is asked to vote on: the first of
/// `statements` (in the order given, oldest first) that none of `votes` by
/// that user is on; `None` when the user has voted on them all.
pub fn next_unvoted_statement(statements: &Vec<Statement>, votes: &Vec<Vote>, did: &str) -> (r:
    Option<Statement>)
    ensures
        match first_unvoted(statements@, votes@, did@) {
            Some(i) => r == Some(statements@[i]),
            None => r is None,
        },
        r is None <==> forall|j: int|
            0 <= j < statements@.len() ==> has_voted(votes@, did@, #[trigger] statements@[j].uri@),
{
    let mut i: usize = 0;
    while i < statements.len()
        invariant
            0 <= i <= statements.len(),
            forall|j: int| 0 <= j < i ==> has_voted(votes@, did@, #[trigger] statements@[j].uri@),
        decreases statements.len() - i,
    {
        if !voted_on(votes, did, statements[i].uri.as_str()) {
            proof {
                assert(is_first_unvoted(statements@, votes@, did@, i as int));
                let c = choose|k: int| is_first_unvoted(statements@, votes@, did@, k);
                lemma_first_unvoted_unique(statements@, votes@, did@, c, i as int);
            }
            return Some(statements[i].clone());
        }
        i = i + 1;
    }
    proof {
        if exists|k: int| is_first_unvoted(statements@, votes@, did@, k) {
            let k = choose|k: int| is_first_unvoted(statements@, votes@, did@, k);
            assert(has_voted(votes@, did@, statements@[k].uri@));
        }
    }
    None
}

proof fn lemma_first_unvoted_unique(
    statements: Seq<Statement>,
    votes: Seq<Vote>,
    did: Seq<char>,
    i: int,
    k: int,
)
    requires
        is_first_unvoted(statements, votes, did, i),
        is_first_unvoted(statements, votes, did, k),
    ensures
        i == k,
{
    if i < k {
        assert(has_voted(votes, did, statements[i].uri@));
    } else if k < i {
        assert(has_voted(votes, did, statements[k].uri@));
    }
}

/// Once the user votes on the statement they were asked about, they are
/// never asked about it, or any earlier statement, again: the next one
/// comes later in the list, or there is none.
pub proof fn lemma_vote_moves_to_later_statement(
    statements: Seq<Statement>,
    votes: Seq<Vote>,
    did: Seq<char>,
    vote: Vote,
)
    requires
        first_unvoted(statements, votes, did) is Some,
        vote.did@ == did,
        vote.subject.uri@ == statements[first_unvoted(statements, votes, did)->0].uri@,
    ensures
        match first_unvoted(statements, votes.push(vote), did) {
            Some(k) => k > first_unvoted(statements, votes, did)->0,
            None => true,
        },
{
    let i = first_unvoted(statements, votes, did)->0;
    let more = votes.push(vote);
    assert forall|u: Seq<char>| has_voted(votes, did, u) implies has_voted(more, did, u) by {
        let j = choose|j: int|
            0 <= j < votes.len() && (#[trigger] votes[j]).did@ == did && votes[j].subject.uri@ == u;
        assert(more[j] == votes[j]);
    }
    assert(more[votes.len() as int] == vote);
    assert(has_voted(more, did, statements[i].uri@));
    if first_unvoted(statements, more, did) is Some {
        let k = first_unvoted(statements, more, did)->0;
        if k <= i {
            if k < i {
                assert(has_voted(votes, did, statements[k].uri@));
            }
        }
    }
}

/// Whether statements are ordered oldest first, as the store returns them.
pub open spec fn oldest_first(statements: Seq<Statement>) -> bool {
    forall|i: int, j: int|
        0 <= i < j < statements.len() ==> not_later(
            #[trigger] statements[i].created_at,
            #[trigger] statements[j].created_at,
        )
}

/// When the statements come oldest first, the next statement a user is
/// asked about is the earliest one they have not voted on: no statement
/// they have not voted on was created before it.
pub proof fn lemma_next_statement_is_earliest_unvoted(
    statements: Seq<Statement>,
    votes: Seq<Vote>,
    did: Seq<char>,
    j: int,
)
    requires
        oldest_first(statements),
        0 <= j < statements.len(),
        !has_voted(votes, did, statements[j].uri@),
    ensures
        first_unvoted(statements, votes, did) is Some,
        not_later(statements[first_unvoted(statements, votes, did)->0].created_at, statements[j].created_at),
{
    lemma_some_first_unvoted(statements, votes, did, j);
    let i = first_unvoted(statements, votes, did)->0;
    if j < i {
        assert(has_voted(votes, did, statements[j].uri@));
    }
}

/// A statement the user has not voted on means there is a first one.
proof fn lemma_some_first_unvoted(statements: Seq<Statement>, votes: Seq<Vote>, did: Seq<char>, j: int)
    requires
        0 <= j < statements.len(),
        !has_voted(votes, did, statements[j].uri@),
    ensures
        first_unvoted(statements, votes, did) is Some,
        is_first_unvoted(statements, votes, did, first_unvoted(statements, votes, did)->0),
        first_unvoted(statements, votes, did)->0 <= j,
    decreases j,
{
    if forall|k: int| 0 <= k < j ==> has_voted(votes, did, #[trigger] statements[k].uri@) {
        assert(is_first_unvoted(statements, votes, did, j));
        let c = choose|i: int| is_first_unvoted(statements, votes, did, i);
        lemma_first_unvoted_unique(statements, votes, did, c, j);
    } else {
        let k = choose|k: int| 0 <= k < j && !has_voted(votes, did, #[trigger] statements[k].uri@);
        lemma_some_first_unvoted(statements, votes, did, k);
    }
}

} // verus!
