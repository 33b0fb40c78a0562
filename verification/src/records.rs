//! The records a signed-in user creates (polls, statements, votes), where
//! they are written, and what the service answers.

use vstd::prelude::*;
use atrium_api::types::string::{AtIdentifier, Nsid};
use crate::lexicon::{COLLECTION_POLL, COLLECTION_STATEMENT, COLLECTION_VOTE};
use crate::models::{chosen_vote, PollRef, StatementRef, Timestamp, VoteValue};
use crate::text::lowercase_of;

verus! {

/// The poll record written to the user's repository.
#[derive(Debug, PartialEq, Eq)]
pub struct CreatePoll {
    pub topic: String,
    pub description: Option<String>,
    pub created_at: Timestamp,
    pub closed_at: Option<Timestamp>,
}

/// The statement record written to the user's repository.
#[derive(Debug, PartialEq, Eq)]
pub struct CreateStatement {
    pub text: String,
    pub poll: PollRef,
    pub created_at: Timestamp,
}

/// The vote record written to the user's repository.
#[derive(Debug, PartialEq, Eq)]
pub struct CreateVote {
    pub value: VoteValue,
    pub subject: StatementRef,
    pub poll: PollRef,
    pub created_at: Timestamp,
}

impl CreatePoll {
    /// A new, open poll on `topic`, created at `now`.
    pub fn new(topic: String, description: Option<String>, now: Timestamp) -> (r: CreatePoll)
        ensures
            r == (CreatePoll { topic, description, created_at: now, closed_at: None }),
    {
        CreatePoll { topic, description, created_at: now, closed_at: None }
    }
}

impl CreateStatement {
    /// A new statement on the poll `poll_uri` / `poll_cid`, created at `now`.
    pub fn new(text: String, poll_uri: String, poll_cid: String, now: Timestamp) -> (r:
        CreateStatement)
        ensures
            r == (CreateStatement {
                text,
                poll: PollRef { uri: poll_uri, cid: poll_cid },
                created_at: now,
            }),
    {
        CreateStatement { text, poll: PollRef { uri: poll_uri, cid: poll_cid }, created_at: now }
    }
}

impl CreateVote {
    /// A new vote on a statement of a poll, created at `now`.
    pub fn new(
        value: VoteValue,
        statement_uri: String,
        statement_cid: String,
        poll_uri: String,
        poll_cid: String,
        now: Timestamp,
    ) -> (r: CreateVote)
        ensures
            r == (CreateVote {
                value,
                subject: StatementRef { uri: statement_uri, cid: statement_cid },
                poll: PollRef { uri: poll_uri, cid: poll_cid },
                created_at: now,
            }),
    {
        CreateVote {
            value,
            subject: StatementRef { uri: statement_uri, cid: statement_cid },
            poll: PollRef { uri: poll_uri, cid: poll_cid },
            created_at: now,
        }
    }
}

/// The kinds of record a user creates.
#[derive(Debug, Clone, Copy, PartialEq, Eq, Structural)]
pub enum RecordKind {
    Poll,
    Statement,
    Vote,
}

/// The collection a kind of record is written to.
pub open spec fn collection_of(kind: RecordKind) -> Seq<char> {
    match kind {
        RecordKind::Poll => COLLECTION_POLL@,
        RecordKind::Statement => COLLECTION_STATEMENT@,
        RecordKind::Vote => COLLECTION_VOTE@,
    }
}

impl RecordKind {
    /// The collection this kind of record is written to.
    pub fn collection(&self) -> (r: &'static str)
        ensures
            r@ == collection_of(*self),
    {
        match self {
            RecordKind::Poll => COLLECTION_POLL,
            RecordKind::Statement => COLLECTION_STATEMENT,
            RecordKind::Vote => COLLECTION_VOTE,
        }
    }
}

#[verifier::external_type_specification]
#[verifier::external_body]
pub struct ExNsid(Nsid);

#[verifier::external_type_specification]
#[verifier::external_body]
pub struct ExAtIdentifier(AtIdentifier);

/// Whether `Nsid::new` accepts a string as a namespaced identifier.
pub uninterp spec fn nsid_accepts(s: Seq<char>) -> bool;

/// Whether `AtIdentifier`'s `FromStr` accepts a string as a DID or a handle.
pub uninterp spec fn at_identifier_accepts(s: Seq<char>) -> bool;

/// The text an `Nsid` holds.
pub uninterp spec fn nsid_text(n: Nsid) -> Seq<char>;

/// The text an `AtIdentifier` holds (the DID or the handle).
pub uninterp spec fn at_identifier_text(a: AtIdentifier) -> Seq<char>;

/// Parses an NSID with `Nsid`'s `FromStr` (that is, `Nsid::new`). The
/// contract claims that acceptance is a function of the text, named
/// `nsid_accepts`, and that an accepted NSID holds the text as given; the
/// NSID syntax that decides acceptance is left unsaid.
#[verifier::external_body]
fn parse_nsid(s: &str) -> (r: Option<Nsid>)
    ensures
        r is Some == nsid_accepts(s@),
        r matches Some(n) ==> nsid_text(n) == s@,
{
    s.parse::<Nsid>().ok()
}

/// Parses a repository identifier with `AtIdentifier`'s `FromStr` (a DID,
/// else a handle). The contract claims that acceptance is a function of
/// the text, named `at_identifier_accepts`, and that an accepted identifier
/// holds the text as given; the DID and handle syntax that decides
/// acceptance is left unsaid.
#[verifier::external_body]
fn parse_at_identifier(s: &str) -> (r: Option<AtIdentifier>)
    ensures
        r is Some == at_identifier_accepts(s@),
        r matches Some(a) ==> at_identifier_text(a) == s@,
{
    s.parse::<AtIdentifier>().ok()
}

/// Where a new record is written: its collection and the author's
/// repository. Records are written without server-side validation.
#[derive(Debug)]
pub struct RecordTarget {
    pub collection: Nsid,
    pub repo: AtIdentifier,
    pub validate: bool,
}

/// Why a record has no place to be written.
#[derive(Debug, Clone, Copy, PartialEq, Eq, Structural)]
pub enum TargetError {
    /// The collection is not a valid NSID.
    Collection,
    /// The repository is neither a DID nor a handle.
    Repo,
}

/// The place a record is written to, once its collection and repository
/// have been parsed: `Err` names the first of the two that did not parse.
pub fn target_from_parsed(collection: Option<Nsid>, repo: Option<AtIdentifier>) -> (r: Result<
    RecordTarget,
    TargetError,
>)
    ensures
        match r {
            Ok(t) => collection == Some(t.collection) && repo == Some(t.repo) && !t.validate,
            Err(TargetError::Collection) => collection is None,
            Err(TargetError::Repo) => collection is Some && repo is None,
        },
{
    match collection {
        None => Err(TargetError::Collection),
        Some(c) => match repo {
            None => Err(TargetError::Repo),
            Some(r) => Ok(RecordTarget { collection: c, repo: r, validate: false }),
        },
    }
}

/// The place a record of `kind` by the user `repo` is written to.
pub fn record_target(kind: RecordKind, repo: &str) -> (r: Result<RecordTarget, TargetError>)
    ensures
        match r {
            Ok(t) => nsid_accepts(collection_of(kind)) && at_identifier_accepts(repo@)
                && nsid_text(t.collection) == collection_of(kind) && at_identifier_text(t.repo)
                == repo@ && !t.validate,
            Err(TargetError::Collection) => !nsid_accepts(collection_of(kind)),
            Err(TargetError::Repo) => nsid_accepts(collection_of(kind))
                && !at_identifier_accepts(repo@),
        },
{
    let collection = parse_nsid(kind.collection());
    let parsed_repo = parse_at_identifier(repo);
    target_from_parsed(collection, parsed_repo)
}

/// What the service answers to a request to create a record.
#[derive(Debug, PartialEq, Eq)]
pub struct CreateResponse {
    pub success: bool,
    pub message: String,
    pub uri: Option<String>,
    pub cid: Option<String>,
}

/// The message of a record created.
pub open spec fn created_message(kind: RecordKind) -> Seq<char> {
    match kind {
        RecordKind::Poll => "Poll created successfully"@,
        RecordKind::Statement => "Statement created successfully"@,
        RecordKind::Vote => "Vote created successfully"@,
    }
}

/// The start of the message of a record that could not be created; the
/// error follows it.
pub open spec fn failure_prefix(kind: RecordKind) -> Seq<char> {
    match kind {
        RecordKind::Poll => "Failed to create poll: "@,
        RecordKind::Statement => "Failed to create statement: "@,
        RecordKind::Vote => "Failed to create vote: "@,
    }
}

/// The message answered to a vote value that is not one of the three.
pub open spec fn invalid_vote_message() -> Seq<char> {
    "Invalid vote value. Must be 'agree', 'disagree', or 'pass'"@
}

/// The answer when the record was written at `uri` with content id `cid`.
pub fn created_response(kind: RecordKind, uri: String, cid: String) -> (r: CreateResponse)
    ensures
        r.success,
        r.message@ == created_message(kind),
        r.uri == Some(uri),
        r.cid == Some(cid),
{
    let message = match kind {
        RecordKind::Poll => "Poll created successfully".to_owned(),
        RecordKind::Statement => "Statement created successfully".to_owned(),
        RecordKind::Vote => "Vote created successfully".to_owned(),
    };
    CreateResponse { success: true, message, uri: Some(uri), cid: Some(cid) }
}

/// The answer when writing the record failed with `error`.
pub fn failed_response(kind: RecordKind, error: &str) -> (r: CreateResponse)
    ensures
        !r.success,
        r.message@ == failure_prefix(kind) + error@,
        r.uri is None,
        r.cid is None,
{
    let mut message = match kind {
        RecordKind::Poll => "Failed to create poll: ".to_owned(),
        RecordKind::Statement => "Failed to create statement: ".to_owned(),
        RecordKind::Vote => "Failed to create vote: ".to_owned(),
    };
    message.append(error);
    CreateResponse { success: false, message, uri: None, cid: None }
}

/// Reads the vote value of a request, or the answer to give when it names
/// none of the three values (the word is compared in lowercase).
pub fn vote_from_request(value: &str) -> (r: Result<VoteValue, CreateResponse>)
    ensures
        match chosen_vote(lowercase_of(value@)) {
            Some(v) => r == Ok::<VoteValue, CreateResponse>(v),
            None => r matches Err(resp) && !resp.success && resp.message@ == invalid_vote_message()
                && resp.uri is None && resp.cid is None,
        },
{
    match VoteValue::parse_choice(value) {
        Some(v) => Ok(v),
        None => Err(
            CreateResponse {
                success: false,
                message: "Invalid vote value. Must be 'agree', 'disagree', or 'pass'".to_owned(),
                uri: None,
                cid: None,
            },
        ),
    }
}

/// HTTP status `401 Unauthorized`.
pub const STATUS_UNAUTHORIZED: u16 = 401;
/// HTTP status `500 Internal Server Error`.
pub const STATUS_SERVER_ERROR: u16 = 500;

/// Where handling a request to create a record stands.
#[derive(Debug, Clone, Copy, PartialEq, Eq, Structural)]
pub enum CreateStage {
    /// The vote value of the request is being read.
    CheckingVote,
    /// The session's agent is being looked up.
    FindingAgent,
    /// The user's DID is being read from the session.
    ReadingDid,
    /// The record is being turned into a repository record.
    Serializing,
    /// The record is being written to the user's repository.
    Writing,
    /// The request has been answered.
    Finished,
}

/// How a request to create a record is answered.
#[derive(Debug, Clone, Copy, PartialEq, Eq, Structural)]
pub enum CreateAnswer {
    /// The vote value names none of the three values.
    InvalidVote,
    /// No one is signed in: no agent, or no DID in the session.
    Unauthorized,
    /// The record could not be turned into a repository record.
    ServerError,
    /// The write was tried; its result is reported.
    Written,
}

/// What to do next while handling a request to create a record.
#[derive(Debug, Clone, Copy, PartialEq, Eq, Structural)]
pub enum CreateAction {
    CheckVote,
    FindAgent,
    ReadDid,
    SerializeRecord,
    WriteRecord,
    Answer(CreateAnswer),
    Nothing,
}

/// The first stage and action for a request to create a record of `kind`:
/// a vote's value is read before anything else.
pub open spec fn create_start_of(kind: RecordKind) -> (CreateStage, CreateAction) {
    if kind == RecordKind::Vote {
        (CreateStage::CheckingVote, CreateAction::CheckVote)
    } else {
        (CreateStage::FindingAgent, CreateAction::FindAgent)
    }
}

/// The next stage and action, given whether the previous step succeeded.
pub open spec fn create_transition(stage: CreateStage, ok: bool) -> (CreateStage, CreateAction) {
    match stage {
        CreateStage::CheckingVote => if ok {
            (CreateStage::FindingAgent, CreateAction::FindAgent)
        } else {
            (CreateStage::Finished, CreateAction::Answer(CreateAnswer::InvalidVote))
        },
        CreateStage::FindingAgent => if ok {
            (CreateStage::ReadingDid, CreateAction::ReadDid)
        } else {
            (CreateStage::Finished, CreateAction::Answer(CreateAnswer::Unauthorized))
        },
        CreateStage::ReadingDid => if ok {
            (CreateStage::Serializing, CreateAction::SerializeRecord)
        } else {
            (CreateStage::Finished, CreateAction::Answer(CreateAnswer::Unauthorized))
        },
        CreateStage::Serializing => if ok {
            (CreateStage::Writing, CreateAction::WriteRecord)
        } else {
            (CreateStage::Finished, CreateAction::Answer(CreateAnswer::ServerError))
        },
        CreateStage::Writing => (CreateStage::Finished, CreateAction::Answer(CreateAnswer::Written)),
        CreateStage::Finished => (CreateStage::Finished, CreateAction::Nothing),
    }
}

/// The first step of handling a request to create a record of `kind`.
pub fn create_start(kind: RecordKind) -> (r: (CreateStage, CreateAction))
    ensures
        r == create_start_of(kind),
{
    match kind {
        RecordKind::Vote => (CreateStage::CheckingVote, CreateAction::CheckVote),
        _ => (CreateStage::FindingAgent, CreateAction::FindAgent),
    }
}

/// One step of handling a request to create a record.
pub fn create_step(stage: CreateStage, ok: bool) -> (r: (CreateStage, CreateAction))
    ensures
        r == create_transition(stage, ok),
{
    match stage {
        CreateStage::CheckingVote => if ok {
            (CreateStage::FindingAgent, CreateAction::FindAgent)
        } else {
            (CreateStage::Finished, CreateAction::Answer(CreateAnswer::InvalidVote))
        },
        CreateStage::FindingAgent => if ok {
            (CreateStage::ReadingDid, CreateAction::ReadDid)
        } else {
            (CreateStage::Finished, CreateAction::Answer(CreateAnswer::Unauthorized))
        },
        CreateStage::ReadingDid => if ok {
            (CreateStage::Serializing, CreateAction::SerializeRecord)
        } else {
            (CreateStage::Finished, CreateAction::Answer(CreateAnswer::Unauthorized))
        },
        CreateStage::Serializing => if ok {
            (CreateStage::Writing, CreateAction::WriteRecord)
        } else {
            (CreateStage::Finished, CreateAction::Answer(CreateAnswer::ServerError))
        },
        CreateStage::Writing => (CreateStage::Finished, CreateAction::Answer(CreateAnswer::Written)),
        CreateStage::Finished => (CreateStage::Finished, CreateAction::Nothing),
    }
}

/// The HTTP status of an answer: an invalid vote and a tried write are
/// answered `200 OK` with a response body, the others with their error status.
pub fn answer_status(answer: CreateAnswer) -> (r: u16)
    ensures
        r == match answer {
            CreateAnswer::InvalidVote => 200u16,
            CreateAnswer::Unauthorized => STATUS_UNAUTHORIZED,
            CreateAnswer::ServerError => STATUS_SERVER_ERROR,
            CreateAnswer::Written => 200u16,
        },
{
    match answer {
        CreateAnswer::InvalidVote => 200,
        CreateAnswer::Unauthorized => STATUS_UNAUTHORIZED,
        CreateAnswer::ServerError => STATUS_SERVER_ERROR,
        CreateAnswer::Written => 200,
    }
}

/// The answer a request reaches from `stage` when the steps succeed or fail
/// as `oks` says, one after another; `None` while it is not answered yet.
pub open spec fn create_run(stage: CreateStage, oks: Seq<bool>) -> Option<CreateAnswer>
    decreases oks.len(),
{
    if oks.len() == 0 {
        None
    } else {
        let (next, action) = create_transition(stage, oks[0]);
        match action {
            CreateAction::Answer(a) => Some(a),
            CreateAction::Nothing => None,
            _ => create_run(next, oks.drop_first()),
        }
    }
}

/// A vote request is answered as invalid before the session is looked at;
/// a valid one reaches the write exactly when a user is signed in (agent
/// and DID) and the record serialises, and otherwise gets the error of the
/// first step that failed.
pub proof fn lemma_vote_request_writes_only_after_every_check(oks: Seq<bool>)
    requires
        oks.len() >= 5,
    ensures
        create_run(CreateStage::CheckingVote, oks) is Some,
        create_run(CreateStage::CheckingVote, oks) == Some(CreateAnswer::Written) <==> (forall|
            i: int,
        | 0 <= i < 4 ==> #[trigger] oks[i]),
        !oks[0] ==> create_run(CreateStage::CheckingVote, oks) == Some(CreateAnswer::InvalidVote),
        oks[0] && (!oks[1] || !oks[2]) ==> create_run(CreateStage::CheckingVote, oks) == Some(
            CreateAnswer::Unauthorized,
        ),
        oks[0] && oks[1] && oks[2] && !oks[3] ==> create_run(CreateStage::CheckingVote, oks)
            == Some(CreateAnswer::ServerError),
{
    let s1 = oks.drop_first();
    let s2 = s1.drop_first();
    let s3 = s2.drop_first();
    let s4 = s3.drop_first();
    assert(s1[0] == oks[1] && s2[0] == oks[2] && s3[0] == oks[3] && s4.len() > 0);
    let r4 = create_run(CreateStage::Writing, s4);
    assert(r4 == Some(CreateAnswer::Written));
    let r3 = create_run(CreateStage::Serializing, s3);
    assert(r3 == if oks[3] {
        r4
    } else {
        Some(CreateAnswer::ServerError)
    });
    let r2 = create_run(CreateStage::ReadingDid, s2);
    assert(r2 == if oks[2] {
        r3
    } else {
        Some(CreateAnswer::Unauthorized)
    });
    let r1 = create_run(CreateStage::FindingAgent, s1);
    assert(r1 == if oks[1] {
        r2
    } else {
        Some(CreateAnswer::Unauthorized)
    });
    let r0 = create_run(CreateStage::CheckingVote, oks);
    assert(r0 == if oks[0] {
        r1
    } else {
        Some(CreateAnswer::InvalidVote)
    });
    if !(forall|i: int| 0 <= i < 4 ==> #[trigger] oks[i]) {
        let k = choose|i: int| 0 <= i < 4 && !oks[i];
        assert(!oks[k]);
    }
}

/// A poll or statement request reaches the write exactly when a user is
/// signed in and the record serialises.
pub proof fn lemma_record_request_writes_only_after_every_check(oks: Seq<bool>)
    requires
        oks.len() >= 4,
    ensures
        create_run(CreateStage::FindingAgent, oks) is Some,
        create_run(CreateStage::FindingAgent, oks) == Some(CreateAnswer::Written) <==> (forall|
            i: int,
        | 0 <= i < 3 ==> #[trigger] oks[i]),
{
    let s1 = oks.drop_first();
    let s2 = s1.drop_first();
    let s3 = s2.drop_first();
    assert(s1[0] == oks[1] && s2[0] == oks[2] && s3.len() > 0);
    let r3 = create_run(CreateStage::Writing, s3);
    assert(r3 == Some(CreateAnswer::Written));
    let r2 = create_run(CreateStage::Serializing, s2);
    assert(r2 == if oks[2] {
        r3
    } else {
        Some(CreateAnswer::ServerError)
    });
    let r1 = create_run(CreateStage::ReadingDid, s1);
    assert(r1 == if oks[1] {
        r2
    } else {
        Some(CreateAnswer::Unauthorized)
    });
    let r0 = create_run(CreateStage::FindingAgent, oks);
    assert(r0 == if oks[0] {
        r1
    } else {
        Some(CreateAnswer::Unauthorized)
    });
    if !(forall|i: int| 0 <= i < 3 ==> #[trigger] oks[i]) {
        let k = choose|i: int| 0 <= i < 3 && !oks[i];
        assert(!oks[k]);
    }
}

/// The work each unfinished stage is there to do.
pub open spec fn stage_work(stage: CreateStage) -> CreateAction {
    match stage {
        CreateStage::CheckingVote => CreateAction::CheckVote,
        CreateStage::FindingAgent => CreateAction::FindAgent,
        CreateStage::ReadingDid => CreateAction::ReadDid,
        CreateStage::Serializing => CreateAction::SerializeRecord,
        CreateStage::Writing => CreateAction::WriteRecord,
        CreateStage::Finished => CreateAction::Nothing,
    }
}

/// The actions taken from `stage` / `action` when the next `n` steps all
/// succeed, starting with `action` itself.
pub open spec fn actions_when_all_succeed(stage: CreateStage, action: CreateAction, n: nat) -> Seq<
    CreateAction,
>
    decreases n,
{
    if n == 0 {
        seq![action]
    } else {
        let (next, next_action) = create_transition(stage, true);
        seq![action] + actions_when_all_succeed(next, next_action, (n - 1) as nat)
    }
}

/// Every step that does not answer hands out the work of the stage it
/// moves to, and a step that answers ends the request: a request never
/// skips a step's work or does one stage's work in another.
pub proof fn lemma_steps_do_their_stage_work(stage: CreateStage, ok: bool, kind: RecordKind)
    ensures
        create_transition(stage, ok).0 != CreateStage::Finished ==> create_transition(stage, ok).1
            == stage_work(create_transition(stage, ok).0),
        create_transition(stage, ok).1 is Answer ==> create_transition(stage, ok).0
            == CreateStage::Finished,
        create_start_of(kind).1 == stage_work(create_start_of(kind).0),
        kind != RecordKind::Vote ==> create_start_of(kind) == (
            CreateStage::FindingAgent,
            CreateAction::FindAgent,
        ),
        kind == RecordKind::Vote ==> create_start_of(kind) == (
            CreateStage::CheckingVote,
            CreateAction::CheckVote,
        ),
{
}

/// When every step succeeds, a vote request checks the vote word, looks up
/// the agent, reads the DID, serialises and writes the record, in that
/// order, and answers with the write; a poll or statement request does the
/// same without the vote check, starting with the agent.
pub proof fn lemma_successful_requests_do_every_step_in_order(kind: RecordKind)
    ensures
        kind == RecordKind::Vote ==> actions_when_all_succeed(
            create_start_of(kind).0,
            create_start_of(kind).1,
            5,
        ) == seq![
            CreateAction::CheckVote,
            CreateAction::FindAgent,
            CreateAction::ReadDid,
            CreateAction::SerializeRecord,
            CreateAction::WriteRecord,
            CreateAction::Answer(CreateAnswer::Written),
        ],
        kind != RecordKind::Vote ==> actions_when_all_succeed(
            create_start_of(kind).0,
            create_start_of(kind).1,
            4,
        ) == seq![
            CreateAction::FindAgent,
            CreateAction::ReadDid,
            CreateAction::SerializeRecord,
            CreateAction::WriteRecord,
            CreateAction::Answer(CreateAnswer::Written),
        ],
{
    reveal_with_fuel(actions_when_all_succeed, 6);
    let w = actions_when_all_succeed(
        CreateStage::Writing,
        CreateAction::WriteRecord,
        1,
    );
    assert(w =~= seq![CreateAction::WriteRecord, CreateAction::Answer(CreateAnswer::Written)]);
    let sz = actions_when_all_succeed(CreateStage::Serializing, CreateAction::SerializeRecord, 2);
    assert(sz =~= seq![CreateAction::SerializeRecord] + w);
    let rd = actions_when_all_succeed(CreateStage::ReadingDid, CreateAction::ReadDid, 3);
    assert(rd =~= seq![CreateAction::ReadDid] + sz);
    let fa = actions_when_all_succeed(CreateStage::FindingAgent, CreateAction::FindAgent, 4);
    assert(fa =~= seq![CreateAction::FindAgent] + rd);
    let cv = actions_when_all_succeed(CreateStage::CheckingVote, CreateAction::CheckVote, 5);
    assert(cv =~= seq![CreateAction::CheckVote] + fa);
    assert(fa =~= seq![
        CreateAction::FindAgent,
        CreateAction::ReadDid,
        CreateAction::SerializeRecord,
        CreateAction::WriteRecord,
        CreateAction::Answer(CreateAnswer::Written),
    ]);
    assert(cv =~= seq![
        CreateAction::CheckVote,
        CreateAction::FindAgent,
        CreateAction::ReadDid,
        CreateAction::SerializeRecord,
        CreateAction::WriteRecord,
        CreateAction::Answer(CreateAnswer::Written),
    ]);
}

} // verus!
