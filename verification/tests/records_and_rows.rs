use atpolis::db::{
    next_unvoted_statement, poll_entity, polls_from_models, statement_entity,
    statements_from_models, vote_entity, votes_from_models,
};
use atpolis::handlers::{logout_message, me_response, oauth_init_error, requesting_user};
use atpolis::models::{Poll, PollRef, Statement, StatementRef, Timestamp, Vote, VoteValue};
use atpolis::oauth2::{
    callback_redirect, oauth_scopes, redirect_uris, session_id_for, CallbackOutcome, ScopeSpec,
};
use atpolis::records::{
    created_response, failed_response, record_target, vote_from_request, RecordKind, TargetError,
};
use atpolis::auth::{LoginRequest, Session};
use atpolis::records::target_from_parsed;
use atrium_api::types::string::{AtIdentifier, Nsid};
use atpolis::{CreatePoll, CreateStatement, CreateVote};

fn ts(secs: i64) -> Timestamp {
    Timestamp { secs, nanos: 0 }
}

fn statement(uri: &str) -> Statement {
    Statement {
        text: format!("text of {}", uri),
        poll: PollRef { uri: "at://poll".to_string(), cid: "pc".to_string() },
        created_at: ts(1),
        uri: uri.to_string(),
        did: "did:plc:author".to_string(),
        cid: "c".to_string(),
    }
}

fn vote(by: &str, on: &str, value: VoteValue) -> Vote {
    Vote {
        value,
        subject: StatementRef { uri: on.to_string(), cid: "sc".to_string() },
        poll: PollRef { uri: "at://poll".to_string(), cid: "pc".to_string() },
        created_at: ts(2),
        uri: format!("at://vote/{}/{}", by, on),
        did: by.to_string(),
        cid: "vc".to_string(),
    }
}

#[test]
fn next_statement_is_the_first_not_voted_on() {
    let statements = vec![statement("s1"), statement("s2"), statement("s3")];
    let votes = vec![vote("me", "s1", VoteValue::Agree), vote("other", "s2", VoteValue::Pass)];
    assert_eq!(next_unvoted_statement(&statements, &votes, "me"), Some(statement("s2")));
    assert_eq!(next_unvoted_statement(&statements, &votes, "other"), Some(statement("s1")));
}

#[test]
fn voting_moves_to_the_next_statement() {
    let statements = vec![statement("s1"), statement("s2")];
    let mut votes = vec![];
    assert_eq!(next_unvoted_statement(&statements, &votes, "me"), Some(statement("s1")));
    votes.push(vote("me", "s1", VoteValue::Disagree));
    assert_eq!(next_unvoted_statement(&statements, &votes, "me"), Some(statement("s2")));
    votes.push(vote("me", "s2", VoteValue::Pass));
    assert_eq!(next_unvoted_statement(&statements, &votes, "me"), None);
    assert_eq!(next_unvoted_statement(&Vec::new(), &votes, "me"), None);
}

#[test]
fn poll_rows_read_back() {
    let poll = Poll {
        topic: "Parks".to_string(),
        description: Some("More trees?".to_string()),
        created_at: ts(10),
        closed_at: None,
        uri: "ignored".to_string(),
        did: "ignored".to_string(),
        cid: "ignored".to_string(),
    };
    let row = poll_entity::Model::from_poll("at://p", "cid1", "did:plc:a", &poll);
    assert_eq!(row.uri, "at://p");
    let back = polls_from_models(&vec![row.clone()]);
    let expected = Poll {
        uri: "at://p".to_string(),
        cid: "cid1".to_string(),
        did: "did:plc:a".to_string(),
        ..poll.clone()
    };
    assert_eq!(back, vec![expected.clone()]);
    assert_eq!(row.into_poll(), expected);
}

#[test]
fn statement_rows_read_back() {
    let s = statement("x");
    let row = statement_entity::Model::from_statement("at://s", "c2", "did:plc:b", &s);
    assert_eq!(row.poll_uri, "at://poll");
    let back = statements_from_models(&vec![row]);
    assert_eq!(
        back,
        vec![Statement {
            uri: "at://s".to_string(),
            cid: "c2".to_string(),
            did: "did:plc:b".to_string(),
            ..s
        }]
    );
}

#[test]
fn vote_rows_store_the_word_and_read_back() {
    for value in [VoteValue::Agree, VoteValue::Disagree, VoteValue::Pass] {
        let v = vote("me", "s1", value);
        let row = vote_entity::Model::from_vote("at://v", "c3", "did:plc:c", &v);
        assert_eq!(row.value, value.as_str());
        let back = votes_from_models(&vec![row]);
        assert_eq!(
            back,
            vec![Vote {
                uri: "at://v".to_string(),
                cid: "c3".to_string(),
                did: "did:plc:c".to_string(),
                ..v
            }]
        );
    }
}

#[test]
fn unknown_vote_word_in_a_row_reads_as_pass() {
    let v = vote("me", "s1", VoteValue::Agree);
    let mut row = vote_entity::Model::from_vote("at://v", "c", "d", &v);
    row.value = "shrug".to_string();
    assert_eq!(row.into_vote().value, VoteValue::Pass);
}

#[test]
fn upserts_overwrite_only_some_columns() {
    assert_eq!(
        poll_entity::conflict_update_columns(),
        vec![
            poll_entity::Column::Cid,
            poll_entity::Column::Topic,
            poll_entity::Column::Description,
            poll_entity::Column::ClosedAt
        ]
    );
    assert_eq!(
        statement_entity::conflict_update_columns(),
        vec![statement_entity::Column::Cid, statement_entity::Column::Text]
    );
    assert_eq!(
        vote_entity::conflict_update_columns(),
        vec![vote_entity::Column::Cid, vote_entity::Column::Value]
    );
}

#[test]
fn new_records_are_built_from_the_request() {
    let p = CreatePoll::new("Topic".to_string(), None, ts(5));
    assert_eq!(p.closed_at, None);
    assert_eq!(p.created_at, ts(5));
    let s = CreateStatement::new("hi".to_string(), "at://p".to_string(), "pc".to_string(), ts(6));
    assert_eq!(s.poll, PollRef { uri: "at://p".to_string(), cid: "pc".to_string() });
    let v = CreateVote::new(
        VoteValue::Pass,
        "at://s".to_string(),
        "sc".to_string(),
        "at://p".to_string(),
        "pc".to_string(),
        ts(7),
    );
    assert_eq!(v.subject, StatementRef { uri: "at://s".to_string(), cid: "sc".to_string() });
    assert_eq!(v.value, VoteValue::Pass);
}

#[test]
fn records_go_to_their_collection_in_the_users_repo() {
    let t = record_target(RecordKind::Vote, "did:plc:abc123").unwrap();
    assert_eq!(t.collection.as_str(), "com.crown-shy.testing.vote");
    assert!(!t.validate);
    let t = record_target(RecordKind::Poll, "alice.bsky.social").unwrap();
    assert_eq!(t.collection.as_str(), "com.crown-shy.testing.poll");
    assert_eq!(RecordKind::Statement.collection(), "com.crown-shy.testing.statement");
}

#[test]
fn a_repo_that_is_no_identifier_has_no_target() {
    assert_eq!(record_target(RecordKind::Poll, "not a did").err(), Some(TargetError::Repo));
    assert_eq!(record_target(RecordKind::Vote, "").err(), Some(TargetError::Repo));
}

#[test]
fn responses_say_what_happened() {
    let ok = created_response(RecordKind::Statement, "at://x".to_string(), "cid".to_string());
    assert!(ok.success);
    assert_eq!(ok.message, "Statement created successfully");
    assert_eq!(ok.uri.as_deref(), Some("at://x"));
    assert_eq!(ok.cid.as_deref(), Some("cid"));
    let bad = failed_response(RecordKind::Poll, "boom");
    assert!(!bad.success);
    assert_eq!(bad.message, "Failed to create poll: boom");
    assert_eq!(bad.uri, None);
    assert_eq!(failed_response(RecordKind::Vote, "x").message, "Failed to create vote: x");
    assert_eq!(
        created_response(RecordKind::Poll, "u".to_string(), "c".to_string()).message,
        "Poll created successfully"
    );
}

#[test]
fn vote_requests_name_one_of_three_values() {
    assert_eq!(vote_from_request("Agree").ok(), Some(VoteValue::Agree));
    let err = vote_from_request("yes").unwrap_err();
    assert!(!err.success);
    assert_eq!(err.message, "Invalid vote value. Must be 'agree', 'disagree', or 'pass'");
    assert_eq!(err.uri, None);
    assert_eq!(err.cid, None);
}

#[test]
fn oauth_configuration_is_fixed() {
    assert_eq!(
        oauth_scopes(),
        vec![
            ScopeSpec::Atproto,
            ScopeSpec::TransitionGeneric,
            ScopeSpec::Custom("repo:scot.comhairle.testingPolisPollV1?action=create".to_string())
        ]
    );
    assert_eq!(redirect_uris(), vec!["http://127.0.0.1:5173/api/oauth/callback".to_string()]);
}

#[test]
fn callback_redirects() {
    assert_eq!(
        callback_redirect(CallbackOutcome::MissingParams),
        Err("http://127.0.0.1:5173/?error=missing_params".to_string())
    );
    assert_eq!(
        callback_redirect(CallbackOutcome::OAuthFailed),
        Err("http://127.0.0.1:5173/?error=oauth_failed".to_string())
    );
    assert_eq!(
        callback_redirect(CallbackOutcome::SessionError),
        Err("http://127.0.0.1:5173/?error=session_error".to_string())
    );
    assert_eq!(
        callback_redirect(CallbackOutcome::Authenticated),
        Ok("http://127.0.0.1:5173/?success=true".to_string())
    );
}

#[test]
fn session_ids_prefer_the_existing_one() {
    assert_eq!(session_id_for(Some("old".to_string()), "new".to_string()), "old");
    assert_eq!(session_id_for(None, "new".to_string()), "new");
}

#[test]
fn handler_answers() {
    let me = me_response(true, Some("did:plc:x".to_string()));
    assert!(me.authenticated);
    assert_eq!(me.did.as_deref(), Some("did:plc:x"));
    let me = me_response(false, Some("did:plc:x".to_string()));
    assert!(!me.authenticated);
    assert_eq!(me.did, None);
    assert_eq!(requesting_user(true, Some("d".to_string())), Ok("d".to_string()));
    assert_eq!(requesting_user(true, None), Err("User not found".to_string()));
    assert_eq!(requesting_user(false, Some("d".to_string())), Err("User not found".to_string()));
    let e = oauth_init_error("bad handle".to_string());
    assert_eq!(e.error, "oauth_init_failed");
    assert_eq!(e.message, "bad handle");
    assert_eq!(logout_message(), "Logged out successfully");
}

#[test]
fn sessions_and_logins_hold_their_fields() {
    let s = Session::new("did:plc:z".to_string(), "z.bsky.social".to_string());
    assert_eq!(s.did, "did:plc:z");
    assert_eq!(s.handle, "z.bsky.social");
    let l = LoginRequest { identifier: "z".to_string(), password: "pw".to_string() };
    assert_eq!(l.identifier, "z");
}

#[test]
fn parsed_targets_need_both_parts() {
    let nsid: Nsid = "com.crown-shy.testing.poll".parse().unwrap();
    let repo: AtIdentifier = "did:plc:abc".parse().unwrap();
    assert_eq!(target_from_parsed(None, Some(repo.clone())).err(), Some(TargetError::Collection));
    assert_eq!(target_from_parsed(Some(nsid.clone()), None).err(), Some(TargetError::Repo));
    assert_eq!(target_from_parsed(None, None).err(), Some(TargetError::Collection));
    let t = target_from_parsed(Some(nsid), Some(repo)).unwrap();
    assert!(!t.validate);
    assert_eq!(t.collection.as_str(), "com.crown-shy.testing.poll");
}
