use atpolis::jetstream::{event_mentions, parse_post_record, FacetFeature};
use atpolis::lexicon::{CommitData, JetstreamEvent};
use atpolis::models::Timestamp;
use atpolis::oauth2::parse_callback_query;
use atpolis::records::{
    answer_status, create_start, create_step, record_target, CreateAction, CreateAnswer,
    CreateStage, RecordKind,
};
use atpolis::Mention;

const POST: &str = r#"{
    "$type": "app.bsky.feed.post",
    "text": "Look at #AI and #cats",
    "createdAt": "2024-01-01T00:00:00.000Z",
    "facets": [
        {"index": {"byteStart": 8, "byteEnd": 11},
         "features": [{"$type": "app.bsky.richtext.facet#tag", "tag": "AI"}]},
        {"index": {"byteStart": 0, "byteEnd": 4},
         "features": [{"$type": "app.bsky.richtext.facet#link", "uri": "https://example.com"},
                      {"$type": "app.bsky.richtext.facet#tag", "tag": "cats"}]}
    ]
}"#;

fn at() -> Timestamp {
    Timestamp { secs: 42, nanos: 0 }
}

fn event(collection: &str, record: &str) -> JetstreamEvent {
    JetstreamEvent::Commit {
        did: "did:plc:author".to_string(),
        time_us: 7,
        commit: CommitData {
            rev: "r".to_string(),
            operation: "create".to_string(),
            collection: collection.to_string(),
            rkey: "k".to_string(),
            record: record.to_string(),
        },
    }
}

#[test]
fn post_records_parse_into_text_and_features() {
    let post = parse_post_record(POST).unwrap();
    assert_eq!(post.text, "Look at #AI and #cats");
    let facets = post.facets.unwrap();
    assert_eq!(facets.len(), 2);
    assert!(matches!(&facets[0].features[..], [FacetFeature::Tag(t)] if t == "AI"));
    assert!(matches!(
        &facets[1].features[..],
        [FacetFeature::Other, FacetFeature::Tag(t)] if t == "cats"
    ));
}

#[test]
fn malformed_post_records_do_not_parse() {
    assert!(parse_post_record("not json").is_none());
    assert!(parse_post_record(r#"{"text": 3}"#).is_none());
}

#[test]
fn post_events_make_mentions_of_watched_tags() {
    let watched = vec!["ai".to_string()];
    let got = event_mentions(&event("app.bsky.feed.post", POST), &watched, at());
    assert_eq!(
        got,
        Some(vec![Mention {
            tag: "ai".to_string(),
            text: "Look at #AI and #cats".to_string(),
            by: "did:plc:author".to_string(),
            at: at(),
        }])
    );
    let unwatched = vec!["space".to_string()];
    assert_eq!(event_mentions(&event("app.bsky.feed.post", POST), &unwatched, at()), None);
}

#[test]
fn other_events_make_no_mentions() {
    let watched = vec!["ai".to_string()];
    assert_eq!(event_mentions(&event("com.crown-shy.testing.poll", POST), &watched, at()), None);
    assert_eq!(event_mentions(&event("app.bsky.feed.post", "{}"), &watched, at()), None);
    assert_eq!(event_mentions(&JetstreamEvent::Other, &watched, at()), None);
}

#[test]
fn callback_queries_parse_into_their_fields() {
    let q = parse_callback_query("code=abc&state=xyz&iss=https%3A%2F%2Fbsky.social").unwrap();
    assert_eq!(q.code, "abc");
    assert_eq!(q.state.as_deref(), Some("xyz"));
    assert_eq!(q.iss.as_deref(), Some("https://bsky.social"));
    let q = parse_callback_query("code=only").unwrap();
    assert_eq!(q.state, None);
    assert_eq!(q.iss, None);
    assert!(parse_callback_query("state=no-code").is_none());
}

#[test]
fn targets_hold_the_collection_and_the_repository() {
    let t = record_target(RecordKind::Statement, "did:plc:abc").unwrap();
    assert_eq!(t.collection.as_str(), "com.crown-shy.testing.statement");
    assert_eq!(String::from(t.repo), "did:plc:abc");
}

fn run(kind: RecordKind, oks: &[bool]) -> Option<CreateAnswer> {
    let (mut stage, mut action) = create_start(kind);
    let mut oks = oks.iter();
    loop {
        match action {
            CreateAction::Answer(a) => return Some(a),
            CreateAction::Nothing => return None,
            _ => {}
        }
        let ok = *oks.next()?;
        (stage, action) = create_step(stage, ok);
    }
}

#[test]
fn vote_requests_check_the_value_first() {
    assert_eq!(create_start(RecordKind::Vote), (CreateStage::CheckingVote, CreateAction::CheckVote));
    assert_eq!(run(RecordKind::Vote, &[false]), Some(CreateAnswer::InvalidVote));
    assert_eq!(run(RecordKind::Vote, &[true, false]), Some(CreateAnswer::Unauthorized));
    assert_eq!(run(RecordKind::Vote, &[true, true, false]), Some(CreateAnswer::Unauthorized));
    assert_eq!(run(RecordKind::Vote, &[true, true, true, false]), Some(CreateAnswer::ServerError));
    assert_eq!(run(RecordKind::Vote, &[true, true, true, true, true]), Some(CreateAnswer::Written));
}

#[test]
fn poll_and_statement_requests_start_with_the_agent() {
    assert_eq!(
        create_start(RecordKind::Poll),
        (CreateStage::FindingAgent, CreateAction::FindAgent)
    );
    assert_eq!(run(RecordKind::Statement, &[false]), Some(CreateAnswer::Unauthorized));
    assert_eq!(run(RecordKind::Poll, &[true, true, true, true]), Some(CreateAnswer::Written));
    assert_eq!(
        create_step(CreateStage::Writing, false),
        (CreateStage::Finished, CreateAction::Answer(CreateAnswer::Written))
    );
}

#[test]
fn answers_have_their_status() {
    assert_eq!(answer_status(CreateAnswer::Unauthorized), 401);
    assert_eq!(answer_status(CreateAnswer::ServerError), 500);
    assert_eq!(answer_status(CreateAnswer::InvalidVote), 200);
    assert_eq!(answer_status(CreateAnswer::Written), 200);
}

#[test]
fn tag_case_does_not_change_the_mentions() {
    let watched = vec!["ai".to_string()];
    let lower = POST.replace("\"tag\": \"AI\"", "\"tag\": \"ai\"");
    assert_ne!(lower, POST);
    assert_eq!(
        event_mentions(&event("app.bsky.feed.post", POST), &watched, at()),
        event_mentions(&event("app.bsky.feed.post", &lower), &watched, at())
    );
}
