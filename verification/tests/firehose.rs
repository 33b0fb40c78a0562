use atpolis::jetstream::{
    commit_kind, consumer_step, decode_binary, extract_hash_tags, payload_or_raw, post_mentions,
    CommitKind, ConsumerStep, Facet, FacetFeature, PostRecord, SocketMessage,
};
use atpolis::lexicon::{CommitData, JetstreamEvent, COLLECTION_POLL, COLLECTION_VOTE};
use atpolis::mentions::{mentions_from_lowered, select_mentions, MentionIndex};
use atpolis::models::Timestamp;
use atpolis::Mention;

fn strings(xs: &[&str]) -> Vec<String> {
    xs.iter().map(|s| s.to_string()).collect()
}

fn at() -> Timestamp {
    Timestamp { secs: 1_700_000_000, nanos: 5 }
}

fn mention(tag: &str, text: &str, by: &str) -> Mention {
    Mention { tag: tag.to_string(), text: text.to_string(), by: by.to_string(), at: at() }
}

fn commit(collection: &str) -> JetstreamEvent {
    JetstreamEvent::Commit {
        did: "did:plc:abc".to_string(),
        time_us: 1,
        commit: CommitData {
            rev: "r".to_string(),
            operation: "create".to_string(),
            collection: collection.to_string(),
            rkey: "k".to_string(),
            record: "{}".to_string(),
        },
    }
}

#[test]
fn compressed_binary_messages_are_decompressed() {
    let json = br#"{"kind":"commit"}"#.to_vec();
    let packed = zstd::stream::encode_all(&json[..], 0).unwrap();
    assert_ne!(packed, json);
    assert_eq!(decode_binary(packed), json);
}

#[test]
fn plain_binary_messages_pass_through() {
    let json = br#"{"kind":"identity"}"#.to_vec();
    assert_eq!(decode_binary(json.clone()), json);
}

#[test]
fn payload_prefers_decoded_bytes() {
    assert_eq!(payload_or_raw(Some(vec![1, 2]), vec![3]), vec![1, 2]);
    assert_eq!(payload_or_raw(None, vec![3]), vec![3]);
}

#[test]
fn consumer_steps_follow_the_message_kind() {
    match consumer_step(SocketMessage::Text(b"hi".to_vec())) {
        ConsumerStep::Handle(p) => assert_eq!(p, b"hi".to_vec()),
        other => panic!("unexpected {:?}", other),
    }
    match consumer_step(SocketMessage::Binary(b"raw".to_vec())) {
        ConsumerStep::Handle(p) => assert_eq!(p, b"raw".to_vec()),
        other => panic!("unexpected {:?}", other),
    }
    assert!(matches!(consumer_step(SocketMessage::Close), ConsumerStep::Stop));
    assert!(matches!(consumer_step(SocketMessage::Ping), ConsumerStep::Continue));
    assert!(matches!(consumer_step(SocketMessage::Pong), ConsumerStep::Continue));
    assert!(matches!(consumer_step(SocketMessage::Frame), ConsumerStep::Continue));
}

#[test]
fn commits_are_classified_by_collection() {
    assert_eq!(commit_kind(&commit("app.bsky.feed.post")), CommitKind::Post);
    assert_eq!(commit_kind(&commit(COLLECTION_POLL)), CommitKind::Poll);
    assert_eq!(commit_kind(&commit("com.crown-shy.testing.statement")), CommitKind::Statement);
    assert_eq!(commit_kind(&commit(COLLECTION_VOTE)), CommitKind::Vote);
    assert_eq!(commit_kind(&commit("app.bsky.feed.like")), CommitKind::Ignored);
    assert_eq!(commit_kind(&JetstreamEvent::Other), CommitKind::Ignored);
}

fn post(text: &str, facets: Option<Vec<Vec<FacetFeature>>>) -> PostRecord {
    PostRecord {
        text: text.to_string(),
        facets: facets
            .map(|fs| fs.into_iter().map(|features| Facet { features }).collect()),
    }
}

#[test]
fn hash_tags_come_from_tag_features_in_order() {
    let p = post(
        "hello",
        Some(vec![
            vec![FacetFeature::Tag("AI".to_string()), FacetFeature::Other],
            vec![],
            vec![FacetFeature::Other, FacetFeature::Tag("space".to_string())],
        ]),
    );
    assert_eq!(extract_hash_tags(&p), strings(&["AI", "space"]));
    assert_eq!(extract_hash_tags(&post("x", None)), Vec::<String>::new());
}

#[test]
fn selected_mentions_are_lowercased_and_watched() {
    let watched = strings(&["ai", "space", "EconSky"]);
    let got = select_mentions(&strings(&["AI", "cats", "Space", "EconSky"]), &watched, "t", "did:x", at());
    assert_eq!(got, Some(vec![mention("ai", "t", "did:x"), mention("space", "t", "did:x")]));
}

#[test]
fn no_watched_tag_gives_none() {
    let watched = strings(&["ai"]);
    assert_eq!(select_mentions(&strings(&["cats"]), &watched, "t", "d", at()), None);
    assert_eq!(select_mentions(&Vec::new(), &watched, "t", "d", at()), None);
}

#[test]
fn lowered_tags_are_compared_as_given() {
    let watched = strings(&["ai"]);
    assert_eq!(mentions_from_lowered(&strings(&["AI"]), &watched, "t", "d", at()), None);
    assert_eq!(
        mentions_from_lowered(&strings(&["ai", "ai"]), &watched, "t", "d", at()),
        Some(vec![mention("ai", "t", "d"), mention("ai", "t", "d")])
    );
}

#[test]
fn post_mentions_read_facets_and_text() {
    let p = post("birds!", Some(vec![vec![FacetFeature::Tag("Ornithology".to_string())]]));
    let watched = strings(&["ornithology"]);
    assert_eq!(
        post_mentions(&p, "did:plc:me", &watched, at()),
        Some(vec![mention("ornithology", "birds!", "did:plc:me")])
    );
    assert_eq!(post_mentions(&post("x", None), "d", &watched, at()), None);
}

#[test]
fn index_files_mentions_by_tag_in_order() {
    let mut index = MentionIndex::new();
    assert!(index.report("ai").mentions.is_empty());
    index.record_all(vec![
        mention("ai", "1", "a"),
        mention("space", "2", "b"),
        mention("ai", "3", "c"),
    ]);
    index.record(mention("ai", "4", "d"));
    assert_eq!(
        index.report("ai").mentions,
        vec![mention("ai", "1", "a"), mention("ai", "3", "c"), mention("ai", "4", "d")]
    );
    assert_eq!(index.report("space").mentions, vec![mention("space", "2", "b")]);
    assert!(index.report("funny").mentions.is_empty());
}
