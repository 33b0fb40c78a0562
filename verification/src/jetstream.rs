//! Decisions of the firehose consumer: which payload a socket message
//! carries, which commits matter, and which hashtags a post uses.

use vstd::prelude::*;
use atrium_api::app::bsky::feed::post::Record;
use atrium_api::app::bsky::richtext::facet::MainFeaturesItem as Item;
use atrium_api::types::Union;
use crate::lexicon::{
    JetstreamEvent, COLLECTION_POLL, COLLECTION_POST, COLLECTION_STATEMENT,
    COLLECTION_VOTE,
};
use crate::mentions::{lower_all, mentions_built, select_mentions, selected_tags, Mention};
use crate::models::Timestamp;
use crate::records::{collection_of, RecordKind};
use crate::text::{lowercase_of, same_text, texts};

verus! {

/// What `zstd::stream::decode_all` gives for a byte string: the content of
/// the zstd frames it holds, or `None` where it reports an error.
pub uninterp spec fn zstd_decoded(bytes: Seq<u8>) -> Option<Seq<u8>>;

/// Calls `zstd::stream::decode_all` on the bytes. The contract claims that
/// the outcome (the decompressed bytes, or that an error was reported) is a
/// function of the input bytes, named `zstd_decoded`; the zstd format itself
/// is left unsaid.
#[verifier::external_body]
fn zstd_decode_all(bytes: &[u8]) -> (r: Option<Vec<u8>>)
    ensures
        match r {
            Some(v) => zstd_decoded(bytes@) == Some(v@),
            None => zstd_decoded(bytes@) == None::<Seq<u8>>,
        },
{
    match zstd::stream::decode_all(bytes) {
        Ok(v) => Some(v),
        Err(_) => None,
    }
}

/// The payload of a binary message: its decompressed content where it is
/// zstd data, else the bytes as they came.
pub open spec fn binary_payload(bytes: Seq<u8>) -> Seq<u8> {
    match zstd_decoded(bytes) {
        Some(d) => d,
        None => bytes,
    }
}

/// Picks the payload once decompression has been tried: the decompressed
/// bytes when there are some, else the raw ones.
pub fn payload_or_raw(decoded: Option<Vec<u8>>, raw: Vec<u8>) -> (r: Vec<u8>)
    ensures
        r@ == match decoded {
            Some(d) => d@,
            None => raw@,
        },
{
    match decoded {
        Some(d) => d,
        None => raw,
    }
}

/// The payload of a binary message (Jetstream often compresses with zstd).
pub fn decode_binary(bytes: Vec<u8>) -> (r: Vec<u8>)
    ensures
        r@ == binary_payload(bytes@),
{
    let decoded = zstd_decode_all(bytes.as_slice());
    payload_or_raw(decoded, bytes)
}

/// A message read from the firehose socket.
#[derive(Debug)]
pub enum SocketMessage {
    Binary(Vec<u8>),
    /// A text message, as its UTF-8 bytes
    Text(Vec<u8>),
    Close,
    Ping,
    Pong,
    Frame,
}

/// What the consumer does with a message.
#[derive(Debug)]
pub enum ConsumerStep {
    /// Read the event in these JSON bytes.
    Handle(Vec<u8>),
    /// The connection closed: stop reading.
    Stop,
    /// Nothing to read: go on with the next message.
    Continue,
}

/// The consumer's step for one socket message.
pub fn consumer_step(msg: SocketMessage) -> (r: ConsumerStep)
    ensures
        match msg {
            SocketMessage::Binary(b) => r matches ConsumerStep::Handle(p) && p@ == binary_payload(
                b@,
            ),
            SocketMessage::Text(t) => r matches ConsumerStep::Handle(p) && p@ == t@,
            SocketMessage::Close => r is Stop,
            _ => r is Continue,
        },
{
    match msg {
        SocketMessage::Binary(b) => ConsumerStep::Handle(decode_binary(b)),
        SocketMessage::Text(t) => ConsumerStep::Handle(t),
        SocketMessage::Close => ConsumerStep::Stop,
        SocketMessage::Ping => ConsumerStep::Continue,
        SocketMessage::Pong => ConsumerStep::Continue,
        SocketMessage::Frame => ConsumerStep::Continue,
    }
}

/// Which kind of record a commit holds, by its collection.
#[derive(Debug, Clone, Copy, PartialEq, Eq, Structural)]
pub enum CommitKind {
    Post,
    Poll,
    Statement,
    Vote,
    Ignored,
}

/// The kind of record a collection holds.
pub open spec fn kind_of_collection(c: Seq<char>) -> CommitKind {
    if c == COLLECTION_POST@ {
        CommitKind::Post
    } else if c == COLLECTION_POLL@ {
        CommitKind::Poll
    } else if c == COLLECTION_STATEMENT@ {
        CommitKind::Statement
    } else if c == COLLECTION_VOTE@ {
        CommitKind::Vote
    } else {
        CommitKind::Ignored
    }
}

/// The kind of record an event commits; events that are not commits are ignored.
pub open spec fn kind_of_event(e: JetstreamEvent) -> CommitKind {
    match e {
        JetstreamEvent::Commit { commit, .. } => kind_of_collection(commit.collection@),
        JetstreamEvent::Other => CommitKind::Ignored,
    }
}

/// Classifies an event by the collection of its commit.
pub fn commit_kind(event: &JetstreamEvent) -> (r: CommitKind)
    ensures
        r == kind_of_event(*event),
{
    match event {
        JetstreamEvent::Commit { commit, .. } => {
            let c = commit.collection.as_str();
            if same_text(c, COLLECTION_POST) {
                CommitKind::Post
            } else if same_text(c, COLLECTION_POLL) {
                CommitKind::Poll
            } else if same_text(c, COLLECTION_STATEMENT) {
                CommitKind::Statement
            } else if same_text(c, COLLECTION_VOTE) {
                CommitKind::Vote
            } else {
                CommitKind::Ignored
            }
        },
        JetstreamEvent::Other => CommitKind::Ignored,
    }
}

/// One feature of a rich-text facet: a hashtag, or something else (a
/// mention or a link).
#[derive(Debug)]
pub enum FacetFeature {
    Tag(String),
    Other,
}

/// A rich-text facet of a post.
#[derive(Debug)]
pub struct Facet {
    pub features: Vec<FacetFeature>,
}

/// What the consumer reads of a post record.
#[derive(Debug)]
pub struct PostRecord {
    /// The primary post content
    pub text: String,
    /// Annotations of text (mentions, URLs, hashtags)
    pub facets: Option<Vec<Facet>>,
}

/// The hashtags among some features, in order.
pub open spec fn feature_tags(fs: Seq<FacetFeature>) -> Seq<Seq<char>>
    decreases fs.len(),
{
    if fs.len() == 0 {
        Seq::empty()
    } else {
        let rest = feature_tags(fs.drop_last());
        match fs.last() {
            FacetFeature::Tag(t) => rest.push(t@),
            FacetFeature::Other => rest,
        }
    }
}

/// The hashtags of some facets, facet after facet.
pub open spec fn facets_tags(facets: Seq<Facet>) -> Seq<Seq<char>>
    decreases facets.len(),
{
    if facets.len() == 0 {
        Seq::empty()
    } else {
        facets_tags(facets.drop_last()) + feature_tags(facets.last().features@)
    }
}

/// The hashtags a post's facets declare, in order.
pub open spec fn post_tags(post: PostRecord) -> Seq<Seq<char>> {
    match post.facets {
        Some(fs) => facets_tags(fs@),
        None => Seq::empty(),
    }
}

/// The hashtags a post's facets declare, in order (duplicates kept).
pub fn extract_hash_tags(post: &PostRecord) -> (r: Vec<String>)
    ensures
        texts(r@) == post_tags(*post),
{
    let mut tags: Vec<String> = Vec::new();
    match &post.facets {
        Some(facets) => {
            let mut i: usize = 0;
            while i < facets.len()
                invariant
                    0 <= i <= facets.len(),
                    post.facets == Some(*facets),
                    texts(tags@) == facets_tags(facets@.take(i as int)),
                decreases facets.len() - i,
            {
                assert(facets@.take(i + 1).drop_last() =~= facets@.take(i as int));
                let features = &facets[i].features;
                let ghost before = tags@;
                let mut j: usize = 0;
                while j < features.len()
                    invariant
                        0 <= j <= features.len(),
                        i < facets.len(),
                        features == &facets@[i as int].features,
                        texts(tags@) == texts(before) + feature_tags(features@.take(j as int)),
                    decreases features.len() - j,
                {
                    assert(features@.take(j + 1).drop_last() =~= features@.take(j as int));
                    assert(features@.take(j + 1).last() == features@[j as int]);
                    match &features[j] {
                        FacetFeature::Tag(t) => {
                            let ghost prev = tags@;
                            tags.push(t.clone());
                            proof {
                                let f = feature_tags(features@.take(j as int));
                                assert(feature_tags(features@.take(j + 1)) == f.push(t@));
                                assert(texts(tags@) =~= texts(prev).push(t@));
                                assert(texts(tags@) =~= texts(before) + f.push(t@));
                            }
                        },
                        FacetFeature::Other => {},
                    }
                    j = j + 1;
                }
                assert(features@.take(features.len() as int) =~= features@);
                assert(facets@.take(i + 1).last() == facets@[i as int]);
                i = i + 1;
            }
            assert(facets@.take(facets.len() as int) =~= facets@);
        },
        None => {
            assert(texts(tags@) =~= Seq::<Seq<char>>::empty());
        },
    }
    tags
}

/// The mentions of watched tags that a post by `did`, seen at `at`, makes:
/// one per hashtag whose lowercase form is watched, or `None` when there
/// is none.
pub fn post_mentions(post: &PostRecord, did: &str, watched: &Vec<String>, at: Timestamp) -> (r:
    Option<Vec<Mention>>)
    ensures
        match r {
            Some(ms) => selected_tags(lower_all(post_tags(*post)), texts(watched@)).len() > 0
                && mentions_built(
                ms@,
                selected_tags(lower_all(post_tags(*post)), texts(watched@)),
                post.text@,
                did@,
                at,
            ),
            None => selected_tags(lower_all(post_tags(*post)), texts(watched@)).len() == 0,
        },
{
    let tags = extract_hash_tags(post);
    select_mentions(&tags, watched, post.text.as_str(), did, at)
}

/// A post as plain values: its text and, when it has facets, per facet and
/// per feature the hashtag (`Some`) or another kind of feature (`None`).
pub type PostView = (Seq<char>, Option<Seq<Seq<Option<Seq<char>>>>>);

/// What parsing JSON text as an `app.bsky.feed.post` record with
/// `serde_json` gives, as plain values; `None` where it reports an error.
pub uninterp spec fn post_record_of(json: Seq<char>) -> Option<PostView>;

/// A facet feature as a plain value.
pub open spec fn feature_view(x: FacetFeature) -> Option<Seq<char>> {
    match x {
        FacetFeature::Tag(t) => Some(t@),
        FacetFeature::Other => None,
    }
}

/// A facet as plain values.
pub open spec fn facet_view(f: Facet) -> Seq<Option<Seq<char>>> {
    f.features@.map_values(|x: FacetFeature| feature_view(x))
}

/// A post record as plain values.
pub open spec fn post_view(p: PostRecord) -> PostView {
    (
        p.text@,
        match p.facets {
            Some(fs) => Some(fs@.map_values(|f: Facet| facet_view(f))),
            None => None,
        },
    )
}

/// Parses JSON text as an `app.bsky.feed.post` record with `serde_json` and
/// keeps what the consumer reads: the text and, per facet feature, its
/// hashtag or that it is another kind. The contract claims that the outcome
/// is a function of the text, named `post_record_of`; the record's JSON
/// schema is left unsaid.
#[verifier::external_body]
pub fn parse_post_record(json: &str) -> (r: Option<PostRecord>)
    ensures
        match r {
            Some(p) => post_record_of(json@) == Some(post_view(p)),
            None => post_record_of(json@) is None,
        },
{
    let record: Record = serde_json::from_str(json).ok()?;
    let feature = |u: Union<Item>| match u {
        Union::Refs(Item::Tag(t)) => FacetFeature::Tag(t.data.tag),
        Union::Refs(Item::Mention(_)) => FacetFeature::Other,
        Union::Refs(Item::Link(_)) => FacetFeature::Other,
        Union::Unknown(_) => FacetFeature::Other,
    };
    let facets = record.data.facets.map(|fs| fs.into_iter().map(|f| Facet {
        features: f.data.features.into_iter().map(feature).collect(),
    }).collect());
    Some(PostRecord { text: record.data.text, facets })
}

/// The hashtags among some feature views, in order.
pub open spec fn tags_in_features(v: Seq<Option<Seq<char>>>) -> Seq<Seq<char>>
    decreases v.len(),
{
    if v.len() == 0 {
        Seq::empty()
    } else {
        let rest = tags_in_features(v.drop_last());
        match v.last() {
            Some(t) => rest.push(t),
            None => rest,
        }
    }
}

/// The hashtags of some facet views, facet after facet.
pub open spec fn tags_in_facets(v: Seq<Seq<Option<Seq<char>>>>) -> Seq<Seq<char>>
    decreases v.len(),
{
    if v.len() == 0 {
        Seq::empty()
    } else {
        tags_in_facets(v.drop_last()) + tags_in_features(v.last())
    }
}

/// The hashtags of a post view, in order.
pub open spec fn tags_in_post(v: PostView) -> Seq<Seq<char>> {
    match v.1 {
        Some(fs) => tags_in_facets(fs),
        None => Seq::empty(),
    }
}

proof fn lemma_feature_tags_view(fs: Seq<FacetFeature>)
    ensures
        feature_tags(fs) == tags_in_features(fs.map_values(|x: FacetFeature| feature_view(x))),
    decreases fs.len(),
{
    if fs.len() > 0 {
        lemma_feature_tags_view(fs.drop_last());
        assert(fs.map_values(|x: FacetFeature| feature_view(x)).drop_last() =~= fs.drop_last().map_values(
            |x: FacetFeature| feature_view(x),
        ));
    }
}

proof fn lemma_facets_tags_view(fs: Seq<Facet>)
    ensures
        facets_tags(fs) == tags_in_facets(fs.map_values(|f: Facet| facet_view(f))),
    decreases fs.len(),
{
    if fs.len() > 0 {
        lemma_facets_tags_view(fs.drop_last());
        lemma_feature_tags_view(fs.last().features@);
        assert(fs.map_values(|f: Facet| facet_view(f)).drop_last() =~= fs.drop_last().map_values(
            |f: Facet| facet_view(f),
        ));
    }
}

/// The hashtags of a post are those of its plain view.
pub proof fn lemma_post_tags_view(p: PostRecord)
    ensures
        post_tags(p) == tags_in_post(post_view(p)),
{
    match p.facets {
        Some(fs) => lemma_facets_tags_view(fs@),
        None => {},
    }
}

/// What the consumer makes of an event: for a commit of a post whose record
/// parses, the mentions of watched tags it makes (`None` when none); for
/// anything else, `None`.
pub open spec fn event_mentions_are(
    event: JetstreamEvent,
    watched: Seq<String>,
    at: Timestamp,
    r: Option<Vec<Mention>>,
) -> bool {
    match event {
        JetstreamEvent::Commit { did, commit, .. } => if kind_of_collection(commit.collection@)
            == CommitKind::Post {
            match post_record_of(commit.record@) {
                None => r is None,
                Some(v) => {
                    let sel = selected_tags(lower_all(tags_in_post(v)), texts(watched));
                    match r {
                        Some(ms) => sel.len() > 0 && mentions_built(ms@, sel, v.0, did@, at),
                        None => sel.len() == 0,
                    }
                },
            }
        } else {
            r is None
        },
        JetstreamEvent::Other => r is None,
    }
}

/// The mentions of watched tags an event makes, seen at `at`: only a
/// commit of a post whose record parses makes any.
pub fn event_mentions(event: &JetstreamEvent, watched: &Vec<String>, at: Timestamp) -> (r: Option<
    Vec<Mention>,
>)
    ensures
        event_mentions_are(*event, watched@, at, r),
        kind_of_event(*event) != CommitKind::Post ==> r is None,
{
    if commit_kind(event) != CommitKind::Post {
        return None;
    }
    match event {
        JetstreamEvent::Commit { did, commit, .. } => match parse_post_record(commit.record.as_str()) {
            Some(post) => {
                proof {
                    lemma_post_tags_view(post);
                }
                post_mentions(&post, did.as_str(), watched, at)
            },
            None => None,
        },
        JetstreamEvent::Other => None,
    }
}

/// Two post commits whose records parse to the same text, with hashtags
/// that lowercase alike one for one, select the same mentions: the tags'
/// own letter case never reaches the result.
pub proof fn lemma_post_mentions_see_only_lowercase(v1: PostView, v2: PostView, watched: Seq<String>)
    requires
        v1.0 == v2.0,
        tags_in_post(v1).len() == tags_in_post(v2).len(),
        forall|i: int|
            0 <= i < tags_in_post(v1).len() ==> lowercase_of(#[trigger] tags_in_post(v1)[i])
                == lowercase_of(tags_in_post(v2)[i]),
    ensures
        selected_tags(lower_all(tags_in_post(v1)), texts(watched)) == selected_tags(
            lower_all(tags_in_post(v2)),
            texts(watched),
        ),
{
    crate::mentions::lemma_selection_sees_only_lowercase(
        tags_in_post(v1),
        tags_in_post(v2),
        texts(watched),
    );
}

/// For a post commit whose record parses, the mentions an event makes are
/// one per use of a watched tag, all of them, in the post's order: each
/// tagged with the lowercased tag, carrying the post's text, the
/// committing DID and the time; and there are none exactly when the post
/// uses no watched tag.
pub proof fn lemma_event_mentions_every_watched_tag(
    event: JetstreamEvent,
    watched: Seq<String>,
    at: Timestamp,
    r: Option<Vec<Mention>>,
    v: PostView,
)
    requires
        event_mentions_are(event, watched, at, r),
        event matches JetstreamEvent::Commit { commit, .. } && kind_of_collection(
            commit.collection@,
        ) == CommitKind::Post && post_record_of(commit.record@) == Some(v),
    ensures
        ({
            let uses = lower_all(tags_in_post(v)).filter(
                crate::mentions::is_watched(texts(watched)),
            );
            match event {
                JetstreamEvent::Commit { did, .. } => match r {
                    Some(ms) => uses.len() > 0 && ms@.len() == uses.len() && forall|i: int|
                        0 <= i < ms@.len() ==> {
                            &&& #[trigger] ms@[i].tag@ == uses[i]
                            &&& ms@[i].text@ == v.0
                            &&& ms@[i].by@ == did@
                            &&& ms@[i].at == at
                        },
                    None => uses.len() == 0,
                },
                JetstreamEvent::Other => false,
            }
        }),
{
    crate::mentions::lemma_selected_tags_are_the_watched_ones(
        lower_all(tags_in_post(v)),
        texts(watched),
    );
}

/// A record the app writes is recognised on the firehose as the kind it was
/// written as: a poll as a poll, a statement as a statement, a vote as a
/// vote, and none of them as a post or as something to ignore.
pub proof fn lemma_written_records_are_recognised(kind: RecordKind)
    ensures
        kind_of_collection(collection_of(kind)) == match kind {
            RecordKind::Poll => CommitKind::Poll,
            RecordKind::Statement => CommitKind::Statement,
            RecordKind::Vote => CommitKind::Vote,
        },
{
    reveal_strlit("app.bsky.feed.post");
    reveal_strlit("com.crown-shy.testing.poll");
    reveal_strlit("com.crown-shy.testing.statement");
    reveal_strlit("com.crown-shy.testing.vote");
    assert(COLLECTION_POST@.len() == 18);
    assert(COLLECTION_POLL@.len() == 26);
    assert(COLLECTION_STATEMENT@.len() == 31);
    assert(COLLECTION_VOTE@.len() == 26);
    assert(COLLECTION_POLL@[22] != COLLECTION_VOTE@[22]);
    assert(COLLECTION_POLL@ != COLLECTION_VOTE@);
}

} // verus!
