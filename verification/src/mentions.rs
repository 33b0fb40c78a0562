//! Mentions of watched hashtags seen on the firehose, and the index that
//! collects them by tag.

use vstd::prelude::*;
use vstd::hash_map::StringHashMap;
use crate::models::Timestamp;
use crate::text::{contains_text, lowercase_of, texts, to_lowercase};

verus! {

/// A post that used a watched hashtag.
#[derive(Debug, PartialEq, Eq)]
pub struct Mention {
    /// The hashtag, lowercased
    pub tag: String,
    /// The text of the post
    pub text: String,
    /// The DID of the post's author
    pub by: String,
    /// When the mention was seen
    pub at: Timestamp,
}

impl Clone for Mention {
    fn clone(&self) -> (r: Self)
        ensures
            r == *self,
    {
        Mention { tag: self.tag.clone(), text: self.text.clone(), by: self.by.clone(), at: self.at }
    }
}

/// The mentions recorded for one tag.
#[derive(Debug)]
pub struct TagReport {
    pub mentions: Vec<Mention>,
}

/// The lowercased tags of a post that are watched, in the order the post
/// gives them; a tag used twice is selected twice.
pub open spec fn selected_tags(lowered: Seq<Seq<char>>, watched: Seq<Seq<char>>) -> Seq<Seq<char>>
    decreases lowered.len(),
{
    if lowered.len() == 0 {
        Seq::empty()
    } else {
        let rest = selected_tags(lowered.drop_last(), watched);
        if watched.contains(lowered.last()) {
            rest.push(lowered.last())
        } else {
            rest
        }
    }
}

/// `ms` holds, in order, one mention per tag of `tags`, each of post text
/// `text` by `by`, seen at `at`.
pub open spec fn mentions_built(
    ms: Seq<Mention>,
    tags: Seq<Seq<char>>,
    text: Seq<char>,
    by: Seq<char>,
    at: Timestamp,
) -> bool {
    &&& ms.len() == tags.len()
    &&& forall|i: int|
        0 <= i < ms.len() ==> {
            &&& #[trigger] ms[i].tag@ == tags[i]
            &&& ms[i].text@ == text
            &&& ms[i].by@ == by
            &&& ms[i].at == at
        }
}

/// The mentions of a post whose tags are already lowercased: one for each
/// tag that is watched, or `None` when no tag is.
pub fn mentions_from_lowered(
    lowered: &Vec<String>,
    watched: &Vec<String>,
    text: &str,
    by: &str,
    at: Timestamp,
) -> (r: Option<Vec<Mention>>)
    ensures
        match r {
            Some(ms) => selected_tags(texts(lowered@), texts(watched@)).len() > 0 && mentions_built(
                ms@,
                selected_tags(texts(lowered@), texts(watched@)),
                text@,
                by@,
                at,
            ),
            None => selected_tags(texts(lowered@), texts(watched@)).len() == 0,
        },
{
    let mut out: Vec<Mention> = Vec::new();
    let mut i: usize = 0;
    while i < lowered.len()
        invariant
            0 <= i <= lowered.len(),
            mentions_built(
                out@,
                selected_tags(texts(lowered@).take(i as int), texts(watched@)),
                text@,
                by@,
                at,
            ),
        decreases lowered.len() - i,
    {
        let ghost before = texts(lowered@).take(i as int);
        assert(texts(lowered@).take(i + 1).drop_last() =~= before);
        if contains_text(watched, lowered[i].as_str()) {
            let m = Mention {
                tag: lowered[i].clone(),
                text: text.to_owned(),
                by: by.to_owned(),
                at: at,
            };
            out.push(m);
        }
        i = i + 1;
    }
    assert(texts(lowered@).take(lowered.len() as int) =~= texts(lowered@));
    if out.len() == 0 {
        None
    } else {
        Some(out)
    }
}

/// Each text lowercased.
pub open spec fn lower_all(ts: Seq<Seq<char>>) -> Seq<Seq<char>> {
    ts.map_values(|t: Seq<char>| lowercase_of(t))
}

/// The tags of a post, each lowercased.
pub open spec fn lowered_tags(tags: Seq<String>) -> Seq<Seq<char>> {
    lower_all(texts(tags))
}

/// The mentions a post makes of watched tags: its tags are lowercased and
/// compared with the watched ones, and each match gives a mention tagged
/// with the lowercased tag. `None` when no tag is watched.
pub fn select_mentions(
    tags: &Vec<String>,
    watched: &Vec<String>,
    text: &str,
    by: &str,
    at: Timestamp,
) -> (r: Option<Vec<Mention>>)
    ensures
        match r {
            Some(ms) => selected_tags(lowered_tags(tags@), texts(watched@)).len() > 0
                && mentions_built(
                ms@,
                selected_tags(lowered_tags(tags@), texts(watched@)),
                text@,
                by@,
                at,
            ),
            None => selected_tags(lowered_tags(tags@), texts(watched@)).len() == 0,
        },
{
    let mut lowered: Vec<String> = Vec::new();
    let mut i: usize = 0;
    while i < tags.len()
        invariant
            0 <= i <= tags.len(),
            lowered@.len() == i,
            texts(lowered@) =~= lowered_tags(tags@).take(i as int),
        decreases tags.len() - i,
    {
        let l = to_lowercase(tags[i].as_str());
        let ghost prev = lowered@;
        lowered.push(l);
        proof {
            assert(lowered_tags(tags@)[i as int] == lowercase_of(tags@[i as int]@));
            assert forall|j: int| 0 <= j < i + 1 implies texts(lowered@)[j] == lowered_tags(
                tags@,
            ).take(i + 1)[j] by {
                if j < i {
                    assert(lowered@[j] == prev[j]);
                    assert(texts(prev)[j] == lowered_tags(tags@).take(i as int)[j]);
                }
            }
        }
        i = i + 1;
    }
    assert(texts(lowered@) =~= lowered_tags(tags@));
    mentions_from_lowered(&lowered, watched, text, by, at)
}

/// The mentions filed under `tag` in an index's view.
pub open spec fn mentions_under(m: Map<Seq<char>, Seq<Mention>>, tag: Seq<char>) -> Seq<Mention> {
    if m.contains_key(tag) {
        m[tag]
    } else {
        Seq::empty()
    }
}

/// The index's view after recording one mention: appended under its tag.
pub open spec fn with_mention(m: Map<Seq<char>, Seq<Mention>>, x: Mention) -> Map<
    Seq<char>,
    Seq<Mention>,
> {
    m.insert(x.tag@, mentions_under(m, x.tag@).push(x))
}

/// The index's view after recording mentions one after another.
pub open spec fn with_mentions(m: Map<Seq<char>, Seq<Mention>>, xs: Seq<Mention>) -> Map<
    Seq<char>,
    Seq<Mention>,
>
    decreases xs.len(),
{
    if xs.len() == 0 {
        m
    } else {
        with_mention(with_mentions(m, xs.drop_last()), xs.last())
    }
}

/// The mentions of `xs` tagged `tag`, in order.
pub open spec fn tagged(xs: Seq<Mention>, tag: Seq<char>) -> Seq<Mention>
    decreases xs.len(),
{
    if xs.len() == 0 {
        Seq::empty()
    } else if xs.last().tag@ == tag {
        tagged(xs.drop_last(), tag).push(xs.last())
    } else {
        tagged(xs.drop_last(), tag)
    }
}

/// Mentions of watched tags, filed by tag in the order they were seen.
pub struct MentionIndex {
    by_tag: StringHashMap<Vec<Mention>>,
}

impl View for MentionIndex {
    type V = Map<Seq<char>, Seq<Mention>>;

    closed spec fn view(&self) -> Map<Seq<char>, Seq<Mention>> {
        Map::new(|k: Seq<char>| self.by_tag@.contains_key(k), |k: Seq<char>| self.by_tag@[k]@)
    }
}

impl MentionIndex {
    /// An index with no mentions.
    pub fn new() -> (r: MentionIndex)
        ensures
            r@ == Map::<Seq<char>, Seq<Mention>>::empty(),
    {
        let r = MentionIndex { by_tag: StringHashMap::new() };
        assert(r@ =~= Map::<Seq<char>, Seq<Mention>>::empty());
        r
    }

    /// Files one mention at the end of the list for its tag, starting that
    /// list when the tag has none yet.
    pub fn record(&mut self, mention: Mention)
        ensures
            final(self)@ == with_mention(old(self)@, mention),
    {
        let mut list: Vec<Mention> = match self.by_tag.get(mention.tag.as_str()) {
            Some(existing) => existing.clone(),
            None => Vec::new(),
        };
        proof {
            assert(list@ =~= mentions_under(old(self)@, mention.tag@));
        }
        let key = mention.tag.clone();
        list.push(mention);
        self.by_tag.insert(key, list);
        proof {
            assert(self@ =~= with_mention(old(self)@, mention));
        }
    }

    /// Files the mentions one after another.
    pub fn record_all(&mut self, mentions: Vec<Mention>)
        ensures
            final(self)@ == with_mentions(old(self)@, mentions@),
    {
        let mut i: usize = 0;
        while i < mentions.len()
            invariant
                0 <= i <= mentions.len(),
                self@ == with_mentions(old(self)@, mentions@.take(i as int)),
            decreases mentions.len() - i,
        {
            assert(mentions@.take(i + 1).drop_last() =~= mentions@.take(i as int));
            self.record(mentions[i].clone());
            i = i + 1;
        }
        assert(mentions@.take(mentions.len() as int) =~= mentions@);
    }

    /// The mentions filed under `tag`, in the order they were recorded.
    pub fn report(&self, tag: &str) -> (r: TagReport)
        ensures
            r.mentions@ == mentions_under(self@, tag@),
    {
        match self.by_tag.get(tag) {
            Some(list) => {
                let mentions = list.clone();
                proof {
                    assert(mentions@ =~= mentions_under(self@, tag@));
                }
                TagReport { mentions }
            },
            None => TagReport { mentions: Vec::new() },
        }
    }
}

/// Recording mentions appends each one, in order, to the list of its own
/// tag and leaves every other tag's list as it was.
pub proof fn lemma_recorded_mentions_by_tag(
    m: Map<Seq<char>, Seq<Mention>>,
    xs: Seq<Mention>,
    tag: Seq<char>,
)
    ensures
        mentions_under(with_mentions(m, xs), tag) == mentions_under(m, tag) + tagged(xs, tag),
    decreases xs.len(),
{
    if xs.len() == 0 {
        assert(mentions_under(m, tag) + tagged(xs, tag) =~= mentions_under(m, tag));
    } else {
        lemma_recorded_mentions_by_tag(m, xs.drop_last(), tag);
        let prev = with_mentions(m, xs.drop_last());
        if xs.last().tag@ == tag {
            assert(mentions_under(m, tag) + tagged(xs, tag) =~= (mentions_under(m, tag) + tagged(
                xs.drop_last(),
                tag,
            )).push(xs.last()));
        } else {
            assert(mentions_under(with_mentions(m, xs), tag) == mentions_under(prev, tag));
        }
    }
}

/// Every mention selected from a post is filed under a watched tag.
pub proof fn lemma_selected_tags_are_watched(lowered: Seq<Seq<char>>, watched: Seq<Seq<char>>)
    ensures
        forall|i: int|
            0 <= i < selected_tags(lowered, watched).len() ==> watched.contains(
                #[trigger] selected_tags(lowered, watched)[i],
            ),
    decreases lowered.len(),
{
    if lowered.len() > 0 {
        let rest = selected_tags(lowered.drop_last(), watched);
        lemma_selected_tags_are_watched(lowered.drop_last(), watched);
        assert forall|i: int|
            0 <= i < selected_tags(lowered, watched).len() implies watched.contains(
            #[trigger] selected_tags(lowered, watched)[i],
        ) by {
            if i < rest.len() {
                assert(selected_tags(lowered, watched)[i] == rest[i]);
            }
        }
    }
}

/// Tags are matched and reported only through their lowercase forms: two
/// tag lists whose tags lowercase alike, one for one, select the same tags.
pub proof fn lemma_selection_sees_only_lowercase(
    a: Seq<Seq<char>>,
    b: Seq<Seq<char>>,
    watched: Seq<Seq<char>>,
)
    requires
        a.len() == b.len(),
        forall|i: int| 0 <= i < a.len() ==> lowercase_of(#[trigger] a[i]) == lowercase_of(b[i]),
    ensures
        lower_all(a) == lower_all(b),
        selected_tags(lower_all(a), watched) == selected_tags(lower_all(b), watched),
{
    assert(lower_all(a) =~= lower_all(b));
}

/// Whether a tag is one of the watched ones.
pub open spec fn is_watched(watched: Seq<Seq<char>>) -> spec_fn(Seq<char>) -> bool {
    |t: Seq<char>| watched.contains(t)
}

/// The tags selected from a post are exactly its (lowercased) tags that
/// are watched, all of them, in the post's order: every use of a watched
/// tag is selected and nothing else is.
pub proof fn lemma_selected_tags_are_the_watched_ones(
    lowered: Seq<Seq<char>>,
    watched: Seq<Seq<char>>,
)
    ensures
        selected_tags(lowered, watched) == lowered.filter(is_watched(watched)),
    decreases lowered.len(),
{
    reveal(Seq::filter);
    if lowered.len() > 0 {
        lemma_selected_tags_are_the_watched_ones(lowered.drop_last(), watched);
    }
}

/// Each use of a watched tag gives a mention: the number of mentions built
/// from a post equals the number of its lowercased tags that are watched,
/// and every watched tag the post uses is among them.
pub proof fn lemma_every_watched_use_is_selected(
    lowered: Seq<Seq<char>>,
    watched: Seq<Seq<char>>,
    i: int,
)
    requires
        0 <= i < lowered.len(),
        watched.contains(lowered[i]),
    ensures
        selected_tags(lowered, watched).contains(lowered[i]),
        selected_tags(lowered, watched).len() == lowered.filter(is_watched(watched)).len(),
{
    lemma_selected_tags_are_the_watched_ones(lowered, watched);
    lowered.lemma_filter_contains(is_watched(watched), i);
}

} // verus!
