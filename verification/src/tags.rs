//! The list of hashtags the firehose consumer tracks, and the two requests
//! that change it.

use vstd::prelude::*;
use crate::text::{position_of_text, texts};

verus! {

/// HTTP status `201 Created`.
pub const STATUS_CREATED: u16 = 201;
/// HTTP status `200 OK`.
pub const STATUS_OK: u16 = 200;
/// HTTP status `204 No Content`.
pub const STATUS_NO_CONTENT: u16 = 204;
/// HTTP status `404 Not Found`.
pub const STATUS_NOT_FOUND: u16 = 404;

/// The hashtags watched when the service starts.
pub fn initial_watched_tags() -> (r: Vec<String>)
    ensures
        texts(r@) == seq!["ai"@, "space"@, "funny"@, "EconSky"@, "Ornithology"@],
{
    let mut v: Vec<String> = Vec::new();
    v.push("ai".to_owned());
    v.push("space".to_owned());
    v.push("funny".to_owned());
    v.push("EconSky".to_owned());
    v.push("Ornithology".to_owned());
    assert(texts(v@) =~= seq!["ai"@, "space"@, "funny"@, "EconSky"@, "Ornithology"@]);
    v
}

/// Whether `i` is the first position at which `s` occurs in `v`.
pub open spec fn is_first_position(v: Seq<Seq<char>>, s: Seq<char>, i: int) -> bool {
    &&& 0 <= i < v.len()
    &&& v[i] == s
    &&& forall|j: int| 0 <= j < i ==> v[j] != s
}

/// The tag list after asking to track `tag`: unchanged when it is already
/// watched, else `tag` appended at the end.
pub open spec fn with_tag(tags: Seq<String>, tag: String) -> Seq<String> {
    if texts(tags).contains(tag@) {
        tags
    } else {
        tags.push(tag)
    }
}

/// The status answered when asked to track `tag`.
pub open spec fn add_status(tags: Seq<String>, tag: Seq<char>) -> u16 {
    if texts(tags).contains(tag) {
        STATUS_OK
    } else {
        STATUS_CREATED
    }
}

/// The tag list after asking to stop tracking `tag`: its first occurrence
/// removed, or unchanged when it is not watched.
pub open spec fn without_tag(tags: Seq<String>, tag: Seq<char>) -> Seq<String> {
    if texts(tags).contains(tag) {
        tags.remove(choose|i: int| is_first_position(texts(tags), tag, i))
    } else {
        tags
    }
}

/// The status answered when asked to stop tracking `tag`.
pub open spec fn remove_status(tags: Seq<String>, tag: Seq<char>) -> u16 {
    if texts(tags).contains(tag) {
        STATUS_NO_CONTENT
    } else {
        STATUS_NOT_FOUND
    }
}

/// A first position is unique.
proof fn lemma_first_position_unique(v: Seq<Seq<char>>, s: Seq<char>, i: int, k: int)
    requires
        is_first_position(v, s, i),
        is_first_position(v, s, k),
    ensures
        i == k,
{
}

/// A string that occurs has a first position.
proof fn lemma_first_position_exists(v: Seq<Seq<char>>, s: Seq<char>)
    requires
        v.contains(s),
    ensures
        exists|i: int| is_first_position(v, s, i),
    decreases v.len(),
{
    if v[0] == s {
        assert(is_first_position(v, s, 0));
    } else {
        let w = v.drop_first();
        let k = choose|k: int| 0 <= k < v.len() && v[k] == s;
        assert(w[k - 1] == s);
        lemma_first_position_exists(w, s);
        let i = choose|i: int| is_first_position(w, s, i);
        assert forall|j: int| 0 <= j < i + 1 implies v[j] != s by {
            if j > 0 {
                assert(v[j] == w[j - 1]);
            }
        }
        assert(is_first_position(v, s, i + 1));
    }
}

/// Starts tracking `tag`, answering `201 Created`; a tag that is already
/// watched leaves the list unchanged and is answered `200 OK`.
pub fn add_tag(tags: &mut Vec<String>, tag: String) -> (status: u16)
    ensures
        final(tags)@ == with_tag(old(tags)@, tag),
        status == add_status(old(tags)@, tag@),
{
    match position_of_text(tags, tag.as_str()) {
        Some(_) => STATUS_OK,
        None => {
            tags.push(tag);
            STATUS_CREATED
        },
    }
}

/// Stops tracking `tag`, removing its first occurrence and answering
/// `204 No Content`; a tag that is not watched is answered `404 Not Found`.
pub fn remove_tag(tags: &mut Vec<String>, tag: &str) -> (status: u16)
    ensures
        final(tags)@ == without_tag(old(tags)@, tag@),
        status == remove_status(old(tags)@, tag@),
{
    match position_of_text(tags, tag) {
        Some(pos) => {
            proof {
                assert(texts(old(tags)@)[pos as int] == tag@);
                assert(is_first_position(texts(old(tags)@), tag@, pos as int));
                let c = choose|i: int| is_first_position(texts(old(tags)@), tag@, i);
                lemma_first_position_unique(texts(old(tags)@), tag@, c, pos as int);
            }
            tags.remove(pos);
            STATUS_NO_CONTENT
        },
        None => STATUS_NOT_FOUND,
    }
}

/// After a tag is added it is watched, and adding it a second time changes
/// nothing and is answered `200 OK`.
pub proof fn lemma_add_tag_idempotent(tags: Seq<String>, tag: String)
    ensures
        texts(with_tag(tags, tag)).contains(tag@),
        with_tag(with_tag(tags, tag), tag) == with_tag(tags, tag),
        add_status(with_tag(tags, tag), tag@) == STATUS_OK,
{
    let t = with_tag(tags, tag);
    if !texts(tags).contains(tag@) {
        assert(texts(t)[tags.len() as int] == tag@);
    }
}

/// Adding a tag that was not watched and then removing it gives back the
/// list as it was.
pub proof fn lemma_add_then_remove_restores(tags: Seq<String>, tag: String)
    requires
        !texts(tags).contains(tag@),
    ensures
        without_tag(with_tag(tags, tag), tag@) == tags,
        remove_status(with_tag(tags, tag), tag@) == STATUS_NO_CONTENT,
{
    let t = tags.push(tag);
    let n = tags.len() as int;
    assert(texts(t)[n] == tag@);
    assert(is_first_position(texts(t), tag@, n)) by {
        assert forall|j: int| 0 <= j < n implies texts(t)[j] != tag@ by {
            assert(texts(tags)[j] == texts(t)[j]);
        }
    }
    let c = choose|i: int| is_first_position(texts(t), tag@, i);
    lemma_first_position_unique(texts(t), tag@, c, n);
    assert(t.remove(n) =~= tags);
}

/// Adding and removing keep a list free of duplicate tags, and on such a
/// list a removed tag is no longer watched.
pub proof fn lemma_tags_stay_distinct(tags: Seq<String>, tag: String, gone: Seq<char>)
    requires
        texts(tags).no_duplicates(),
    ensures
        texts(with_tag(tags, tag)).no_duplicates(),
        texts(without_tag(tags, gone)).no_duplicates(),
        !texts(without_tag(tags, gone)).contains(gone),
{
    let v = texts(tags);
    if !v.contains(tag@) {
        let w = texts(tags.push(tag));
        assert forall|i: int, j: int| 0 <= i < w.len() && 0 <= j < w.len() && i != j implies w[i]
            != w[j] by {
            if i < v.len() && j < v.len() {
                assert(w[i] == v[i] && w[j] == v[j]);
            } else if i < v.len() {
                assert(w[i] == v[i]);
            } else {
                assert(w[j] == v[j]);
            }
        }
    }
    if v.contains(gone) {
        lemma_first_position_exists(v, gone);
        let k = choose|i: int| is_first_position(v, gone, i);
        let r = tags.remove(k);
        let w = texts(r);
        assert forall|i: int| 0 <= i < w.len() implies w[i] == (if i < k { v[i] } else { v[i + 1] }) by {}
        assert forall|i: int, j: int| 0 <= i < w.len() && 0 <= j < w.len() && i != j implies w[i]
            != w[j] by {
            let a = if i < k { i } else { i + 1 };
            let b = if j < k { j } else { j + 1 };
            assert(w[i] == v[a] && w[j] == v[b]);
        }
        if w.contains(gone) {
            let m = choose|m: int| 0 <= m < w.len() && w[m] == gone;
            let a = if m < k { m } else { m + 1 };
            assert(w[m] == v[a]);
        }
    }
}

} // verus!
