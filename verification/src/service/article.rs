//! Article side work that is not SQL: tag cleaning and the per-IP counting window.
use vstd::prelude::*;
use crate::util::strings_view;
use crate::text::{chars_of, concat, is_ws, same_chars, slice_of, string_from, trim, trimmed_chars};

verus! {

/// Column width of `article_tag.tag_content`.
pub const MAX_TAG_LEN: usize = 100;

/// At most this many tags per article.
pub const MAX_TAGS: usize = 15;

/// A tag as it is stored: trimmed, then cut to the column width.
pub open spec fn tag_cut(tag: Seq<char>) -> Seq<char> {
    let t = trim(tag);
    if t.len() > MAX_TAG_LEN {
        t.take(MAX_TAG_LEN as int)
    } else {
        t
    }
}

/// The tags that are kept, in their order: each cut tag that is not empty and not already kept,
/// until fifteen are kept.
pub open spec fn sanitized(tags: Seq<Seq<char>>) -> Seq<Seq<char>>
    decreases tags.len(),
{
    if tags.len() == 0 {
        Seq::empty()
    } else {
        let prev = sanitized(tags.drop_last());
        let c = tag_cut(tags.last());
        if prev.len() >= MAX_TAGS || c.len() == 0 || prev.contains(c) {
            prev
        } else {
            prev.push(c)
        }
    }
}

/// No tag occurs twice.
pub open spec fn distinct(s: Seq<Seq<char>>) -> bool {
    forall|i: int, j: int| 0 <= i < j < s.len() ==> s[i] != s[j]
}

/// The shape every kept tag list has.
pub open spec fn well_formed_tags(s: Seq<Seq<char>>) -> bool {
    &&& s.len() <= MAX_TAGS
    &&& distinct(s)
    &&& forall|i: int|
        0 <= i < s.len() ==> {
            &&& #[trigger] s[i].len() > 0
            &&& s[i].len() <= MAX_TAG_LEN
            &&& !is_ws(s[i][0])
        }
}

proof fn lemma_trim_start_first(s: Seq<char>)
    ensures
        crate::text::trim_start(s).len() > 0 ==> !is_ws(crate::text::trim_start(s)[0]),
    decreases s.len(),
{
    if s.len() > 0 && is_ws(s[0]) {
        lemma_trim_start_first(s.drop_first());
    }
}

proof fn lemma_trim_end_prefix(s: Seq<char>)
    ensures
        crate::text::trim_end(s).len() <= s.len(),
        crate::text::trim_end(s) == s.take(crate::text::trim_end(s).len() as int),
    decreases s.len(),
{
    if s.len() > 0 && is_ws(s.last()) {
        lemma_trim_end_prefix(s.drop_last());
        let t = crate::text::trim_end(s.drop_last());
        assert(s.drop_last().take(t.len() as int) == s.take(t.len() as int));
    } else {
        assert(s.take(s.len() as int) == s);
    }
}

/// A non-empty cut tag does not start with white space.
proof fn lemma_tag_cut_first(tag: Seq<char>)
    ensures
        tag_cut(tag).len() > 0 ==> !is_ws(tag_cut(tag)[0]),
        tag_cut(tag).len() <= MAX_TAG_LEN,
{
    let ts = crate::text::trim_start(tag);
    lemma_trim_start_first(tag);
    lemma_trim_end_prefix(ts);
    let t = trim(tag);
    if t.len() > 0 {
        assert(t[0] == ts[0]);
    }
}

/// Every kept list of tags has at most fifteen distinct, non-empty tags of at most a hundred
/// characters, none of them starting with white space.
pub proof fn lemma_sanitized_well_formed(tags: Seq<Seq<char>>)
    ensures
        well_formed_tags(sanitized(tags)),
    decreases tags.len(),
{
    if tags.len() > 0 {
        lemma_sanitized_well_formed(tags.drop_last());
        lemma_tag_cut_first(tags.last());
        let prev = sanitized(tags.drop_last());
        let c = tag_cut(tags.last());
        if !(prev.len() >= MAX_TAGS || c.len() == 0 || prev.contains(c)) {
            let s = prev.push(c);
            assert forall|i: int, j: int| 0 <= i < j < s.len() implies s[i] != s[j] by {
                if j == prev.len() {
                    assert(s[i] == prev[i]);
                    assert(prev.contains(prev[i]));
                }
            }
            assert forall|i: int| 0 <= i < s.len() implies {
                &&& #[trigger] s[i].len() > 0
                &&& s[i].len() <= MAX_TAG_LEN
                &&& !is_ws(s[i][0])
            } by {
                if i < prev.len() {
                    assert(s[i] == prev[i]);
                }
            }
        }
    }
}

proof fn lemma_sanitized_full(tags: Seq<Seq<char>>, i: int)
    requires
        0 <= i <= tags.len(),
        sanitized(tags.take(i)).len() >= MAX_TAGS,
    ensures
        sanitized(tags) == sanitized(tags.take(i)),
    decreases tags.len() - i,
{
    if i < tags.len() {
        assert(tags.take(i + 1).drop_last() == tags.take(i));
        lemma_sanitized_full(tags, i + 1);
    } else {
        assert(tags.take(i) == tags);
    }
}

/// Cleans the tags of an article: trims them, drops empty ones and repeats, cuts each to the
/// column width, and keeps at most fifteen.
pub fn sanitize_tags(tags: Vec<String>) -> (out: Vec<String>)
    ensures
        strings_view(out@) == sanitized(strings_view(tags@)),
        well_formed_tags(strings_view(out@)),
{
    let ghost input = strings_view(tags@);
    let mut out: Vec<String> = Vec::new();
    let mut seen: Vec<Vec<char>> = Vec::new();
    let mut i: usize = 0;
    while i < tags.len() && out.len() < MAX_TAGS
        invariant
            i <= tags@.len(),
            input == strings_view(tags@),
            out@.len() == seen@.len(),
            forall|k: int| 0 <= k < out@.len() ==> #[trigger] out@[k]@ == seen@[k]@,
            strings_view(out@) == sanitized(input.take(i as int)),
        decreases tags.len() - i,
    {
        let trimmed = trimmed_chars(tags[i].as_str());
        let cut = if trimmed.len() > MAX_TAG_LEN {
            slice_of(&trimmed, 0, MAX_TAG_LEN)
        } else {
            trimmed
        };
        proof {
            assert(input.take(i + 1).drop_last() == input.take(i as int));
            assert(input.take(i + 1).last() == tags@[i as int]@);
            assert(cut@ == tag_cut(tags@[i as int]@));
        }
        let ghost prev = sanitized(input.take(i as int));
        if cut.len() > 0 {
            let mut dup = false;
            let mut k: usize = 0;
            while k < seen.len()
                invariant
                    k <= seen@.len(),
                    out@.len() == seen@.len(),
                    forall|m: int| 0 <= m < out@.len() ==> #[trigger] out@[m]@ == seen@[m]@,
                    prev == strings_view(out@),
                    dup == (exists|m: int| 0 <= m < k && #[trigger] seen@[m]@ == cut@),
                decreases seen.len() - k,
            {
                if same_chars(&seen[k], &cut) {
                    dup = true;
                }
                k += 1;
            }
            proof {
                if dup {
                    let m = choose|m: int| 0 <= m < seen@.len() && #[trigger] seen@[m]@ == cut@;
                    assert(prev[m] == cut@);
                    assert(prev.contains(cut@));
                } else {
                    assert forall|m: int| 0 <= m < prev.len() implies prev[m] != cut@ by {
                        assert(prev[m] == out@[m]@);
                        assert(out@[m]@ == seen@[m]@);
                    }
                    assert(!prev.contains(cut@));
                }
            }
            if !dup {
                let s = string_from(&cut);
                out.push(s);
                seen.push(cut);
                proof {
                    assert(strings_view(out@) == prev.push(cut@));
                }
            }
        }
        i += 1;
    }
    proof {
        if i < tags@.len() {
            lemma_sanitized_full(input, i as int);
        } else {
            assert(input.take(i as int) == input);
        }
        lemma_sanitized_well_formed(input);
    }
    out
}

/// Key prefix of the view-counting window.
pub const VIEW_KEY_PREFIX: &'static str = "blrs:view:";

/// Key prefix of the like-counting window.
pub const LIKE_KEY_PREFIX: &'static str = "blrs:like:";

pub open spec fn window_key(prefix: Seq<char>, article_id: Seq<char>, client_ip: Seq<char>) -> Seq<char> {
    prefix + article_id + seq![':'] + client_ip
}

/// The cache key that dedupes views of one article from one address.
pub fn view_key(article_id: &str, client_ip: &str) -> (k: String)
    ensures
        k@ == window_key(VIEW_KEY_PREFIX@, article_id@, client_ip@),
{
    let a = concat(VIEW_KEY_PREFIX, article_id);
    let b = concat(a.as_str(), ":");
    let k = concat(b.as_str(), client_ip);
    proof {
        reveal_strlit(":");
    }
    assert(k@ =~= window_key(VIEW_KEY_PREFIX@, article_id@, client_ip@));
    k
}

/// The cache key that dedupes likes of one article from one address.
pub fn like_key(article_id: &str, client_ip: &str) -> (k: String)
    ensures
        k@ == window_key(LIKE_KEY_PREFIX@, article_id@, client_ip@),
{
    let a = concat(LIKE_KEY_PREFIX, article_id);
    let b = concat(a.as_str(), ":");
    let k = concat(b.as_str(), client_ip);
    proof {
        reveal_strlit(":");
    }
    assert(k@ =~= window_key(LIKE_KEY_PREFIX@, article_id@, client_ip@));
    k
}

/// What the cache answered to `SET key 1 NX EX 3600`.
pub enum WindowReply {
    /// No cache connection.
    NoCache,
    /// `OK`: the key was set by us.
    Claimed,
    /// nil: the key already existed.
    Exists,
    /// The command failed.
    Failed,
}

/// Whether this request opens a new counting window (and so counts).
///
/// A missing or failing cache counts too: a broken cache may make counts too high, it must not
/// lose them.
pub fn claims_window(reply: WindowReply) -> (counts: bool)
    ensures
        counts == !(reply is Exists),
{
    match reply {
        WindowReply::NoCache => true,
        WindowReply::Claimed => true,
        WindowReply::Exists => false,
        WindowReply::Failed => true,
    }
}

} // verus!
