//! The cached suppression list: the titles it lists, the titles watched
//! (listed titles and their redirects), when it must be refreshed, and what
//! catch-up a change of it calls for.

use sha2::Digest;
use vstd::prelude::*;

use crate::catchup::{same_texts, sorted_distinct, strictly_ascending};
use crate::cli::opt_text;
use crate::text::{copy_string, push_str, str_eq, string_of};
use crate::titles::{normalize_title, normalized_title, parse_source_list, parsed_source, views};

verus! {

/// The SHA-256 digest of the UTF-8 bytes of `text`, in lower-case hex.
pub uninterp spec fn sha256_hex_of(text: Seq<char>) -> Seq<char>;

/// Hashes text with `sha2::Sha256` and writes the digest in lower-case hex.
#[verifier::external_body]
fn sha256_hex(text: &str) -> (r: String)
    ensures
        r@ == sha256_hex_of(text@),
{
    let digest = sha2::Sha256::digest(text.as_bytes());
    format!("{:x}", digest)
}

/// Metadata of a wiki page.
#[derive(Clone, Copy, Debug, Default, PartialEq, Eq)]
pub struct PageMetadata {
    pub pageid: Option<u64>,
    pub lastrevid: Option<u64>,
    pub timestamp: Option<i64>,
}

/// A page's text with its metadata.
#[derive(Clone, Debug)]
pub struct PageContent {
    pub metadata: PageMetadata,
    pub content: String,
}

/// The cached suppression list.
#[derive(Clone, Debug)]
pub struct SuppressionListCache {
    pub source_title: String,
    pub source_pageid: Option<u64>,
    pub source_lastrevid: Option<u64>,
    pub source_last_timestamp: Option<i64>,
    pub fetched_at: i64,
    pub listed_titles_normalized: Vec<String>,
    pub watched_titles_normalized: Vec<String>,
    /// Redirects found for listed titles, from title to target, in title
    /// order.
    pub redirect_map: Vec<(String, String)>,
    pub titles_hash_sha256: String,
}

/// The watched titles a refresh added and removed, each list sorted.
#[derive(Clone, Debug, Default, PartialEq, Eq)]
pub struct WatchedTitleDiff {
    pub added: Vec<String>,
    pub removed: Vec<String>,
}

/// Why a refreshed list was refused.
#[derive(Clone, Copy, Debug, PartialEq, Eq)]
pub enum CacheError {
    /// The source page lists no valid title.
    NoValidTitles,
}

/// The text hashed for a list of titles: each title followed by a newline.
pub open spec fn lines_text(values: Seq<Seq<char>>) -> Seq<char>
    decreases values.len(),
{
    if values.len() == 0 {
        Seq::empty()
    } else {
        lines_text(values.drop_last()) + values.last() + "\n"@
    }
}

/// The texts of the pairs, each pair's first then second.
pub open spec fn pair_texts(pairs: Seq<(String, String)>) -> Seq<Seq<char>>
    decreases pairs.len(),
{
    if pairs.len() == 0 {
        Seq::empty()
    } else {
        pair_texts(pairs.drop_last()) + seq![pairs.last().0@, pairs.last().1@]
    }
}

/// The hash of a list of titles.
pub fn compute_hash(values: &Vec<String>) -> (r: String)
    ensures
        r@ == sha256_hex_of(lines_text(views(values@))),
{
    let mut text: Vec<char> = Vec::new();
    let mut i: usize = 0;
    while i < values.len()
        invariant
            i <= values.len(),
            text@ == lines_text(views(values@).take(i as int)),
        decreases values.len() - i,
    {
        push_str(&mut text, values[i].as_str());
        push_str(&mut text, "\n");
        proof {
            let t = views(values@).take(i + 1);
            assert(t.drop_last() =~= views(values@).take(i as int));
        }
        i = i + 1;
    }
    assert(views(values@).take(values.len() as int) =~= views(values@));
    let s = string_of(&text);
    sha256_hex(s.as_str())
}

/// A copy of a list of strings.
pub fn copy_strings(v: &Vec<String>) -> (r: Vec<String>)
    ensures
        r@ == v@,
{
    let mut out: Vec<String> = Vec::new();
    let mut i: usize = 0;
    while i < v.len()
        invariant
            i <= v.len(),
            out@ == v@.take(i as int),
        decreases v.len() - i,
    {
        out.push(v[i].clone());
        i = i + 1;
        assert(out@ =~= v@.take(i as int));
    }
    assert(v@.take(v.len() as int) =~= v@);
    out
}

/// A copy of a list of string pairs.
pub fn copy_pairs(v: &Vec<(String, String)>) -> (r: Vec<(String, String)>)
    ensures
        r@ == v@,
{
    let mut out: Vec<(String, String)> = Vec::new();
    let mut i: usize = 0;
    while i < v.len()
        invariant
            i <= v.len(),
            out@ == v@.take(i as int),
        decreases v.len() - i,
    {
        out.push((v[i].0.clone(), v[i].1.clone()));
        i = i + 1;
        assert(out@ =~= v@.take(i as int));
    }
    assert(v@.take(v.len() as int) =~= v@);
    out
}

impl SuppressionListCache {
    /// An empty cache for the list kept on `source_title`, made at `now`.
    pub fn initial(source_title: &str, now: i64) -> (r: Self)
        ensures
            r.source_title@ == source_title@,
            r.source_pageid is None,
            r.source_lastrevid is None,
            r.source_last_timestamp is None,
            r.fetched_at == now,
            r.listed_titles_normalized@.len() == 0,
            r.watched_titles_normalized@.len() == 0,
            r.redirect_map@.len() == 0,
            r.titles_hash_sha256@.len() == 0,
    {
        SuppressionListCache {
            source_title: String::from_str(source_title),
            source_pageid: None,
            source_lastrevid: None,
            source_last_timestamp: None,
            fetched_at: now,
            listed_titles_normalized: Vec::new(),
            watched_titles_normalized: Vec::new(),
            redirect_map: Vec::new(),
            titles_hash_sha256: String::new(),
        }
    }

    /// The cache after reading the list's page at `now`: the titles it
    /// lists; when they changed (by hash), the redirects are dropped and the
    /// listed titles are watched; otherwise the redirects and the watched
    /// titles are kept (unless nothing was watched yet). Refused when the
    /// page lists no valid title.
    pub fn from_source_content(previous: &Self, content: PageContent, now: i64) -> (r: Result<
        Self,
        CacheError,
    >)
        ensures
            ({
                let listed = parsed_source(content.content@).0;
                let hash = sha256_hex_of(lines_text(listed));
                let changed = previous.titles_hash_sha256@ != hash;
                match r {
                    Err(e) => listed.len() == 0 && e == CacheError::NoValidTitles,
                    Ok(c) => {
                        &&& listed.len() > 0
                        &&& c.source_title == previous.source_title
                        &&& c.source_pageid == content.metadata.pageid
                        &&& c.source_lastrevid == content.metadata.lastrevid
                        &&& c.source_last_timestamp == content.metadata.timestamp
                        &&& c.fetched_at == now
                        &&& views(c.listed_titles_normalized@) == listed
                        &&& c.titles_hash_sha256@ == hash
                        &&& c.redirect_map@ == if changed {
                            Seq::empty()
                        } else {
                            previous.redirect_map@
                        }
                        &&& views(c.watched_titles_normalized@) == if changed
                            || previous.watched_titles_normalized@.len() == 0 {
                            listed
                        } else {
                            views(previous.watched_titles_normalized@)
                        }
                    },
                }
            }),
    {
        let parsed = parse_source_list(content.content.as_str());
        if parsed.titles.len() == 0 {
            return Err(CacheError::NoValidTitles);
        }
        let hash = compute_hash(&parsed.titles);
        let changed = !str_eq(previous.titles_hash_sha256.as_str(), hash.as_str());
        let redirect_map = if changed {
            Vec::new()
        } else {
            copy_pairs(&previous.redirect_map)
        };
        let watched = if changed || previous.watched_titles_normalized.len() == 0 {
            copy_strings(&parsed.titles)
        } else {
            copy_strings(&previous.watched_titles_normalized)
        };
        Ok(
            SuppressionListCache {
                source_title: previous.source_title.clone(),
                source_pageid: content.metadata.pageid,
                source_lastrevid: content.metadata.lastrevid,
                source_last_timestamp: content.metadata.timestamp,
                fetched_at: now,
                listed_titles_normalized: parsed.titles,
                watched_titles_normalized: watched,
                redirect_map,
                titles_hash_sha256: hash,
            },
        )
    }

    /// The cache with the redirects found: every listed title, redirect
    /// source and redirect target is watched (sorted, each once).
    pub fn with_redirects(&self, discovered: Vec<(String, String)>) -> (r: Self)
        ensures
            strictly_ascending(views(r.watched_titles_normalized@)),
            same_texts(
                views(r.watched_titles_normalized@),
                views(self.listed_titles_normalized@) + pair_texts(discovered@),
            ),
            r.redirect_map@ == discovered@,
            r.source_title == self.source_title,
            r.source_pageid == self.source_pageid,
            r.source_lastrevid == self.source_lastrevid,
            r.source_last_timestamp == self.source_last_timestamp,
            r.fetched_at == self.fetched_at,
            r.listed_titles_normalized@ == self.listed_titles_normalized@,
            r.titles_hash_sha256 == self.titles_hash_sha256,
    {
        let mut all = copy_strings(&self.listed_titles_normalized);
        let ghost listed = views(self.listed_titles_normalized@);
        let mut i: usize = 0;
        assert(views(all@) =~= listed + pair_texts(discovered@.take(0)));
        while i < discovered.len()
            invariant
                i <= discovered.len(),
                listed == views(self.listed_titles_normalized@),
                views(all@) == listed + pair_texts(discovered@.take(i as int)),
            decreases discovered.len() - i,
        {
            let ghost before = views(all@);
            all.push(discovered[i].0.clone());
            all.push(discovered[i].1.clone());
            proof {
                let t = discovered@.take(i + 1);
                assert(t.drop_last() =~= discovered@.take(i as int));
                assert(t.last() == discovered@[i as int]);
                assert(pair_texts(t) == pair_texts(t.drop_last()) + seq![t.last().0@, t.last().1@]);
                assert(views(all@) =~= before.push(discovered@[i as int].0@).push(discovered@[i as int].1@));
                assert(views(all@) =~= listed + pair_texts(discovered@.take(i + 1)));
            }
            i = i + 1;
        }
        assert(discovered@.take(discovered.len() as int) =~= discovered@);
        let watched = sorted_distinct(&all);
        SuppressionListCache {
            source_title: self.source_title.clone(),
            source_pageid: self.source_pageid,
            source_lastrevid: self.source_lastrevid,
            source_last_timestamp: self.source_last_timestamp,
            fetched_at: self.fetched_at,
            listed_titles_normalized: copy_strings(&self.listed_titles_normalized),
            watched_titles_normalized: watched,
            redirect_map: discovered,
            titles_hash_sha256: self.titles_hash_sha256.clone(),
        }
    }

    /// The watched titles that `newer` adds and removes, each sorted.
    pub fn watched_title_diff(&self, newer: &Self) -> (r: WatchedTitleDiff)
        ensures
            strictly_ascending(views(r.added@)),
            strictly_ascending(views(r.removed@)),
            forall|x: Seq<char>|
                views(r.added@).contains(x) <==> (views(newer.watched_titles_normalized@).contains(x)
                    && !views(self.watched_titles_normalized@).contains(x)),
            forall|x: Seq<char>|
                views(r.removed@).contains(x) <==> (views(self.watched_titles_normalized@).contains(x)
                    && !views(newer.watched_titles_normalized@).contains(x)),
    {
        let old_sorted = sorted_distinct(&self.watched_titles_normalized);
        let new_sorted = sorted_distinct(&newer.watched_titles_normalized);
        let added = ascending_difference(&new_sorted, &old_sorted);
        let removed = ascending_difference(&old_sorted, &new_sorted);
        WatchedTitleDiff { added, removed }
    }
}

/// The texts of `a` that `b` lacks, in the order of `a`.
fn ascending_difference(a: &Vec<String>, b: &Vec<String>) -> (r: Vec<String>)
    requires
        strictly_ascending(views(a@)),
    ensures
        strictly_ascending(views(r@)),
        forall|x: Seq<char>|
            views(r@).contains(x) <==> (views(a@).contains(x) && !views(b@).contains(x)),
{
    let ghost va = views(a@);
    let ghost vb = views(b@);
    let mut out: Vec<String> = Vec::new();
    let mut i: usize = 0;
    while i < a.len()
        invariant
            i <= a.len(),
            va == views(a@),
            vb == views(b@),
            strictly_ascending(va),
            strictly_ascending(views(out@)),
            forall|x: Seq<char>|
                #[trigger] views(out@).contains(x) ==> va.take(i as int).contains(x) && !vb.contains(x),
            forall|x: Seq<char>|
                #[trigger] va.take(i as int).contains(x) && !vb.contains(x) ==> views(out@).contains(x),
        decreases a.len() - i,
    {
        let ghost tp = va.take(i as int);
        let ghost ai = va[i as int];
        let ghost before = views(out@);
        let present = crate::text::vec_has_str(b, a[i].as_str());
        proof {
            if crate::text::has_text(b@, a@[i as int]@) {
                let k = choose|k: int| 0 <= k < b@.len() && b@[k]@ == a@[i as int]@;
                assert(vb[k] == ai);
            }
            if vb.contains(ai) {
                let k = choose|k: int| 0 <= k < vb.len() && vb[k] == ai;
                assert(b@[k]@ == a@[i as int]@);
            }
            assert(present == vb.contains(ai));
            assert(va.take(i + 1) =~= tp.push(ai));
            if tp.contains(ai) {
                let q = choose|q: int| 0 <= q < tp.len() && tp[q] == ai;
                assert(crate::order::text_lt(va[q], ai));
                crate::order::lemma_text_lt_irreflexive(ai);
            }
        }
        if !present {
            out.push(a[i].clone());
            proof {
                assert(views(out@) =~= before.push(ai));
                assert forall|p: int, q: int| 0 <= p < q < views(out@).len() implies crate::order::text_lt(
                    views(out@)[p],
                    views(out@)[q],
                ) by {
                    if q == before.len() {
                        assert(before.contains(before[p]));
                        assert(tp.contains(before[p]));
                        let k = choose|k: int| 0 <= k < tp.len() && tp[k] == before[p];
                        assert(tp[k] == va[k]);
                        assert(crate::order::text_lt(va[k], va[i as int]));
                        assert(views(out@)[q] == ai);
                        assert(views(out@)[p] == before[p]);
                    } else {
                        assert(views(out@)[p] == before[p]);
                        assert(views(out@)[q] == before[q]);
                    }
                }
            }
        }
        proof {
            assert forall|x: Seq<char>| #[trigger] views(out@).contains(x) implies va.take(i + 1).contains(x)
                && !vb.contains(x) by {
                crate::catchup::lemma_push_contains(tp, ai, x);
                if !present {
                    crate::catchup::lemma_push_contains(before, ai, x);
                }
                if before.contains(x) {
                    assert(tp.contains(x));
                }
            }
            assert forall|x: Seq<char>| #[trigger] va.take(i + 1).contains(x) && !vb.contains(x) implies views(out@).contains(x) by {
                crate::catchup::lemma_push_contains(tp, ai, x);
                if !present {
                    crate::catchup::lemma_push_contains(before, ai, x);
                }
                if tp.contains(x) {
                    assert(before.contains(x));
                }
            }
        }
        i = i + 1;
    }
    assert(va.take(a.len() as int) =~= va);
    assert forall|x: Seq<char>| views(out@).contains(x) <==> (va.contains(x) && !vb.contains(x)) by {
        assert(va.take(i as int) == va);
        if views(out@).contains(x) {
        }
        if va.take(i as int).contains(x) && !vb.contains(x) {
        }
    }
    out
}

/// Whether the cached list must be refreshed: always when forced; when
/// automatic, if it has no revision yet or the page's revision or time
/// differs from the cached one.
pub open spec fn needs_refresh(current: SuppressionListCache, metadata: PageMetadata, mode: CacheRefreshMode) -> bool {
    match mode {
        CacheRefreshMode::Forced => true,
        CacheRefreshMode::Automatic => current.source_lastrevid is None || current.source_lastrevid
            != metadata.lastrevid || current.source_last_timestamp != metadata.timestamp,
    }
}

/// How a refresh was asked for.
#[derive(Clone, Copy, Debug, PartialEq, Eq)]
pub enum CacheRefreshMode {
    Automatic,
    Forced,
}

/// Whether a refreshed cache is written to disk.
#[derive(Clone, Copy, Debug, PartialEq, Eq)]
pub enum CachePersistence {
    Persist,
    Ephemeral,
}

impl CachePersistence {
    /// Whether the cache is written to disk.
    pub fn should_persist(self) -> (r: bool)
        ensures
            r == (self == CachePersistence::Persist),
    {
        match self {
            CachePersistence::Persist => true,
            CachePersistence::Ephemeral => false,
        }
    }
}

/// Whether the cached list must be refreshed for the page's metadata.
pub fn should_refresh(current: &SuppressionListCache, metadata: &PageMetadata, refresh_mode: CacheRefreshMode) -> (r: bool)
    ensures
        r == needs_refresh(*current, *metadata, refresh_mode),
{
    match refresh_mode {
        CacheRefreshMode::Forced => true,
        CacheRefreshMode::Automatic => current.source_lastrevid.is_none() || current.source_lastrevid
            != metadata.lastrevid || current.source_last_timestamp != metadata.timestamp,
    }
}

/// The cache as the runtime uses it, with the source title normalised.
#[derive(Clone, Debug)]
pub struct RuntimeCache {
    pub snapshot: SuppressionListCache,
    pub source_title_normalized: String,
}

impl RuntimeCache {
    /// The runtime cache of a snapshot.
    pub fn from_snapshot(snapshot: SuppressionListCache) -> (r: Self)
        ensures
            r.snapshot == snapshot,
            r.source_title_normalized@ == normalized_title(snapshot.source_title@),
    {
        let source_title_normalized = normalize_title(snapshot.source_title.as_str());
        RuntimeCache { snapshot, source_title_normalized }
    }

    /// Whether a (normalised) title is watched.
    pub fn is_watched(&self, title: &str) -> (r: bool)
        ensures
            r == views(self.snapshot.watched_titles_normalized@).contains(title@),
    {
        let found = crate::text::vec_has_str(&self.snapshot.watched_titles_normalized, title);
        proof {
            let v = views(self.snapshot.watched_titles_normalized@);
            if found {
                let k = choose|k: int| 0 <= k < self.snapshot.watched_titles_normalized@.len() && self.snapshot.watched_titles_normalized@[k]@ == title@;
                assert(v[k] == title@);
            }
            if v.contains(title@) {
                let k = choose|k: int| 0 <= k < v.len() && v[k] == title@;
                assert(self.snapshot.watched_titles_normalized@[k]@ == title@);
            }
        }
        found
    }

    /// The watched titles.
    pub fn watched_titles(&self) -> (r: &Vec<String>)
        ensures
            r@ == self.snapshot.watched_titles_normalized@,
    {
        &self.snapshot.watched_titles_normalized
    }
}

/// What started a source refresh.
#[derive(Clone, Copy, Debug, PartialEq, Eq)]
pub enum SourceRefreshTriggerKind {
    SuppressionList,
    RequestPage,
}

/// The catch-up a source refresh calls for.
#[derive(Clone, Debug, PartialEq, Eq)]
pub enum SourceRefreshFollowup {
    NoFollowup,
    TitleScoped { scope_label: &'static str, titles: Vec<String> },
    RecentWindow { scope_label: &'static str },
}

/// What a source refresh changed and what catch-up it calls for.
#[derive(Clone, Debug, PartialEq, Eq)]
pub struct SourceRefreshCatchupPlan {
    pub new_titles_count: usize,
    pub removed_titles_count: usize,
    pub redirects_reused: bool,
    pub followup: SourceRefreshFollowup,
}

impl SourceRefreshCatchupPlan {
    /// Whether a catch-up follows.
    pub fn catchup_requested(&self) -> (r: bool)
        ensures
            r == !(self.followup is NoFollowup),
    {
        match &self.followup {
            SourceRefreshFollowup::NoFollowup => false,
            _ => true,
        }
    }

    /// The scope label of the catch-up that follows.
    pub fn catchup_scope_label(&self) -> (r: Option<&'static str>)
        ensures
            match self.followup {
                SourceRefreshFollowup::NoFollowup => r is None,
                SourceRefreshFollowup::TitleScoped { scope_label, .. } => r == Some(scope_label),
                SourceRefreshFollowup::RecentWindow { scope_label } => r == Some(scope_label),
            },
    {
        match &self.followup {
            SourceRefreshFollowup::NoFollowup => None,
            SourceRefreshFollowup::TitleScoped { scope_label, .. } => Some(*scope_label),
            SourceRefreshFollowup::RecentWindow { scope_label } => Some(*scope_label),
        }
    }
}

/// A strictly ascending list holds as many texts as the set of its texts.
proof fn lemma_ascending_count(s: Seq<Seq<char>>, d: Set<Seq<char>>)
    requires
        strictly_ascending(s),
        forall|x: Seq<char>| s.contains(x) <==> d.contains(x),
    ensures
        s.len() == d.len(),
{
    assert forall|i: int, j: int| 0 <= i < s.len() && 0 <= j < s.len() && i != j implies s[i] != s[j] by {
        crate::order::lemma_text_lt_irreflexive(s[i]);
    }
    s.unique_seq_to_set();
    assert(s.to_set() =~= d);
}

/// The catch-up after a source refresh from `before` to `after`: the new
/// watched titles when there are any (labelled `new-titles-large` above
/// `scope_limit`), else a recent window when a request page changed, else
/// none.
pub fn plan_source_refresh_catchup(
    before: &SuppressionListCache,
    after: &SuppressionListCache,
    trigger_kind: SourceRefreshTriggerKind,
    scope_limit: usize,
) -> (r: SourceRefreshCatchupPlan)
    ensures
        strictly_ascending(views(
            match r.followup {
                SourceRefreshFollowup::TitleScoped { titles, .. } => titles@,
                _ => Seq::empty(),
            },
        )),
        forall|x: Seq<char>|
            #![trigger views(after.watched_titles_normalized@).contains(x)]
            (views(after.watched_titles_normalized@).contains(x) && !views(
                before.watched_titles_normalized@,
            ).contains(x)) ==> r.followup is TitleScoped,
        match r.followup {
            SourceRefreshFollowup::TitleScoped { scope_label, titles } => {
                &&& titles@.len() > 0
                &&& titles@.len() == r.new_titles_count
                &&& scope_label@ == if titles@.len() > scope_limit {
                    "new-titles-large"@
                } else {
                    "new-titles"@
                }
                &&& forall|x: Seq<char>|
                    views(titles@).contains(x) <==> (views(after.watched_titles_normalized@).contains(x)
                        && !views(before.watched_titles_normalized@).contains(x))
            },
            SourceRefreshFollowup::RecentWindow { scope_label } => {
                &&& r.new_titles_count == 0
                &&& trigger_kind == SourceRefreshTriggerKind::RequestPage
                &&& scope_label@ == "request-window"@
            },
            SourceRefreshFollowup::NoFollowup => {
                &&& r.new_titles_count == 0
                &&& trigger_kind == SourceRefreshTriggerKind::SuppressionList
            },
        },
        r.redirects_reused == (before.titles_hash_sha256@ == after.titles_hash_sha256@),
        r.new_titles_count == views(after.watched_titles_normalized@).to_set().difference(
            views(before.watched_titles_normalized@).to_set(),
        ).len(),
        r.removed_titles_count == views(before.watched_titles_normalized@).to_set().difference(
            views(after.watched_titles_normalized@).to_set(),
        ).len(),
        forall|x: Seq<char>|
            #![trigger views(before.watched_titles_normalized@).contains(x)]
            (views(before.watched_titles_normalized@).contains(x) && !views(
                after.watched_titles_normalized@,
            ).contains(x)) ==> r.removed_titles_count > 0,
{
    let diff = before.watched_title_diff(after);
    let new_count = diff.added.len();
    let removed_count = diff.removed.len();
    let followup = if diff.added.len() > 0 {
        let label: &'static str = if diff.added.len() > scope_limit {
            "new-titles-large"
        } else {
            "new-titles"
        };
        SourceRefreshFollowup::TitleScoped { scope_label: label, titles: diff.added }
    } else {
        match trigger_kind {
            SourceRefreshTriggerKind::RequestPage => SourceRefreshFollowup::RecentWindow {
                scope_label: "request-window",
            },
            SourceRefreshTriggerKind::SuppressionList => SourceRefreshFollowup::NoFollowup,
        }
    };
    proof {
        assert forall|x: Seq<char>|
            (views(before.watched_titles_normalized@).contains(x) && !views(
                after.watched_titles_normalized@,
            ).contains(x)) implies removed_count > 0 by {
            assert(views(diff.removed@).contains(x));
        }
        assert forall|x: Seq<char>|
            (views(after.watched_titles_normalized@).contains(x) && !views(
                before.watched_titles_normalized@,
            ).contains(x)) implies new_count > 0 by {
            assert(views(diff.added@).contains(x));
        }
        lemma_ascending_count(
            views(diff.added@),
            views(after.watched_titles_normalized@).to_set().difference(
                views(before.watched_titles_normalized@).to_set(),
            ),
        );
        lemma_ascending_count(
            views(diff.removed@),
            views(before.watched_titles_normalized@).to_set().difference(
                views(after.watched_titles_normalized@).to_set(),
            ),
        );
    }
    SourceRefreshCatchupPlan {
        new_titles_count: new_count,
        removed_titles_count: removed_count,
        redirects_reused: str_eq(before.titles_hash_sha256.as_str(), after.titles_hash_sha256.as_str()),
        followup,
    }
}

/// A redirect found for `title`: the resolved target, normalised, unless it
/// is the title itself.
pub fn redirect_target_from(title: &str, resolved: Option<String>) -> (r: Option<String>)
    ensures
        match resolved {
            None => r is None,
            Some(t) => if normalized_title(t@) == title@ {
                r is None
            } else {
                opt_text(r) == Some(normalized_title(t@))
            },
        },
{
    match resolved {
        None => None,
        Some(t) => {
            let target = normalize_title(t.as_str());
            if str_eq(target.as_str(), title) {
                None
            } else {
                Some(target)
            }
        },
    }
}

} // verus!
