//! Events of the recent-changes stream and the work they give rise to.

use vstd::prelude::*;

use crate::text::{copy_opt_string, copy_string, opt_is, opt_str_is, owned};
use crate::time::{utc_timestamp_is_valid, utc_timestamp_valid};
use crate::titles::{normalize_title, normalized_title};

verus! {

/// One event of the recent-changes stream; every field may be absent.
#[derive(Clone, Debug)]
pub struct RecentChangeEvent {
    pub meta: Option<Meta>,
    pub wiki: Option<String>,
    pub server_name: Option<String>,
    pub change_type: Option<String>,
    pub title: Option<String>,
    pub user: Option<String>,
    pub comment: Option<String>,
    /// Seconds since the Unix epoch.
    pub timestamp: Option<i64>,
    pub revision: Option<RevisionPayload>,
}

/// Stream metadata of an event.
#[derive(Clone, Debug)]
pub struct Meta {
    pub id: Option<String>,
    pub domain: Option<String>,
}

/// The revision ids before and after an edit.
#[derive(Clone, Debug)]
pub struct RevisionPayload {
    pub old: Option<u64>,
    pub new: Option<u64>,
}

/// A revision that live hiding may have to act on.
#[derive(Clone, Debug, PartialEq, Eq)]
pub struct LiveRevisionCandidate {
    pub title: String,
    pub normalized_title: String,
    pub revid: u64,
    pub old_revid: Option<u64>,
    pub user: Option<String>,
    pub comment: Option<String>,
    pub event_id: Option<String>,
}

/// A change to a page that may require refreshing cached sources.
#[derive(Clone, Debug, PartialEq, Eq)]
pub struct PageChangeTrigger {
    pub title: String,
    pub normalized_title: String,
    pub trigger_revid: Option<u64>,
}

/// The characters of an optional string.
pub open spec fn opt_view(o: Option<String>) -> Option<Seq<char>> {
    match o {
        Some(s) => Some(s@),
        None => None,
    }
}

impl RecentChangeEvent {
    /// The event id: the stream's own id when one was given, else `meta.id`.
    pub open spec fn spec_event_id(&self, sse_id: Option<Seq<char>>) -> Option<Seq<char>> {
        match sse_id {
            Some(id) => Some(id),
            None => match self.meta {
                Some(m) => opt_view(m.id),
                None => None,
            },
        }
    }

    /// The new revision id, when the event carries one.
    pub open spec fn spec_trigger_revid(&self) -> Option<u64> {
        match self.revision {
            Some(r) => r.new,
            None => None,
        }
    }

    /// The id of this event.
    pub fn event_id(&self, sse_id: Option<&str>) -> (r: Option<String>)
        ensures
            opt_view(r) == self.spec_event_id(
                match sse_id {
                    Some(s) => Some(s@),
                    None => None,
                },
            ),
    {
        match sse_id {
            Some(s) => Some(owned(s)),
            None => match &self.meta {
                Some(m) => copy_opt_string(&m.id),
                None => None,
            },
        }
    }

    /// Whether the event is a canary from the stream operators.
    pub fn is_canary(&self) -> (r: bool)
        ensures
            r == (self.meta matches Some(m) && opt_is(m.domain, "canary"@)),
    {
        match &self.meta {
            Some(m) => opt_str_is(&m.domain, "canary"),
            None => false,
        }
    }

    /// Whether the event belongs to the wiki with this code or server name.
    pub fn matches_wiki(&self, wiki_code: &str, server_name: &str) -> (r: bool)
        ensures
            r == (opt_is(self.wiki, wiki_code@) || opt_is(self.server_name, server_name@)),
    {
        opt_str_is(&self.wiki, wiki_code) || opt_str_is(&self.server_name, server_name)
    }

    /// Whether the event records a new revision (an edit or a page creation).
    pub fn is_revision_event(&self) -> (r: bool)
        ensures
            r == (opt_is(self.change_type, "edit"@) || opt_is(self.change_type, "new"@)),
    {
        opt_str_is(&self.change_type, "edit") || opt_str_is(&self.change_type, "new")
    }

    /// The time of the event, when it carries one that is a valid instant.
    pub fn observed_at(&self) -> (r: Option<i64>)
        ensures
            r == (match self.timestamp {
                Some(t) => if utc_timestamp_valid(t) {
                    Some(t)
                } else {
                    None
                },
                None => None,
            }),
    {
        match self.timestamp {
            Some(t) => if utc_timestamp_is_valid(t) {
                Some(t)
            } else {
                None
            },
            None => None,
        }
    }

    /// The canonical form of the event's title.
    pub fn normalized_title(&self) -> (r: Option<String>)
        ensures
            opt_view(r) == (match self.title {
                Some(t) => Some(normalized_title(t@)),
                None => None,
            }),
    {
        match &self.title {
            Some(t) => Some(normalize_title(t.as_str())),
            None => None,
        }
    }

    /// The new revision id, when the event carries one.
    pub fn trigger_revid(&self) -> (r: Option<u64>)
        ensures
            r == self.spec_trigger_revid(),
    {
        match &self.revision {
            Some(rev) => rev.new,
            None => None,
        }
    }

    /// The page change this event reports, when it names a page.
    pub fn to_page_change_trigger(&self) -> (r: Option<PageChangeTrigger>)
        ensures
            r is Some <==> self.title is Some,
            r matches Some(p) ==> p.title@ == self.title->0@ && p.normalized_title@
                == normalized_title(self.title->0@) && p.trigger_revid
                == self.spec_trigger_revid(),
    {
        match &self.title {
            None => None,
            Some(t) => Some(
                PageChangeTrigger {
                    normalized_title: normalize_title(t.as_str()),
                    title: copy_string(t),
                    trigger_revid: self.trigger_revid(),
                },
            ),
        }
    }

    /// The revision to consider for hiding, when the event carries both a new
    /// revision id and a title.
    pub fn to_candidate(&self, sse_id: Option<&str>) -> (r: Option<LiveRevisionCandidate>)
        ensures
            r is Some <==> (self.spec_trigger_revid() is Some && self.title is Some),
            r matches Some(c) ==> {
                &&& c.title@ == self.title->0@
                &&& c.normalized_title@ == normalized_title(self.title->0@)
                &&& c.revid == self.spec_trigger_revid()->0
                &&& c.old_revid == (match self.revision {
                    Some(rev) => rev.old,
                    None => None,
                })
                &&& c.user == self.user
                &&& c.comment == self.comment
                &&& opt_view(c.event_id) == self.spec_event_id(
                    match sse_id {
                        Some(s) => Some(s@),
                        None => None,
                    },
                )
            },
    {
        let revid = match self.trigger_revid() {
            Some(r) => r,
            None => return None,
        };
        let title = match &self.title {
            Some(t) => t,
            None => return None,
        };
        Some(
            LiveRevisionCandidate {
                normalized_title: normalize_title(title.as_str()),
                title: copy_string(title),
                revid,
                old_revid: match &self.revision {
                    Some(rev) => rev.old,
                    None => None,
                },
                user: copy_opt_string(&self.user),
                comment: copy_opt_string(&self.comment),
                event_id: self.event_id(sse_id),
            },
        )
    }
}

} // verus!
