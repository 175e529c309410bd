use suppressor::cache::{
    compute_hash, plan_source_refresh_catchup, redirect_target_from, should_refresh,
    CachePersistence, CacheRefreshMode, PageContent, PageMetadata, RuntimeCache,
    SourceRefreshFollowup, SourceRefreshTriggerKind, SuppressionListCache,
};

fn snapshot(listed: &[&str], watched: &[&str], hash: &str) -> SuppressionListCache {
    SuppressionListCache {
        source_title: "Удзельнік:Wizardist/SuppressionList".to_string(),
        source_pageid: Some(1),
        source_lastrevid: Some(2),
        source_last_timestamp: None,
        fetched_at: 1_777_000_000,
        listed_titles_normalized: listed.iter().map(|t| t.to_string()).collect(),
        watched_titles_normalized: watched.iter().map(|t| t.to_string()).collect(),
        redirect_map: Vec::new(),
        titles_hash_sha256: hash.to_string(),
    }
}

#[test]
fn runtime_cache_builds_watched_set() {
    let cache = RuntimeCache::from_snapshot(snapshot(&["Foo"], &["Foo", "Bar"], "abc"));
    assert!(cache.is_watched("Foo"));
    assert!(cache.is_watched("Bar"));
    assert!(!cache.is_watched("Baz"));
    assert_eq!(
        cache.source_title_normalized,
        "Удзельнік:Wizardist/SuppressionList"
    );
}

#[test]
fn snapshot_resets_redirect_state_when_list_changes() {
    let mut previous = snapshot(&["Foo"], &["Foo", "Foo Redirect"], "old");
    previous.redirect_map = vec![("Foo".to_string(), "Foo Redirect".to_string())];
    let content = PageContent {
        metadata: PageMetadata {
            pageid: Some(1),
            lastrevid: Some(3),
            timestamp: None,
        },
        content: "Bar\n".to_string(),
    };

    let next = SuppressionListCache::from_source_content(&previous, content, 1_777_000_100).unwrap();

    assert_eq!(next.listed_titles_normalized, vec!["Bar"]);
    assert_eq!(next.watched_titles_normalized, vec!["Bar"]);
    assert!(next.redirect_map.is_empty());
    assert_eq!(next.source_lastrevid, Some(3));
    assert_eq!(next.fetched_at, 1_777_000_100);
}

#[test]
fn snapshot_preserves_redirect_state_when_list_is_unchanged() {
    let hash = compute_hash(&vec!["Foo".to_string()]);
    let mut previous = snapshot(&["Foo"], &["Foo", "Foo Redirect"], &hash);
    previous.redirect_map = vec![("Foo".to_string(), "Foo Redirect".to_string())];
    let content = PageContent {
        metadata: PageMetadata {
            pageid: Some(1),
            lastrevid: Some(3),
            timestamp: None,
        },
        content: "Foo\n".to_string(),
    };

    let next = SuppressionListCache::from_source_content(&previous, content, 1_777_000_100).unwrap();

    assert_eq!(next.listed_titles_normalized, vec!["Foo"]);
    assert_eq!(next.watched_titles_normalized, vec!["Foo", "Foo Redirect"]);
    assert_eq!(
        next.redirect_map,
        vec![("Foo".to_string(), "Foo Redirect".to_string())]
    );
}

#[test]
fn empty_source_page_is_refused() {
    let previous = SuppressionListCache::initial("List", 0);
    let content = PageContent {
        metadata: PageMetadata::default(),
        content: "\n<!-- only a comment -->\n".to_string(),
    };
    assert!(SuppressionListCache::from_source_content(&previous, content, 0).is_err());
}

#[test]
fn list_hash_is_sha256_of_newline_terminated_titles() {
    assert_eq!(
        compute_hash(&vec!["Foo".to_string()]),
        "3eae1599bb7f187b86d6427942d172ba8dd7ee5962aab03e0839ad9d59c37eb0"
    );
    assert_eq!(compute_hash(&vec![]).len(), 64);
    assert_eq!(
        compute_hash(&vec![]),
        "e3b0c44298fc1c149afbf4c8996fb92427ae41e4649b934ca495991b7852b855"
    );
    assert_ne!(
        compute_hash(&vec!["Foo".to_string()]),
        compute_hash(&vec!["Bar".to_string()])
    );
}

#[test]
fn applying_redirects_updates_watched_titles() {
    let base = snapshot(&["Foo"], &["Foo"], "abc");

    let updated = base.with_redirects(vec![("Foo".to_string(), "Foo Redirect".to_string())]);

    assert_eq!(
        updated.watched_titles_normalized,
        vec!["Foo".to_string(), "Foo Redirect".to_string()]
    );
    assert_eq!(
        updated.redirect_map,
        vec![("Foo".to_string(), "Foo Redirect".to_string())]
    );
}

#[test]
fn watched_title_diff_reports_added_and_removed_titles() {
    let previous = snapshot(&["Foo", "Old"], &["Foo", "Old"], "old");
    let mut newer = snapshot(&["Foo", "New"], &["Foo", "New", "New Redirect"], "new");
    newer.source_lastrevid = Some(9);

    let diff = previous.watched_title_diff(&newer);

    assert_eq!(diff.added, vec!["New".to_string(), "New Redirect".to_string()]);
    assert_eq!(diff.removed, vec!["Old".to_string()]);
}

#[test]
fn watched_title_diff_is_empty_for_unchanged_watched_set() {
    let same = snapshot(&["Foo"], &["Foo", "Foo Redirect"], "hash");

    let diff = same.watched_title_diff(&same);

    assert!(diff.added.is_empty());
    assert!(diff.removed.is_empty());
}

#[test]
fn automatic_refresh_runs_when_revid_changes() {
    let current = snapshot(&["Foo"], &["Foo"], "h");
    let metadata = PageMetadata {
        pageid: Some(1),
        lastrevid: Some(3),
        timestamp: None,
    };
    assert!(should_refresh(&current, &metadata, CacheRefreshMode::Automatic));
}

#[test]
fn automatic_refresh_runs_when_timestamp_changes() {
    let current = snapshot(&["Foo"], &["Foo"], "h");
    let metadata = PageMetadata {
        pageid: Some(1),
        lastrevid: Some(2),
        timestamp: Some(1_777_000_000),
    };
    assert!(should_refresh(&current, &metadata, CacheRefreshMode::Automatic));
}

#[test]
fn automatic_refresh_skips_when_metadata_matches() {
    let current = snapshot(&["Foo"], &["Foo"], "h");
    let metadata = PageMetadata {
        pageid: Some(1),
        lastrevid: Some(2),
        timestamp: None,
    };
    assert!(!should_refresh(&current, &metadata, CacheRefreshMode::Automatic));
    assert!(should_refresh(&current, &metadata, CacheRefreshMode::Forced));
    assert!(CachePersistence::Persist.should_persist());
    assert!(!CachePersistence::Ephemeral.should_persist());
}

#[test]
fn request_page_refresh_uses_new_titles_when_refresh_adds_pages() {
    let before = snapshot(&["Foo"], &["Foo"], "old");
    let after = snapshot(&["Foo", "Bar"], &["Bar", "Foo"], "new");
    let plan =
        plan_source_refresh_catchup(&before, &after, SourceRefreshTriggerKind::RequestPage, 250);
    assert_eq!(plan.new_titles_count, 1);
    assert_eq!(plan.removed_titles_count, 0);
    assert!(!plan.redirects_reused);
    assert!(plan.catchup_requested());
    assert_eq!(plan.catchup_scope_label(), Some("new-titles"));
    assert_eq!(
        plan.followup,
        SourceRefreshFollowup::TitleScoped {
            scope_label: "new-titles",
            titles: vec!["Bar".to_string()]
        }
    );
    let large = plan_source_refresh_catchup(&before, &after, SourceRefreshTriggerKind::RequestPage, 0);
    assert_eq!(large.catchup_scope_label(), Some("new-titles-large"));
}

#[test]
fn request_page_refresh_uses_recent_window_when_titles_are_unchanged() {
    let before = snapshot(&["Foo"], &["Foo"], "same");
    let plan =
        plan_source_refresh_catchup(&before, &before, SourceRefreshTriggerKind::RequestPage, 250);
    assert!(plan.redirects_reused);
    assert_eq!(plan.catchup_scope_label(), Some("request-window"));
}

#[test]
fn suppression_list_refresh_prefers_new_titles_followup() {
    let before = snapshot(&["Foo"], &["Foo"], "same");
    let plan = plan_source_refresh_catchup(
        &before,
        &before,
        SourceRefreshTriggerKind::SuppressionList,
        250,
    );
    assert!(!plan.catchup_requested());
    assert_eq!(plan.catchup_scope_label(), None);
    let after = snapshot(&["Foo", "Zed"], &["Foo", "Zed"], "new");
    let plan =
        plan_source_refresh_catchup(&before, &after, SourceRefreshTriggerKind::SuppressionList, 250);
    assert_eq!(plan.catchup_scope_label(), Some("new-titles"));
}

#[test]
fn redirect_targets_are_normalized_and_never_the_title_itself() {
    assert_eq!(
        redirect_target_from("Foo", Some("Foo_Redirect".to_string())),
        Some("Foo Redirect".to_string())
    );
    assert_eq!(redirect_target_from("Foo", Some(" Foo ".to_string())), None);
    assert_eq!(redirect_target_from("Foo", None), None);
}
