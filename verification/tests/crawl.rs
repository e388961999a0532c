use intel_crawl::args::Args;
use intel_crawl::balance::{SourceBalancePolicy, SourceRunStats};
use intel_crawl::crawl_loop::events::append_source_events;
use intel_crawl::crawl_loop::source::record::{
    record_source_failure, record_source_items, record_source_not_modified,
};
use intel_crawl::crawl_loop::source::skip::{
    cadence_interval_ms, next_due_at, should_skip_source_for_backoff,
    should_skip_source_for_cadence,
};
use intel_crawl::crawl_loop::source::{record_fetch_outcome, FetchOutcome};
use intel_crawl::crawl_loop::{CrawlBuffers, CrawlSummary};
use intel_crawl::crawl_output::diagnostics::push_optional_object;
use intel_crawl::crawl_output::manifest::{manifest_status, publish_failure_message};
use intel_crawl::crawl_output::publish::{publish_outcome, record_publish_result, PublishTally};
use intel_crawl::dedup::DedupStore;
use intel_crawl::event::{
    build_raw_intel_event, build_raw_intel_event_created_pointer, RawIntelEvent,
    RawIntelEventStorageRef,
};
use intel_crawl::fetch::{apply_cache_headers, metadata_from_headers, CacheHeaders};
use intel_crawl::item::FeedItem;
use intel_crawl::registry::{AppliesToAssets, Source};

fn source(category: &str, adapter: Option<&str>) -> Source {
    Source {
        source_id: category.to_owned(),
        source_category: category.to_owned(),
        source_name: category.to_owned(),
        source_url: "https://example.com/rss.xml".to_owned(),
        fetch_method: if adapter.is_some() { "rest_api".to_owned() } else { "rss".to_owned() },
        adapter: adapter.map(str::to_owned),
        max_items_per_run: None,
        trust_tier: "T1".to_owned(),
        cadence_tier: "medium".to_owned(),
        language_hint: "en".to_owned(),
        enabled: true,
        source_state: None,
        activation_blocker: None,
        top50_relevance_mode: "symbol_alias_match".to_owned(),
        applies_to_assets: AppliesToAssets::All("all_major_50".to_owned()),
    }
}

fn event(source: &Source, url: &str, title: &str, body: &str) -> RawIntelEvent {
    let item = FeedItem {
        id: None,
        title: title.to_owned(),
        body: body.to_owned(),
        url: url.to_owned(),
        author: None,
        published_at: None,
        historical_source_depth: None,
        backfill_window_start_ms: None,
        backfill_window_end_ms: None,
        source_time_range_verified: None,
    };
    build_raw_intel_event(source, &item, &[], 1)
}

fn policy(derivatives_run: usize) -> SourceBalancePolicy {
    SourceBalancePolicy {
        derivatives_max_events_per_run: derivatives_run,
        derivatives_max_events_per_source: 6,
        community_max_events_per_run: 30,
        community_max_events_per_source: 5,
    }
}

fn args(values: &[&str]) -> Args {
    let mut argv = vec!["app".to_owned()];
    argv.extend(values.iter().map(|v| v.to_string()));
    Args::parse(argv).unwrap()
}

#[test]
fn appends_new_events_and_skips_duplicates() {
    let news = source("news", None);
    let a = event(&news, "https://example.com/a", "First", "one");
    let b = event(&news, "https://example.com/b", "Second", "two");
    let events = vec![a.clone(), b.clone(), a.clone()];
    let mut store = DedupStore::new();
    let mut summary = CrawlSummary::new(1, false, false);
    let mut stats = SourceRunStats::new();
    let outcome = {
        let mut buffers = CrawlBuffers::new(&mut store);
        let outcome = append_source_events(
            &args(&[]),
            policy(12),
            &news,
            events,
            &mut stats,
            &mut buffers,
            &mut summary,
        );
        assert_eq!(buffers.raw_events.len(), 2);
        assert_eq!(buffers.raw_events[0].event_id, a.event_id);
        assert_eq!(buffers.raw_events[0].dedup_decision, "new");
        assert_eq!(buffers.raw_events[1].event_id, b.event_id);
        outcome
    };
    assert_eq!(outcome.events_written, 2);
    assert_eq!(outcome.duplicates_skipped, 1);
    assert_eq!(summary.events_skipped_duplicate, 1);
    assert_eq!(stats.candidates_after_dedup, 2);
    assert_eq!(stats.events_emitted, 2);
    assert_eq!(stats.duplicates_skipped, 1);
    assert!(store.len() >= 2);
}

#[test]
fn repeated_run_writes_nothing_again() {
    let news = source("news", None);
    let events = vec![
        event(&news, "https://example.com/a", "First", "one"),
        event(&news, "https://example.com/b", "Second", "two"),
    ];
    let mut store = DedupStore::new();
    let mut summary = CrawlSummary::new(1, false, false);
    for expected in [2usize, 0usize] {
        let mut stats = SourceRunStats::new();
        let mut buffers = CrawlBuffers::new(&mut store);
        let outcome = append_source_events(
            &args(&[]),
            policy(12),
            &news,
            events.clone(),
            &mut stats,
            &mut buffers,
            &mut summary,
        );
        assert_eq!(outcome.events_written, expected);
        assert_eq!(buffers.raw_events.len(), expected);
    }
    assert_eq!(summary.events_skipped_duplicate, 2);
}

#[test]
fn dry_run_keeps_every_event_and_leaves_the_index() {
    let news = source("news", None);
    let a = event(&news, "https://example.com/a", "First", "one");
    let mut store = DedupStore::new();
    let mut summary = CrawlSummary::new(1, true, false);
    let mut stats = SourceRunStats::new();
    let mut buffers = CrawlBuffers::new(&mut store);
    let outcome = append_source_events(
        &args(&["--dry-run"]),
        policy(12),
        &news,
        vec![a.clone(), a.clone()],
        &mut stats,
        &mut buffers,
        &mut summary,
    );
    assert_eq!(outcome.events_written, 0);
    assert_eq!(outcome.duplicates_skipped, 0);
    assert_eq!(buffers.raw_events.len(), 2);
    assert_eq!(stats.events_emitted, 2);
    drop(buffers);
    assert_eq!(store.len(), 0);
}

#[test]
fn derivatives_events_beyond_the_run_cap_are_suppressed() {
    let funding = source("funding", Some("binance_usdm_open_interest"));
    let events: Vec<RawIntelEvent> = (0..4)
        .map(|i| event(&funding, &format!("https://example.com/{i}"), &format!("T{i}"), &format!("B{i}")))
        .collect();
    let mut store = DedupStore::new();
    let mut summary = CrawlSummary::new(1, false, false);
    let mut stats = SourceRunStats::new();
    let mut buffers = CrawlBuffers::new(&mut store);
    let outcome = append_source_events(
        &args(&[]),
        policy(3),
        &funding,
        events,
        &mut stats,
        &mut buffers,
        &mut summary,
    );
    assert_eq!(outcome.events_written, 3);
    assert_eq!(buffers.raw_events.len(), 3);
    assert_eq!(buffers.balance_tracker.derivatives_emitted, 3);
    assert_eq!(summary.events_suppressed_by_balance, 1);
    assert_eq!(stats.suppressed_by_balance, 1);
    assert_eq!(
        stats.suppression_reasons.get("derivatives_snapshot_run_cap"),
        Some(&1)
    );
}

#[test]
fn records_items_not_modified_and_failures() {
    let news = source("news", None);
    let run = args(&["--schedule-interval-ms", "60"]);
    let mut store = DedupStore::new();
    let mut summary = CrawlSummary::new(3, false, false);
    let mut buffers = CrawlBuffers::new(&mut store);
    let mut stats = SourceRunStats::new();
    let events = vec![event(&news, "https://example.com/a", "First", "one")];
    record_source_items(&run, policy(12), &news, 10, 30, events, &mut stats, &mut buffers, &mut summary);
    assert_eq!(summary.sources_ok, 1);
    assert_eq!(summary.items_seen, 1);
    assert_eq!(summary.source_health_written, 1);
    assert_eq!(buffers.health_records[0].fetch_status, "ok");
    assert_eq!(buffers.health_records[0].items_emitted, 1);
    assert_eq!(buffers.balance_records[0].events_emitted, 1);
    assert_eq!(buffers.balance_records[0].items_seen, 1);

    record_source_not_modified(&run, policy(12), &news, 40, 41, &mut buffers, &mut summary);
    assert_eq!(summary.sources_ok, 2);
    assert_eq!(buffers.health_records[1].fetch_status, "not_modified");
    assert_eq!(buffers.balance_records[1].items_seen, 0);

    record_source_failure(
        &run,
        policy(12),
        &news,
        50,
        100,
        "returned HTTP 429".to_owned(),
        SourceRunStats::new(),
        &mut buffers,
        &mut summary,
    );
    assert_eq!(summary.sources_failed, 1);
    assert_eq!(summary.source_heal_written, 1);
    assert_eq!(summary.source_health_written, 3);
    assert_eq!(summary.failures[0].source_id, "news");
    assert_eq!(summary.failures[0].error, "returned HTTP 429");
    assert_eq!(buffers.health_records[2].fetch_status, "failed");
    assert_eq!(buffers.heal_records[0].failure_type, "rate_limited");
    assert_eq!(buffers.heal_records[0].next_retry_at_ms, Some(160));
}

#[test]
fn dry_runs_write_no_health_objects() {
    let news = source("news", None);
    let run = args(&["--dry-run"]);
    let mut store = DedupStore::new();
    let mut summary = CrawlSummary::new(1, true, false);
    let mut buffers = CrawlBuffers::new(&mut store);
    record_source_not_modified(&run, policy(12), &news, 1, 2, &mut buffers, &mut summary);
    assert_eq!(summary.sources_ok, 1);
    assert_eq!(summary.source_health_written, 0);
    assert_eq!(buffers.health_records.len(), 1);
}

#[test]
fn skips_sources_backing_off_or_not_due() {
    let news = source("news", None);
    let run = args(&[]);
    let mut store = DedupStore::new();
    let mut summary = CrawlSummary::new(2, false, false);
    let mut buffers = CrawlBuffers::new(&mut store);
    assert!(!should_skip_source_for_backoff(&run, policy(12), &news, 1, 2, false, None, &mut buffers, &mut summary));
    assert_eq!(buffers.health_records.len(), 0);
    assert!(should_skip_source_for_backoff(&run, policy(12), &news, 1, 2, true, Some(500), &mut buffers, &mut summary));
    assert_eq!(buffers.health_records[0].fetch_status, "skipped_backoff");
    assert_eq!(buffers.health_records[0].error.as_deref(), Some("backoff_until_ms=500"));

    assert!(should_skip_source_for_cadence(&run, policy(12), &news, 100, 101, Some(50), 1000, &mut buffers, &mut summary));
    assert_eq!(buffers.health_records[1].fetch_status, "skipped_cadence");
    assert_eq!(buffers.health_records[1].error.as_deref(), Some("next_due_at_ms=1050"));
    assert!(!should_skip_source_for_cadence(&run, policy(12), &news, 2000, 2001, Some(50), 1000, &mut buffers, &mut summary));
    assert!(!should_skip_source_for_cadence(&run, policy(12), &news, 100, 101, None, 1000, &mut buffers, &mut summary));
    let pinned = args(&["--source-id", "news"]);
    assert!(!should_skip_source_for_cadence(&pinned, policy(12), &news, 100, 101, Some(50), 1000, &mut buffers, &mut summary));
    assert_eq!(summary.sources_ok, 2);
    assert_eq!(buffers.balance_records.len(), 2);
    assert_eq!(next_due_at(i64::MAX - 1, 10), i64::MAX);
}

#[test]
fn tallies_pointer_publishing() {
    let news = source("news", None);
    let e = event(&news, "https://example.com/a", "First", "one");
    let storage = RawIntelEventStorageRef::aws_s3_jsonl_record(
        "b".to_owned(),
        "k".to_owned(),
        1,
        0,
        10,
        "sha256:x".to_owned(),
    );
    let mut summary = CrawlSummary::new(1, false, true);
    let mut tally = PublishTally::new();
    let p1 = build_raw_intel_event_created_pointer(&e, storage.clone(), 5);
    record_publish_result(&mut tally, &mut summary, p1, Ok(()), true);
    let p2 = build_raw_intel_event_created_pointer(&e, storage.clone(), 6);
    record_publish_result(&mut tally, &mut summary, p2, Err("nats down".to_owned()), true);
    let p3 = build_raw_intel_event_created_pointer(&e, storage, 7);
    record_publish_result(&mut tally, &mut summary, p3, Err("later".to_owned()), true);
    assert_eq!(summary.events_published, 1);
    assert_eq!(summary.pointer_publish_pending, 2);
    assert_eq!(tally.published.len(), 1);
    assert_eq!(tally.pending.len(), 2);
    assert_eq!(tally.first_error.as_deref(), Some("nats down"));
    assert_eq!(manifest_status(&tally.first_error), "publish_failed");
    assert_eq!(manifest_status(&None), "success");
    assert_eq!(
        publish_failure_message("nats down"),
        "NATS publish failed after S3 upload: nats down"
    );
}

#[test]
fn disabled_publisher_counts_nothing() {
    let news = source("news", None);
    let e = event(&news, "https://example.com/a", "First", "one");
    let storage = RawIntelEventStorageRef::aws_s3_jsonl_record(
        "b".to_owned(),
        "k".to_owned(),
        1,
        0,
        10,
        "sha256:x".to_owned(),
    );
    let mut summary = CrawlSummary::new(1, false, false);
    let mut tally = PublishTally::new();
    let p = build_raw_intel_event_created_pointer(&e, storage, 5);
    record_publish_result(&mut tally, &mut summary, p, Err("x".to_owned()), false);
    assert_eq!(summary.pointer_publish_pending, 0);
    assert!(tally.pending.is_empty());
    assert_eq!(tally.first_error.as_deref(), Some("x"));
}

#[test]
fn collects_optional_objects() {
    let mut objects = vec![1, 2];
    push_optional_object(&mut objects, Some(3));
    push_optional_object(&mut objects, None);
    assert_eq!(objects, vec![1, 2, 3]);
}

#[test]
fn captures_cache_metadata() {
    let metadata = metadata_from_headers(
        200,
        Some("\"abc\"".to_owned()),
        Some("Wed, 21 Oct 2015 07:28:00 GMT".to_owned()),
    );

    assert_eq!(metadata.http_status, 200);
    assert_eq!(metadata.etag.as_deref(), Some("\"abc\""));
    assert_eq!(
        metadata.last_modified.as_deref(),
        Some("Wed, 21 Oct 2015 07:28:00 GMT")
    );
}

#[test]
fn blank_validators_are_dropped_and_sent_back_when_known() {
    let metadata = metadata_from_headers(304, Some("  ".to_owned()), None);
    assert_eq!(metadata.etag, None);
    assert_eq!(metadata.last_modified, None);
    let cache = CacheHeaders { etag: Some("e".to_owned()), last_modified: None };
    assert_eq!(apply_cache_headers(Some(&cache)), (Some("e".to_owned()), None));
    assert_eq!(apply_cache_headers(None), (None, None));
}

#[test]
fn fresh_summary_counts_nothing() {
    let summary = CrawlSummary::new(7, true, false);
    assert_eq!(summary.sources_selected, 7);
    assert!(summary.dry_run);
    assert!(!summary.nats_publish_enabled);
    assert_eq!(summary.sources_ok + summary.sources_failed + summary.items_seen, 0);
    assert!(summary.failures.is_empty());
    assert_eq!(summary.manifest_key, None);
}

#[test]
fn records_each_fetch_outcome() {
    let news = source("news", None);
    let run = args(&[]);
    let mut store = DedupStore::new();
    let mut summary = CrawlSummary::new(3, false, false);
    let mut buffers = CrawlBuffers::new(&mut store);
    let mut stats = SourceRunStats::new();
    let events = vec![event(&news, "https://example.com/a", "First", "one")];
    record_fetch_outcome(&run, policy(12), &news, 1, 2, FetchOutcome::Fetched(events), &mut stats, &mut buffers, &mut summary);
    let mut stats = SourceRunStats::new();
    record_fetch_outcome(&run, policy(12), &news, 3, 4, FetchOutcome::NotModified, &mut stats, &mut buffers, &mut summary);
    let mut stats = SourceRunStats::new();
    record_fetch_outcome(&run, policy(12), &news, 5, 6, FetchOutcome::Failed("timed out".to_owned()), &mut stats, &mut buffers, &mut summary);
    assert_eq!(summary.sources_ok, 2);
    assert_eq!(summary.sources_failed, 1);
    assert_eq!(buffers.raw_events.len(), 1);
    let statuses: Vec<&str> = buffers.health_records.iter().map(|r| r.fetch_status.as_str()).collect();
    assert_eq!(statuses, vec!["ok", "not_modified", "failed"]);
    assert_eq!(buffers.heal_records[0].failure_type, "timeout");
    assert_eq!(buffers.heal_records[0].next_retry_at_ms, None);
}

#[test]
fn cadence_tiers_follow_the_schedule() {
    let mut s = source("news", None);
    s.cadence_tier = "high".to_owned();
    assert_eq!(cadence_interval_ms(&s), Some(15 * 60 * 1000));
    s.cadence_tier = "medium".to_owned();
    assert_eq!(cadence_interval_ms(&s), Some(30 * 60 * 1000));
    s.cadence_tier = "low".to_owned();
    assert_eq!(cadence_interval_ms(&s), Some(6 * 60 * 60 * 1000));
    s.cadence_tier = "weekly".to_owned();
    assert_eq!(cadence_interval_ms(&s), None);
}

#[test]
fn stored_events_are_persisted_even_when_publishing_fails() {
    let news = source("news", None);
    let e = event(&news, "https://example.com/a", "First", "one");
    let storage = RawIntelEventStorageRef::aws_s3_jsonl_record(
        "b".to_owned(),
        "k".to_owned(),
        1,
        0,
        10,
        "sha256:x".to_owned(),
    );
    let mut summary = CrawlSummary::new(1, false, true);
    let mut tally = PublishTally::new();
    let p = build_raw_intel_event_created_pointer(&e, storage, 5);
    record_publish_result(&mut tally, &mut summary, p, Err("down".to_owned()), true);
    let outcome = publish_outcome(vec![e.clone()], &tally, vec!["obj"]);
    assert_eq!(outcome.persisted_events.len(), 1);
    assert_eq!(outcome.persisted_events[0].event_id, e.event_id);
    assert_eq!(outcome.publish_error.as_deref(), Some("down"));
    assert_eq!(outcome.uploaded_objects, vec!["obj"]);
}
