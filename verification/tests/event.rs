use intel_crawl::event::{
    build_raw_intel_event, build_raw_intel_event_created_pointer, RawIntelEventStorageRef,
};
use intel_crawl::item::FeedItem;
use intel_crawl::registry::{AppliesToAssets, Source};

fn item(id: Option<&str>, title: &str, body: &str, url: &str) -> FeedItem {
    FeedItem {
        id: id.map(str::to_owned),
        title: title.to_owned(),
        body: body.to_owned(),
        url: url.to_owned(),
        author: None,
        published_at: None,
        historical_source_depth: None,
        backfill_window_start_ms: None,
        backfill_window_end_ms: None,
        source_time_range_verified: None,
    }
}

#[test]
fn direct_asset_source_marks_event_relevant() {
    let source = Source {
        source_id: "project_eth".to_owned(),
        source_category: "project_notice".to_owned(),
        source_name: "Ethereum".to_owned(),
        source_url: "https://example.com/feed.xml".to_owned(),
        fetch_method: "rss".to_owned(),
        adapter: None,
        max_items_per_run: None,
        trust_tier: "T0".to_owned(),
        cadence_tier: "low".to_owned(),
        language_hint: "en".to_owned(),
        enabled: true,
        source_state: None,
        activation_blocker: None,
        top50_relevance_mode: "direct_asset".to_owned(),
        applies_to_assets: AppliesToAssets::List(vec!["ETH".to_owned()]),
    };
    let item = item(None, "Protocol update", "<p>Upgrade</p>", "https://example.com/a");

    let event = build_raw_intel_event(&source, &item, &[], 1);

    assert_eq!(event.symbol_candidates, vec!["ETH"]);
    assert_eq!(event.top50_relevance, "relevant");
    assert_eq!(event.body, "Upgrade");
    assert_eq!(event.event_category_hint.as_deref(), Some("project_notice"));
    assert_eq!(event.content_kind, "project_notice");
    assert_eq!(event.source_quality, "trusted_direct");
    assert_eq!(event.source_relevance_scope, "direct_asset");
    assert_eq!(event.direct_asset_count, 1);
    assert_eq!(event.historical_source_depth, "feed_retained");
    assert!(!event.source_time_range_verified);
}

#[test]
fn pointer_keeps_event_identity_and_storage_ref() {
    let source = Source {
        source_id: "project_btc".to_owned(),
        source_category: "project_notice".to_owned(),
        source_name: "Bitcoin".to_owned(),
        source_url: "https://example.com/feed.xml".to_owned(),
        fetch_method: "rss".to_owned(),
        adapter: None,
        max_items_per_run: None,
        trust_tier: "T0".to_owned(),
        cadence_tier: "low".to_owned(),
        language_hint: "en".to_owned(),
        enabled: true,
        source_state: None,
        activation_blocker: None,
        top50_relevance_mode: "direct_asset".to_owned(),
        applies_to_assets: AppliesToAssets::List(vec!["BTC".to_owned()]),
    };
    let item = item(Some("g1"), "Bitcoin Core update", "Body", "https://example.com/b");
    let event = build_raw_intel_event(&source, &item, &[], 10);
    let storage_ref = RawIntelEventStorageRef::aws_s3_jsonl_record(
        "intel-crawl-app-l0".to_owned(),
        "raw-intel-events/schema=raw_intel_event_v1/dt=2026-05-07/hour=10/source_category=project_notice/source_id=project_btc/run_id=test/part-000001.jsonl".to_owned(),
        1,
        0,
        100,
        "sha256:abc".to_owned(),
    );
    let pointer = build_raw_intel_event_created_pointer(&event, storage_ref, 20);

    assert_eq!(pointer.event_id, event.event_id);
    assert_eq!(pointer.source_id, "project_btc");
    assert_eq!(pointer.schema_version, "raw_intel_event_created_v2");
    assert_eq!(pointer.storage_ref.kind, "aws_s3_jsonl_record");
}

#[test]
fn event_ids_are_stable_and_simhash_is_sixteen_hex_digits() {
    let source = Source {
        source_id: "news".to_owned(),
        source_category: "news".to_owned(),
        source_name: "News".to_owned(),
        source_url: "https://example.com/rss.xml".to_owned(),
        fetch_method: "rss".to_owned(),
        adapter: None,
        max_items_per_run: None,
        trust_tier: "T1".to_owned(),
        cadence_tier: "medium".to_owned(),
        language_hint: "en".to_owned(),
        enabled: true,
        source_state: None,
        activation_blocker: None,
        top50_relevance_mode: "symbol_alias_match".to_owned(),
        applies_to_assets: AppliesToAssets::All("all_major_50".to_owned()),
    };
    let a = build_raw_intel_event(&source, &item(None, "T", "B", "https://x.example/a#frag"), &[], 1);
    let b = build_raw_intel_event(&source, &item(None, "T", "B", "https://x.example/a/"), &[], 2);
    assert_eq!(a.event_id, b.event_id);
    assert_eq!(a.canonical_url, "https://x.example/a");
    assert_eq!(a.simhash64.len(), 16);
    assert_eq!(u64::from_str_radix(&a.simhash64, 16).unwrap(), a.simhash64_value());
    assert_eq!(a.dedup_decision, "new");
    assert_eq!(a.schema_version, "raw_intel_event_v1");
}
