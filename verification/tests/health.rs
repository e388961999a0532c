use intel_crawl::health::heal::classify_failure;
use intel_crawl::health::record::status::{BackoffState, HealthStatus};
use intel_crawl::health::{SourceHealRecord, SourceHealthRecord};
use intel_crawl::registry::{AppliesToAssets, Source};

fn source() -> Source {
    Source {
        source_id: "news".to_owned(),
        source_category: "news".to_owned(),
        source_name: "News".to_owned(),
        source_url: "https://example.com/rss.xml".to_owned(),
        fetch_method: "rss".to_owned(),
        adapter: None,
        max_items_per_run: None,
        trust_tier: "T1".to_owned(),
        cadence_tier: "medium".to_owned(),
        language_hint: "en".to_owned(),
        enabled: true,
        source_state: None,
        activation_blocker: None,
        top50_relevance_mode: "symbol_alias_match".to_owned(),
        applies_to_assets: AppliesToAssets::All("all_major_50".to_owned()),
    }
}

#[test]
fn health_health_record_contains_contract_fields() {
    let record = SourceHealthRecord::ok(&source(), 10, 30, 2, 1, 1);

    assert_eq!(record.fetch_status, "ok");
    assert_eq!(record.health_level, "healthy");
    assert_eq!(record.latency_ms, 20);
    assert_eq!(record.items_fetched, 2);
    assert_eq!(record.dedup_dropped, 1);
}

#[test]
fn health_heal_record_classifies_rate_limit() {
    let record =
        SourceHealRecord::retry_after_failure(&source(), 100, "returned HTTP 429", Some(60));

    assert_eq!(record.failure_type, "rate_limited");
    assert_eq!(record.heal_action, "retry_with_backoff");
    assert_eq!(record.next_retry_at_ms, Some(160));
}

#[test]
fn health_heal_record_does_not_classify_url_extension_as_parse_failure() {
    let record = SourceHealRecord::retry_after_failure(
        &source(),
        100,
        "error sending request for url (https://127.0.0.1:1/rss.xml)",
        Some(60),
    );

    assert_eq!(record.failure_type, "source_unreachable");
}

#[test]
fn tests_health_record_contains_contract_fields() {
    let record = SourceHealthRecord::ok(&source(), 10, 30, 2, 1, 1);

    assert_eq!(record.fetch_status, "ok");
    assert_eq!(record.health_level, "healthy");
    assert_eq!(record.latency_ms, 20);
    assert_eq!(record.items_fetched, 2);
    assert_eq!(record.dedup_dropped, 1);
}

#[test]
fn cadence_skip_is_recorded_as_healthy_deferred_fetch() {
    let record = SourceHealthRecord::skipped_cadence(&source(), 10, 20, 1_000);

    assert_eq!(record.fetch_status, "skipped_cadence");
    assert_eq!(record.health_level, "healthy");
    assert_eq!(
        record.http_status_or_error.as_deref(),
        Some("next_due_at_ms=1000")
    );
    assert_eq!(record.latency_ms, 0);
}

#[test]
fn tests_heal_record_classifies_rate_limit() {
    let record =
        SourceHealRecord::retry_after_failure(&source(), 100, "returned HTTP 429", Some(60));

    assert_eq!(record.failure_type, "rate_limited");
    assert_eq!(record.heal_action, "retry_with_backoff");
    assert_eq!(record.next_retry_at_ms, Some(160));
}

#[test]
fn tests_heal_record_does_not_classify_url_extension_as_parse_failure() {
    let record = SourceHealRecord::retry_after_failure(
        &source(),
        100,
        "error sending request for url (https://127.0.0.1:1/rss.xml)",
        Some(60),
    );

    assert_eq!(record.failure_type, "source_unreachable");
}

#[test]
fn classifies_every_failure_kind() {
    assert_eq!(classify_failure("Too Many Requests"), "rate_limited");
    assert_eq!(classify_failure("operation TIMED OUT"), "timeout");
    assert_eq!(classify_failure("invalid JSON body"), "parse_failed");
    assert_eq!(classify_failure("did not return an XML feed"), "parse_failed");
    assert_eq!(classify_failure("returned a bot challenge page"), "auth_not_supported");
    assert_eq!(classify_failure("no usable items"), "content_empty");
    assert_eq!(classify_failure("connection refused"), "source_unreachable");
}

#[test]
fn health_records_of_each_outcome() {
    let empty = SourceHealthRecord::ok(&source(), 10, 5, 0, 0, 0);
    assert_eq!(empty.fetch_status, "no_items");
    assert_eq!(empty.health_level, "degraded");
    assert_eq!(empty.latency_ms, -5);
    let failed = SourceHealthRecord::failed(&source(), 10, 40, "boom".to_owned());
    assert_eq!(failed.fetch_status, "failed");
    assert_eq!(failed.health_level, "blocked");
    assert_eq!(failed.backoff_state, "scheduled");
    assert_eq!(failed.error.as_deref(), Some("boom"));
    assert_eq!(failed.http_status_or_error.as_deref(), Some("boom"));
    let unchanged = SourceHealthRecord::not_modified(&source(), 10, 12);
    assert_eq!(unchanged.fetch_status, "not_modified");
    assert_eq!(unchanged.health_level, "healthy");
    let backoff = SourceHealthRecord::skipped_backoff(&source(), 10, 12, Some(99));
    assert_eq!(backoff.fetch_status, "skipped_backoff");
    assert_eq!(backoff.health_level, "degraded");
    assert_eq!(backoff.backoff_state, "active");
    assert_eq!(backoff.error.as_deref(), Some("backoff_until_ms=99"));
    let backoff_open = SourceHealthRecord::skipped_backoff(&source(), 10, 12, None);
    assert_eq!(backoff_open.error, None);
    assert_eq!(empty.schema_version, "source_health_v1");
    assert!(empty.health_event_id.starts_with("src_health_"));
    assert_eq!(empty.health_event_id.len(), "src_health_".len() + 24);
    assert_ne!(empty.health_event_id, unchanged.health_event_id);
}

#[test]
fn health_status_labels() {
    assert_eq!(HealthStatus::from_items_seen(0), HealthStatus::NoItems);
    assert_eq!(HealthStatus::from_items_seen(3), HealthStatus::Succeeded);
    assert_eq!(HealthStatus::Succeeded.as_str(), "ok");
    assert_eq!(HealthStatus::SkippedCadence.health_level(), "healthy");
    assert_eq!(HealthStatus::Failed.health_level(), "blocked");
    assert_eq!(BackoffState::Clear.as_str(), "none");
    assert_eq!(BackoffState::Active.as_str(), "active");
}

#[test]
fn heal_record_without_interval_has_no_retry_time() {
    let record = SourceHealRecord::retry_after_failure(&source(), 7, "request timeout", None);
    assert_eq!(record.failure_type, "timeout");
    assert_eq!(record.next_retry_at_ms, None);
    assert_eq!(record.attempt_count, 1);
    assert_eq!(record.heal_status, "scheduled");
    assert!(record.heal_event_id.starts_with("src_heal_"));
}
