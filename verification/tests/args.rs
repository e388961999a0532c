use intel_crawl::args::{
    Args, DEFAULT_COMMUNITY_MAX_EVENTS_PER_RUN, DEFAULT_COMMUNITY_MAX_EVENTS_PER_SOURCE,
    DEFAULT_DERIVATIVES_MAX_EVENTS_PER_RUN, DEFAULT_DERIVATIVES_MAX_EVENTS_PER_SOURCE,
    DEFAULT_NATS_STREAM, DEFAULT_NATS_SUBJECT, DEFAULT_OBJECT_STORE_BUCKET,
    DEFAULT_OBJECT_STORE_REGION, DEFAULT_SOURCE_REGISTRY_PATH,
};
use intel_crawl::args::parse::{apply_arg, parse_nats_url, parse_source_id, parse_source_registry};
use intel_crawl::endpoint_args;

fn argv(values: &[&str]) -> Vec<String> {
    values.iter().map(|v| v.to_string()).collect()
}

#[test]
fn args_parses_defaults() {
    let args = endpoint_args::Args::parse(vec!["intel-crawl-app".to_owned()]).unwrap();

    assert_eq!(args.source_registry, endpoint_args::DEFAULT_SOURCE_REGISTRY_PATH);
    assert_eq!(args.max_items_per_source, 50);
    assert_eq!(args.nats_subject, endpoint_args::DEFAULT_NATS_SUBJECT);
    assert_eq!(args.nats_stream, endpoint_args::DEFAULT_NATS_STREAM);
    assert_eq!(args.object_store.endpoint, endpoint_args::DEFAULT_OBJECT_STORE_ENDPOINT);
    assert_eq!(args.object_store.bucket, endpoint_args::DEFAULT_OBJECT_STORE_BUCKET);
    assert_eq!(args.object_store.region, endpoint_args::DEFAULT_OBJECT_STORE_REGION);
    assert!(args.object_store.force_path_style);
    assert_eq!(
        args.derivatives_max_events_per_run,
        endpoint_args::DEFAULT_DERIVATIVES_MAX_EVENTS_PER_RUN
    );
    assert_eq!(
        args.derivatives_max_events_per_source,
        endpoint_args::DEFAULT_DERIVATIVES_MAX_EVENTS_PER_SOURCE
    );
    assert_eq!(
        args.community_max_events_per_run,
        endpoint_args::DEFAULT_COMMUNITY_MAX_EVENTS_PER_RUN
    );
    assert_eq!(
        args.community_max_events_per_source,
        endpoint_args::DEFAULT_COMMUNITY_MAX_EVENTS_PER_SOURCE
    );
    assert_eq!(args.backfill_start_ms, None);
    assert_eq!(args.backfill_end_ms, None);
    assert!(!args.dry_run);
}

#[test]
fn args_rejects_relative_source_registry_path() {
    let error = endpoint_args::Args::parse(argv(&[
        "intel-crawl-app",
        "--source-registry",
        "relative.json",
    ]))
    .unwrap_err();

    assert!(error.contains("--source-registry requires an absolute path"));
}

#[test]
fn args_parses_nats_and_schedule_args() {
    let args = endpoint_args::Args::parse(argv(&[
        "intel-crawl-app",
        "--nats-url",
        "nats://nats:4222",
        "--nats-subject",
        "raw_intel_event.created",
        "--nats-stream",
        "RAW_INTEL",
        "--schedule-interval-ms",
        "60000",
    ]))
    .unwrap();

    assert_eq!(args.nats_url.as_deref(), Some("nats://nats:4222"));
    assert_eq!(args.nats_subject, "raw_intel_event.created");
    assert_eq!(args.nats_stream, "RAW_INTEL");
    assert_eq!(args.schedule_interval_ms, Some(60000));
}

#[test]
fn args_parses_object_store_args() {
    let args = endpoint_args::Args::parse(argv(&[
        "intel-crawl-app",
        "--object-store-endpoint",
        "https://s3.nangman.cloud/",
        "--object-store-bucket",
        "intel-crawl-app-l0",
        "--object-store-region",
        "us-east-1",
        "--object-store-force-path-style",
        "true",
        "--dedup-lookback-days",
        "30",
        "--chunk-max-records",
        "500",
        "--derivatives-max-events-per-run",
        "25",
        "--derivatives-max-events-per-source",
        "10",
        "--community-max-events-per-run",
        "15",
        "--community-max-events-per-source",
        "3",
        "--backfill-start-ms",
        "1764892800000",
        "--backfill-end-ms",
        "1764979200000",
    ]))
    .unwrap();

    assert_eq!(args.object_store.endpoint, "https://s3.nangman.cloud");
    assert_eq!(args.object_store.bucket, "intel-crawl-app-l0");
    assert_eq!(args.object_store.region, "us-east-1");
    assert!(args.object_store.force_path_style);
    assert_eq!(args.dedup_lookback_days, 30);
    assert_eq!(args.chunk_max_records, 500);
    assert_eq!(args.derivatives_max_events_per_run, 25);
    assert_eq!(args.derivatives_max_events_per_source, 10);
    assert_eq!(args.community_max_events_per_run, 15);
    assert_eq!(args.community_max_events_per_source, 3);
    assert_eq!(args.backfill_start_ms, Some(1764892800000));
    assert_eq!(args.backfill_end_ms, Some(1764979200000));
}

#[test]
fn args_rejects_incomplete_backfill_window() {
    let error = endpoint_args::Args::parse(argv(&[
        "intel-crawl-app",
        "--backfill-start-ms",
        "1764892800000",
    ]))
    .unwrap_err();

    assert!(error.contains("--backfill-end-ms is required"));
}

#[test]
fn tests_parses_defaults() {
    let args = Args::parse(vec!["intel-crawl-app".to_owned()]).unwrap();

    assert_eq!(args.source_registry, DEFAULT_SOURCE_REGISTRY_PATH);
    assert_eq!(args.max_items_per_source, 50);
    assert_eq!(args.nats_subject, DEFAULT_NATS_SUBJECT);
    assert_eq!(args.nats_stream, DEFAULT_NATS_STREAM);
    assert_eq!(args.object_store.bucket, DEFAULT_OBJECT_STORE_BUCKET);
    assert_eq!(args.object_store.region, DEFAULT_OBJECT_STORE_REGION);
    assert_eq!(
        args.derivatives_max_events_per_run,
        DEFAULT_DERIVATIVES_MAX_EVENTS_PER_RUN
    );
    assert_eq!(
        args.derivatives_max_events_per_source,
        DEFAULT_DERIVATIVES_MAX_EVENTS_PER_SOURCE
    );
    assert_eq!(
        args.community_max_events_per_run,
        DEFAULT_COMMUNITY_MAX_EVENTS_PER_RUN
    );
    assert_eq!(
        args.community_max_events_per_source,
        DEFAULT_COMMUNITY_MAX_EVENTS_PER_SOURCE
    );
    assert_eq!(args.backfill_start_ms, None);
    assert_eq!(args.backfill_end_ms, None);
    assert!(!args.dry_run);
}

#[test]
fn tests_rejects_relative_source_registry_path() {
    let error = Args::parse(argv(&[
        "intel-crawl-app",
        "--source-registry",
        "relative.json",
    ]))
    .unwrap_err();

    assert!(error.contains("--source-registry requires an absolute path"));
}

#[test]
fn tests_parses_nats_and_schedule_args() {
    let args = Args::parse(argv(&[
        "intel-crawl-app",
        "--nats-url",
        "nats://nats:4222",
        "--nats-subject",
        "raw_intel_event.created",
        "--nats-stream",
        "RAW_INTEL",
        "--schedule-interval-ms",
        "60000",
    ]))
    .unwrap();

    assert_eq!(args.nats_url.as_deref(), Some("nats://nats:4222"));
    assert_eq!(args.nats_subject, "raw_intel_event.created");
    assert_eq!(args.nats_stream, "RAW_INTEL");
    assert_eq!(args.schedule_interval_ms, Some(60000));
}

#[test]
fn tests_parses_object_store_args() {
    let args = Args::parse(argv(&[
        "intel-crawl-app",
        "--object-store-bucket",
        "nangman-crypto-dev-intel-crawl-l0-000000",
        "--object-store-region",
        "ap-northeast-2",
        "--dedup-lookback-days",
        "30",
        "--chunk-max-records",
        "500",
        "--derivatives-max-events-per-run",
        "25",
        "--derivatives-max-events-per-source",
        "10",
        "--community-max-events-per-run",
        "15",
        "--community-max-events-per-source",
        "3",
        "--backfill-start-ms",
        "1764892800000",
        "--backfill-end-ms",
        "1764979200000",
    ]))
    .unwrap();

    assert_eq!(
        args.object_store.bucket,
        "nangman-crypto-dev-intel-crawl-l0-000000"
    );
    assert_eq!(args.object_store.region, "ap-northeast-2");
    assert_eq!(args.dedup_lookback_days, 30);
    assert_eq!(args.chunk_max_records, 500);
    assert_eq!(args.derivatives_max_events_per_run, 25);
    assert_eq!(args.derivatives_max_events_per_source, 10);
    assert_eq!(args.community_max_events_per_run, 15);
    assert_eq!(args.community_max_events_per_source, 3);
    assert_eq!(args.backfill_start_ms, Some(1764892800000));
    assert_eq!(args.backfill_end_ms, Some(1764979200000));
}

#[test]
fn tests_rejects_incomplete_backfill_window() {
    let error = Args::parse(argv(&[
        "intel-crawl-app",
        "--backfill-start-ms",
        "1764892800000",
    ]))
    .unwrap_err();

    assert!(error.contains("--backfill-end-ms is required"));
}

#[test]
fn rejects_unknown_argument_with_usage() {
    let error = Args::parse(argv(&["intel-crawl-app", "--bogus"])).unwrap_err();
    assert!(error.starts_with("unknown argument: --bogus\n\nUsage: intel-crawl-app"));
    assert!(error.ends_with("--community-max-events-per-source 5"));
}

#[test]
fn help_flag_returns_usage() {
    let error = Args::parse(argv(&["intel-crawl-app", "-h"])).unwrap_err();
    assert!(error.starts_with("Usage: intel-crawl-app [--source-registry ABS_PATH]"));
    assert!(error.contains("\n\nDefaults:\n  --source-registry /opt/nangman-crypto/"));
    assert!(error.contains("--derivatives-max-events-per-run 12\n"));
}

#[test]
fn rejects_zero_and_malformed_counts() {
    let zero = Args::parse(argv(&["app", "--max-items-per-source", "0"])).unwrap_err();
    assert_eq!(zero, "--max-items-per-source must be greater than zero");
    let bad = Args::parse(argv(&["app", "--chunk-max-records", "ten"])).unwrap_err();
    assert_eq!(bad, "--chunk-max-records must be a positive number");
    let missing = Args::parse(argv(&["app", "--dedup-lookback-days"])).unwrap_err();
    assert_eq!(missing, "--dedup-lookback-days requires a number");
    let too_big = Args::parse(argv(&["app", "--dedup-lookback-days", "70000"])).unwrap_err();
    assert_eq!(too_big, "--dedup-lookback-days must be a positive number");
    let plus = Args::parse(argv(&["app", "--max-items-per-source", "+7"])).unwrap();
    assert_eq!(plus.max_items_per_source, 7);
}

#[test]
fn rejects_negative_and_inverted_backfill_windows() {
    let negative = Args::parse(argv(&["app", "--backfill-start-ms", "-5"])).unwrap_err();
    assert_eq!(negative, "--backfill-start-ms must be non-negative");
    let inverted = Args::parse(argv(&[
        "app",
        "--backfill-start-ms",
        "20",
        "--backfill-end-ms",
        "10",
    ]))
    .unwrap_err();
    assert_eq!(inverted, "--backfill-start-ms must be less than --backfill-end-ms");
    let only_end = Args::parse(argv(&["app", "--backfill-end-ms", "10"])).unwrap_err();
    assert_eq!(only_end, "--backfill-start-ms is required with --backfill-end-ms");
}

#[test]
fn rejects_bad_tokens_and_urls() {
    let blank = Args::parse(argv(&["app", "--nats-subject", "  "])).unwrap_err();
    assert_eq!(blank, "--nats-subject must not be empty");
    let spaced = Args::parse(argv(&["app", "--object-store-bucket", "a b"])).unwrap_err();
    assert_eq!(spaced, "--object-store-bucket must not be empty or contain whitespace");
    let url = Args::parse(argv(&["app", "--nats-url", "http://nats:4222"])).unwrap_err();
    assert_eq!(url, "--nats-url must start with nats:// or tls://");
    let source = Args::parse(argv(&["app", "--source-id", ""])).unwrap_err();
    assert_eq!(source, "--source-id must not be empty");
    let missing = Args::parse(argv(&["app", "--source-id"])).unwrap_err();
    assert_eq!(missing, "--source-id requires a source id");
}

#[test]
fn parses_flags_and_source_id() {
    let args = Args::parse(argv(&[
        "app",
        "--dry-run",
        "--replay-pending-outbox",
        "--source-id",
        "news",
        "--nats-url",
        "tls://nats:4222",
    ]))
    .unwrap();
    assert!(args.dry_run);
    assert!(args.replay_pending_outbox);
    assert_eq!(args.source_id.as_deref(), Some("news"));
    assert_eq!(args.nats_url.as_deref(), Some("tls://nats:4222"));
}

#[test]
fn endpoint_args_specific_rules() {
    let zero_days =
        endpoint_args::Args::parse(argv(&["app", "--dedup-lookback-days", "0"])).unwrap();
    assert_eq!(zero_days.dedup_lookback_days, 0);
    let bad_bool = endpoint_args::Args::parse(argv(&[
        "app",
        "--object-store-force-path-style",
        "yes",
    ]))
    .unwrap_err();
    assert_eq!(bad_bool, "--object-store-force-path-style requires true or false");
    let off = endpoint_args::Args::parse(argv(&[
        "app",
        "--object-store-force-path-style",
        "false",
    ]))
    .unwrap();
    assert!(!off.object_store.force_path_style);
    let bad_endpoint = endpoint_args::Args::parse(argv(&[
        "app",
        "--object-store-endpoint",
        "s3.example.com",
    ]))
    .unwrap_err();
    assert_eq!(
        bad_endpoint,
        "--object-store-endpoint must start with http:// or https://"
    );
    let blank_subject =
        endpoint_args::Args::parse(argv(&["app", "--nats-subject", " "])).unwrap_err();
    assert_eq!(
        blank_subject,
        "--nats-subject must not be empty or contain whitespace"
    );
    let replay =
        endpoint_args::Args::parse(argv(&["app", "--replay-pending-outbox"])).unwrap_err();
    assert!(replay.starts_with("unknown argument: --replay-pending-outbox\n\nUsage:"));
    let help = endpoint_args::help();
    assert!(help.contains("--object-store-endpoint https://s3.nangman.cloud"));
}

#[test]
fn refused_options_leave_the_arguments_unchanged() {
    let defaults = Args::with_defaults();
    let mut args = Args::with_defaults();
    assert!(parse_source_registry(&mut args, Some("relative.json".to_owned())).is_err());
    assert!(parse_source_id(&mut args, Some("   ".to_owned())).is_err());
    assert!(parse_nats_url(&mut args, Some("http://x".to_owned())).is_err());
    assert!(parse_nats_url(&mut args, None).is_err());
    let values = vec!["x".to_owned()];
    let mut next = 0;
    assert!(apply_arg(&mut args, "--bogus", &values, &mut next).is_err());
    assert!(apply_arg(&mut args, "-h", &values, &mut next).is_err());
    assert_eq!(next, 0);
    assert_eq!(args, defaults);
    let spaced = vec!["a b".to_owned()];
    let mut next = 0;
    assert!(apply_arg(&mut args, "--nats-subject", &spaced, &mut next).is_err());
    assert_eq!(args.nats_subject, "a b");
    assert_eq!(next, 1);
}
