use intel_crawl::args::DEFAULT_SOURCE_REGISTRY_PATH;
use intel_crawl::healthcheck::{healthcheck_requested, healthcheck_source_registry};
use intel_crawl::html::looks_blocked;

#[test]
fn detects_healthcheck_mode() {
    assert!(healthcheck_requested(&[
        "intel-crawl-app".to_owned(),
        "--healthcheck".to_owned()
    ]));
    assert!(!healthcheck_requested(&["intel-crawl-app".to_owned()]));
}

#[test]
fn healthcheck_uses_default_registry_path() {
    let source_registry = healthcheck_source_registry(&[
        "intel-crawl-app".to_owned(),
        "--healthcheck".to_owned(),
    ])
    .unwrap();

    assert_eq!(source_registry, DEFAULT_SOURCE_REGISTRY_PATH);
}

#[test]
fn healthcheck_accepts_explicit_absolute_registry_path() {
    let source_registry = healthcheck_source_registry(&[
        "intel-crawl-app".to_owned(),
        "--healthcheck".to_owned(),
        "--source-registry".to_owned(),
        "/tmp/source-registry.json".to_owned(),
    ])
    .unwrap();

    assert_eq!(source_registry, "/tmp/source-registry.json");
}

#[test]
fn healthcheck_rejects_relative_registry_path() {
    let error = healthcheck_source_registry(&[
        "intel-crawl-app".to_owned(),
        "--healthcheck".to_owned(),
        "--source-registry".to_owned(),
        "source-registry.json".to_owned(),
    ])
    .unwrap_err();

    assert!(error.contains("--source-registry requires an absolute path"));
}

#[test]
fn healthcheck_rejects_other_arguments_and_program_name_flag() {
    let error = healthcheck_source_registry(&[
        "intel-crawl-app".to_owned(),
        "--dry-run".to_owned(),
    ])
    .unwrap_err();
    assert_eq!(error, "unsupported healthcheck argument: --dry-run");
    let missing = healthcheck_source_registry(&[
        "app".to_owned(),
        "--source-registry".to_owned(),
    ])
    .unwrap_err();
    assert_eq!(missing, "--source-registry requires an absolute path");
    assert!(!healthcheck_requested(&["--healthcheck".to_owned()]));
}

#[test]
fn detects_challenge_pages() {
    assert!(looks_blocked("<title>Just a moment...</title> Cloudflare"));
    assert!(!looks_blocked("<title>Just a moment</title>"));
    assert!(!looks_blocked("cloudflare status page"));
}
