use intel_crawl::coverage::{build_source_coverage_report, AvailableDisabledSourceDetail};
use intel_crawl::registry::{AppliesToAssets, Source, SourceRegistry, UniverseAsset};

fn source(
    source_id: &str,
    source_category: &str,
    enabled: bool,
    applies_to_assets: AppliesToAssets,
) -> Source {
    Source {
        source_id: source_id.to_owned(),
        source_category: source_category.to_owned(),
        source_name: source_id.to_owned(),
        source_url: "https://example.com/feed.xml".to_owned(),
        fetch_method: "rss".to_owned(),
        adapter: None,
        max_items_per_run: None,
        trust_tier: "T1".to_owned(),
        cadence_tier: "medium".to_owned(),
        language_hint: "en".to_owned(),
        enabled,
        source_state: if enabled { None } else { Some("available_disabled".to_owned()) },
        activation_blocker: if enabled { None } else { Some("not_active".to_owned()) },
        top50_relevance_mode: "symbol_alias_match".to_owned(),
        applies_to_assets,
    }
}

fn global_news() -> Source {
    source("news", "news", true, AppliesToAssets::All("all_major_50".to_owned()))
}

fn direct_project(asset: &str, enabled: bool) -> Source {
    source(
        &format!("project_{asset}"),
        "project_notice",
        enabled,
        AppliesToAssets::List(vec![asset.to_owned()]),
    )
}

fn asset(name: &str, status: &str) -> UniverseAsset {
    UniverseAsset {
        asset: name.to_owned(),
        reference_symbol_native: format!("{name}USDT"),
        rss_seed_status: Some(status.to_owned()),
    }
}

#[test]
fn reports_asset_specific_and_global_coverage() {
    let registry = SourceRegistry {
        universe_assets: vec![
            UniverseAsset {
                asset: "BTC".to_owned(),
                reference_symbol_native: "BTCUSDT".to_owned(),
                rss_seed_status: Some("asset_specific_verified".to_owned()),
            },
            UniverseAsset {
                asset: "DOGE".to_owned(),
                reference_symbol_native: "DOGEUSDT".to_owned(),
                rss_seed_status: Some("global_news_only".to_owned()),
            },
        ],
        sources: vec![
            global_news(),
            direct_project("BTC", true),
            direct_project("DOGE", false),
        ],
    };

    let report = build_source_coverage_report(&registry, 10);

    assert_eq!(report[0].coverage_status, "asset_specific_enabled");
    assert_eq!(
        report[1].coverage_status,
        "asset_specific_available_disabled"
    );
    assert!(report[1]
        .quality_gaps
        .contains(&"missing_enabled_asset_specific_source".to_owned()));
    assert_eq!(
        report[1].available_disabled_direct_sources,
        vec![AvailableDisabledSourceDetail {
            source_id: "project_DOGE".to_owned(),
            source_name: "project_DOGE".to_owned(),
            source_url: "https://example.com/feed.xml".to_owned(),
            source_category: "project_notice".to_owned(),
            fetch_method: "rss".to_owned(),
            trust_tier: "T1".to_owned(),
            activation_blocker: Some("not_active".to_owned()),
        }]
    );
}

#[test]
fn counts_categories_and_lists_ids_in_order() {
    let registry = SourceRegistry {
        universe_assets: vec![asset("ETH", "asset_specific_verified")],
        sources: vec![
            source("zeta", "project_notice", true, AppliesToAssets::List(vec!["ETH".to_owned()])),
            source("alpha", "project_notice", true, AppliesToAssets::List(vec!["ETH".to_owned()])),
            global_news(),
            source("social_a", "social", false, AppliesToAssets::All("all_major_50".to_owned())),
            source("other", "news", true, AppliesToAssets::List(vec!["BTC".to_owned()])),
        ],
    };
    let report = build_source_coverage_report(&registry, 5);
    let record = &report[0];
    assert_eq!(record.schema_version, "source_coverage_v1");
    assert_eq!(record.observed_at_ms, 5);
    assert_eq!(record.reference_symbol_native, "ETHUSDT");
    assert_eq!(record.enabled_direct_source_count, 2);
    assert_eq!(record.enabled_global_source_count, 1);
    assert_eq!(record.enabled_source_count, 3);
    assert_eq!(record.available_disabled_direct_source_count, 0);
    assert_eq!(record.available_disabled_global_source_count, 1);
    assert_eq!(record.direct_source_ids, vec!["alpha".to_owned(), "zeta".to_owned()]);
    assert_eq!(record.available_disabled_source_ids, vec!["social_a".to_owned()]);
    assert_eq!(record.enabled_category_counts.get("project_notice"), Some(&2));
    assert_eq!(record.enabled_category_counts.get("news"), Some(&1));
    assert_eq!(record.enabled_category_counts.keys(), vec!["news".to_owned(), "project_notice".to_owned()]);
    assert!(record.quality_gaps.is_empty());
    assert_eq!(record.coverage_status, "asset_specific_enabled");
}

#[test]
fn reports_missing_sources_and_gaps() {
    let registry = SourceRegistry {
        universe_assets: vec![asset("XYZ", "global_news_only"), asset("ABC", "global_news_only")],
        sources: vec![source("feed", "exchange", true, AppliesToAssets::All("all_major_50".to_owned()))],
    };
    let report = build_source_coverage_report(&registry, 1);
    assert_eq!(report.len(), 2);
    assert_eq!(report[0].coverage_status, "global_symbol_match_only");
    assert_eq!(
        report[0].quality_gaps,
        vec![
            "missing_enabled_asset_specific_source".to_owned(),
            "missing_community_reaction_inventory".to_owned(),
            "missing_global_news_source".to_owned(),
        ]
    );
    let empty = SourceRegistry { universe_assets: vec![asset("ABC", "x")], sources: vec![] };
    let report = build_source_coverage_report(&empty, 1);
    assert_eq!(report[0].coverage_status, "missing_enabled_source");
    assert_eq!(report[0].enabled_source_count, 0);
}

#[test]
fn category_counts_add_up_to_enabled_sources() {
    let registry = SourceRegistry {
        universe_assets: vec![asset("ETH", "asset_specific_verified"), asset("SOL", "global_news_only")],
        sources: vec![
            source("eth_dev", "project_notice", true, AppliesToAssets::List(vec!["ETH".to_owned()])),
            global_news(),
            source("chatter", "social", true, AppliesToAssets::All("all_major_50".to_owned())),
            source("more_news", "news", true, AppliesToAssets::All("all_major_50".to_owned())),
            source("sleeping", "news", false, AppliesToAssets::All("all_major_50".to_owned())),
        ],
    };
    let report = build_source_coverage_report(&registry, 7);
    for record in &report {
        let total: usize = record
            .enabled_category_counts
            .keys()
            .iter()
            .map(|k| *record.enabled_category_counts.get(k).unwrap())
            .sum();
        assert_eq!(total, record.enabled_source_count);
    }
    assert_eq!(report[0].enabled_source_count, 4);
    assert_eq!(report[1].enabled_source_count, 3);
    assert_eq!(report[0].enabled_category_counts.get("news"), Some(&2));
}
