use intel_crawl::dedup::prefix::{
    candidate_v2_prefixes, hash_prefix, parse_simhash, recent_dates, shard_prefix_of,
};
use intel_crawl::balance::SourceRunStats;
use intel_crawl::dedup::DedupStore;
use intel_crawl::event::builder::text::clean_text;
use intel_crawl::event::build_raw_intel_event;
use intel_crawl::hashing::{hash_hex, hex_u64_padded, short_hash, token_hash64};
use intel_crawl::item::FeedItem;
use intel_crawl::json::{json_line_member, json_str_member};
use intel_crawl::normalization::{
    canonical_url, content_fingerprint, hamming_distance, normalize_text_for_dedup, simhash64,
    trim_trailing_slashes,
};
use intel_crawl::numbers::{parse_hex, parse_i64_decimal, parse_unsigned_decimal, push_decimal, push_i64};
use intel_crawl::registry::{AppliesToAssets, Source};
use intel_crawl::str_map::StrMap;
use intel_crawl::text::{collapse_whitespace, compare_chars, str_is_blank};
use intel_crawl::time::{parse_rfc2822_ms, parse_rfc3339_ms, utc_date_before};

fn chars(s: &str) -> Vec<char> {
    s.chars().collect()
}

#[test]
fn parses_numbers_like_std() {
    assert_eq!(parse_unsigned_decimal(&chars("42"), u64::MAX), Some(42));
    assert_eq!(parse_unsigned_decimal(&chars("+42"), u64::MAX), Some(42));
    assert_eq!(parse_unsigned_decimal(&chars("+"), u64::MAX), None);
    assert_eq!(parse_unsigned_decimal(&chars(""), u64::MAX), None);
    assert_eq!(parse_unsigned_decimal(&chars("65536"), 65535), None);
    assert_eq!(parse_unsigned_decimal(&chars("18446744073709551615"), u64::MAX), Some(u64::MAX));
    assert_eq!(parse_unsigned_decimal(&chars("18446744073709551616"), u64::MAX), None);
    assert_eq!(parse_i64_decimal(&chars("-9223372036854775808")), Some(i64::MIN));
    assert_eq!(parse_i64_decimal(&chars("9223372036854775808")), None);
    assert_eq!(parse_i64_decimal(&chars("-12")), Some(-12));
    assert_eq!(parse_i64_decimal(&chars("1 2")), None);
    assert_eq!(parse_hex(&chars("ff")), Some(255));
    assert_eq!(parse_hex(&chars("FFFFFFFFFFFFFFFF")), Some(u64::MAX));
    assert_eq!(parse_hex(&chars("10000000000000000")), None);
    assert_eq!(parse_hex(&chars("xyz")), None);
    let mut s = String::from("n=");
    push_decimal(&mut s, 1234);
    s.push(' ');
    push_i64(&mut s, -56);
    s.push(' ');
    push_i64(&mut s, i64::MIN);
    assert_eq!(s, "n=1234 -56 -9223372036854775808");
}

#[test]
fn hashes_are_sha256_based() {
    assert_eq!(
        hash_hex("abc"),
        "ba7816bf8f01cfea414140de5dae2223b00361a396177a9cb410ff61f20015ad"
    );
    assert_eq!(short_hash("abc"), "ba7816bf8f01cfea414140de");
    assert_eq!(token_hash64("abc"), 0xba7816bf8f01cfea);
    assert_eq!(hex_u64_padded(255), "00000000000000ff");
    assert_eq!(hex_u64_padded(u64::MAX), "ffffffffffffffff");
}

#[test]
fn simhash_hex_round_trips() {
    for v in [0u64, 1, 0xdead_beef, u64::MAX, 1 << 63] {
        assert_eq!(parse_simhash(&hex_u64_padded(v)), Some(v));
    }
}

#[test]
fn normalizes_text_and_urls() {
    assert_eq!(normalize_text_for_dedup("  Hello,   World!! "), "hello world");
    assert_eq!(normalize_text_for_dedup("Ünïcode STAYS"), "Ünïcode stays");
    assert_eq!(canonical_url("  https://example.com/a/#top "), "https://example.com/a");
    assert_eq!(canonical_url("https://example.com///"), "https://example.com");
    assert_eq!(trim_trailing_slashes("https://s3.example///"), "https://s3.example");
    assert_eq!(trim_trailing_slashes("plain"), "plain");
    assert_eq!(hamming_distance(0b1011, 0b0001), 2);
    assert_eq!(hamming_distance(u64::MAX, 0), 64);
    assert_eq!(simhash64(&[]), 0);
    assert_eq!(simhash64(&[0b101, 0b100, 0b001]), 0b101);
    let f = content_fingerprint("Title", "Body text", "https://example.com/x/");
    assert_eq!(f.canonical_url, "https://example.com/x");
    assert_eq!(f.canonical_url_hash, hash_hex("https://example.com/x"));
    assert_eq!(f.normalized_text_hash, hash_hex("title body text"));
    let g = content_fingerprint("TITLE!", "body   TEXT", "https://other.example/");
    assert_eq!(f.normalized_text_hash, g.normalized_text_hash);
    assert_eq!(f.simhash64, g.simhash64);
}

#[test]
fn text_helpers() {
    assert!(str_is_blank(" \t\u{3000}\n"));
    assert!(!str_is_blank(" x "));
    assert_eq!(collapse_whitespace(&chars("  a \n b  ")), chars("a b"));
    assert_eq!(compare_chars(&chars("ab"), &chars("b")), -1);
    assert_eq!(compare_chars(&chars("b"), &chars("ab")), 1);
    assert_eq!(compare_chars(&chars("ab"), &chars("ab")), 0);
    assert_eq!(compare_chars(&chars("a"), &chars("ab")), -1);
}

#[test]
fn sorted_string_map() {
    let mut m: StrMap<usize> = StrMap::new();
    m.insert("b".to_owned(), 2);
    m.insert("a".to_owned(), 1);
    m.insert("c".to_owned(), 3);
    m.insert("b".to_owned(), 20);
    m.increment("a".to_owned());
    m.increment("z".to_owned());
    assert_eq!(m.len(), 4);
    assert_eq!(m.keys(), vec!["a", "b", "c", "z"]);
    assert_eq!(m.get("a"), Some(&2));
    assert_eq!(m.get("missing"), None);
    let copy = m.copy_counts();
    assert_eq!(copy.into_values(), vec![2, 20, 3, 1]);
    let mut set: StrMap<()> = StrMap::new();
    set.insert_all(&["y".to_owned(), "x".to_owned(), "y".to_owned()]);
    assert_eq!(set.keys(), vec!["x", "y"]);
}

#[test]
fn reads_json_members() {
    let line = r#"{"a":"x","n":3}"#;
    assert_eq!(json_line_member(line, "a"), Some(Some("x".to_owned())));
    assert_eq!(json_line_member(line, "n"), Some(None));
    assert_eq!(json_line_member(line, "missing"), None);
    assert_eq!(json_line_member("not json", "a"), None);
    assert_eq!(json_str_member(line, "a"), Some("x".to_owned()));
    assert_eq!(json_str_member(line, "n"), None);
}

#[test]
fn parses_dates_with_chrono() {
    assert_eq!(parse_rfc3339_ms("1970-01-01T00:00:01Z"), Some(1000));
    assert_eq!(parse_rfc2822_ms("Thu, 01 Jan 1970 00:00:02 +0000"), Some(2000));
    assert_eq!(parse_rfc3339_ms("yesterday"), None);
    assert_eq!(utc_date_before(86_400_000 * 2, 1), "1970-01-02");
    assert_eq!(recent_dates(86_400_000 * 2, 2), vec!["1970-01-03", "1970-01-02", "1970-01-01"]);
    assert_eq!(utc_date_before(951_782_400_000, 0), "2000-02-29");
    assert_eq!(utc_date_before(951_782_400_000, 366), "1999-02-28");
    assert_eq!(utc_date_before(-1, 0), "1969-12-31");
    assert_eq!(utc_date_before(-62_167_219_200_000, 0), "0000-01-01");
    assert_eq!(utc_date_before(-62_167_219_200_000, 1), "-001-12-31");
    assert_eq!(utc_date_before(253_402_300_800_000, 0), "10000-01-01");
}

#[test]
fn computes_candidate_shards() {
    assert_eq!(hash_prefix("abcdef"), "ab");
    assert_eq!(hash_prefix("a"), "a");
    assert_eq!(
        shard_prefix_of("2026-01-01", "ab"),
        "dedup-index-v2/schema=dedup_index_v2/dt=2026-01-01/hash_prefix=ab/"
    );
    let source = Source {
        source_id: "news".to_owned(),
        source_category: "news".to_owned(),
        source_name: "News".to_owned(),
        source_url: "https://example.com/rss.xml".to_owned(),
        fetch_method: "rss".to_owned(),
        adapter: None,
        max_items_per_run: None,
        trust_tier: "T1".to_owned(),
        cadence_tier: "medium".to_owned(),
        language_hint: "en".to_owned(),
        enabled: true,
        source_state: None,
        activation_blocker: None,
        top50_relevance_mode: "symbol_alias_match".to_owned(),
        applies_to_assets: AppliesToAssets::All("all_major_50".to_owned()),
    };
    let item = FeedItem {
        id: None,
        title: "T".to_owned(),
        body: "B".to_owned(),
        url: "https://example.com/a".to_owned(),
        author: None,
        published_at: None,
        historical_source_depth: None,
        backfill_window_start_ms: None,
        backfill_window_end_ms: None,
        source_time_range_verified: None,
    };
    let e = build_raw_intel_event(&source, &item, &[], 1);
    let dates = vec!["2026-01-02".to_owned(), "2026-01-01".to_owned()];
    let shards = candidate_v2_prefixes(&[e.clone(), e.clone()], &dates);
    let mut expected: Vec<String> = Vec::new();
    for d in &dates {
        for h in [&e.exact_source_key, &e.canonical_url_hash, &e.normalized_content_hash] {
            expected.push(shard_prefix_of(d, &h[..2]));
        }
    }
    expected.sort();
    expected.dedup();
    assert_eq!(shards, expected);
}

#[test]
fn marks_loaded_shards_once() {
    let mut store = DedupStore::new();
    assert!(store.mark_v2_prefix_loaded("p/".to_owned()));
    assert!(!store.mark_v2_prefix_loaded("p/".to_owned()));
    store.load_jsonl("{\"dedup_key\":\"k1\"}\n\n{\"dedup_key\":\"k2\"}\n");
    assert_eq!(store.len(), 2);
}

#[test]
fn cleaned_text_is_plain_trimmed_and_stable() {
    for raw in ["  <p>Hello</p>\n\n <b>world</b>  ", "a<b", "x > y", "\t<div class=\"c\">one  two</div>\u{3000}"] {
        let cleaned = clean_text(raw);
        assert!(!cleaned.contains('<') && !cleaned.contains('>'));
        assert_eq!(cleaned.trim(), cleaned);
        assert!(!cleaned.contains("  "));
        assert_eq!(clean_text(&cleaned), cleaned);
    }
    assert_eq!(clean_text("  <p>Hello</p>\n\n <b>world</b>  "), "Hello world");
}

#[test]
fn suppression_total_is_the_sum_of_reasons() {
    let mut stats = SourceRunStats::new();
    stats.record_suppression("a".to_owned());
    stats.record_suppression("b".to_owned());
    stats.record_suppression("a".to_owned());
    assert_eq!(stats.suppressed_by_balance, 3);
    let total: usize = stats.suppression_reasons.copy_counts().into_values().into_iter().sum();
    assert_eq!(total, 3);
    assert_eq!(stats.suppression_reasons.get("a"), Some(&2));
}

#[test]
fn dates_at_the_ends_of_the_accepted_instants() {
    assert_eq!(utc_date_before(8_200_000_000_000_000, 0), "261817-08-28");
    assert_eq!(utc_date_before(8_200_000_000_000_000, 65_535), "261638-03-24");
    assert_eq!(utc_date_before(-8_200_000_000_000_000, 0), "-257878-05-06");
    assert_eq!(utc_date_before(-8_200_000_000_000_000, 65_535), "-258058-12-01");
    assert_eq!(recent_dates(-8_200_000_000_000_000, 65_535).len(), 65_536);
}
