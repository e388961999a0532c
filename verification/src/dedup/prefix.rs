//! Which dedup index shards can hold matches for a batch of events.
use crate::event::RawIntelEvent;
use crate::numbers::parse_hex_u64;
use crate::str_map::{insert_keys, keys_of, string_views, StrMap};
use crate::text::{chars_of, copy_range, push_str, string_of};
use crate::time::{utc_date_before, utc_date_label};
use vstd::prelude::*;

verus! {

/// The first two characters (fewer for a shorter text).
pub open spec fn prefix2(value: Seq<char>) -> Seq<char> {
    if value.len() <= 2 {
        value
    } else {
        value.take(2)
    }
}

/// The shard a hash prefix of one day lives in.
pub open spec fn shard_prefix(date: Seq<char>, hash_prefix: Seq<char>) -> Seq<char> {
    "dedup-index-v2/schema=dedup_index_v2/dt="@ + date + "/hash_prefix="@ + hash_prefix + "/"@
}

/// The hash prefixes of the events' exact source keys, URL hashes and content
/// hashes, event by event.
pub open spec fn event_hash_prefixes(events: Seq<RawIntelEvent>) -> Seq<Seq<char>>
    decreases events.len(),
{
    if events.len() == 0 {
        seq![]
    } else {
        let e = events.last();
        event_hash_prefixes(events.drop_last()) + seq![
            prefix2(e.exact_source_key@),
            prefix2(e.canonical_url_hash@),
            prefix2(e.normalized_content_hash@),
        ]
    }
}

/// Every (date, hash prefix) shard, date by date.
pub open spec fn date_shards(dates: Seq<Seq<char>>, prefixes: Seq<Seq<char>>) -> Seq<Seq<char>>
    decreases dates.len(),
{
    if dates.len() == 0 {
        seq![]
    } else {
        date_shards(dates.drop_last(), prefixes) + prefixes.map_values(
            |h: Seq<char>| shard_prefix(dates.last(), h),
        )
    }
}

/// The distinct hash prefixes of the events, ascending.
pub open spec fn distinct_hash_prefixes(events: Seq<RawIntelEvent>) -> Seq<Seq<char>> {
    keys_of(insert_keys(Seq::empty(), event_hash_prefixes(events)))
}

/// The shards to read for the events, ascending and without repeats.
pub open spec fn candidate_shards(events: Seq<RawIntelEvent>, dates: Seq<Seq<char>>) -> Seq<
    Seq<char>,
> {
    keys_of(insert_keys(Seq::empty(), date_shards(dates, distinct_hash_prefixes(events))))
}

/// The first two characters of a hash.
pub fn hash_prefix(value: &str) -> (r: String)
    ensures
        r@ == prefix2(value@),
{
    let v = chars_of(value);
    let n: usize = if v.len() <= 2 {
        v.len()
    } else {
        2
    };
    let head = copy_range(v.as_slice(), 0, n);
    assert(head@ =~= prefix2(value@));
    string_of(head.as_slice())
}

/// A stored SimHash, read as hexadecimal.
pub fn parse_simhash(value: &str) -> (r: Option<u64>)
    ensures
        r == parse_hex_u64(value@),
{
    let v = chars_of(value);
    crate::numbers::parse_hex(v.as_slice())
}

/// The shard of one date and hash prefix.
pub fn shard_prefix_of(date: &str, prefix: &str) -> (r: String)
    ensures
        r@ == shard_prefix(date@, prefix@),
{
    let mut s = "dedup-index-v2/schema=dedup_index_v2/dt=".to_owned();
    push_str(&mut s, date);
    push_str(&mut s, "/hash_prefix=");
    push_str(&mut s, prefix);
    push_str(&mut s, "/");
    s
}

/// The dedup index shards, over the given dates, that can hold the keys of
/// `events`.
pub fn candidate_v2_prefixes(events: &[RawIntelEvent], dates: &[String]) -> (r: Vec<String>)
    ensures
        string_views(r@) == candidate_shards(events@, string_views(dates@)),
{
    let mut hash_prefixes: Vec<String> = Vec::new();
    let mut i: usize = 0;
    assert(events@.take(0) =~= seq![]);
    while i < events.len()
        invariant
            i <= events.len(),
            string_views(hash_prefixes@) == event_hash_prefixes(events@.take(i as int)),
        decreases events.len() - i,
    {
        let e = &events[i];
        hash_prefixes.push(hash_prefix(e.exact_source_key()));
        hash_prefixes.push(hash_prefix(e.canonical_url_hash()));
        hash_prefixes.push(hash_prefix(e.normalized_content_hash()));
        assert(events@.take(i + 1).drop_last() =~= events@.take(i as int));
        i = i + 1;
        assert(string_views(hash_prefixes@) =~= event_hash_prefixes(events@.take(i as int)));
    }
    assert(events@.take(events.len() as int) =~= events@);
    let mut distinct: StrMap<()> = StrMap::new();
    distinct.insert_all(hash_prefixes.as_slice());
    let distinct_prefixes = distinct.keys();
    assert(string_views(distinct_prefixes@) == distinct_hash_prefixes(events@));
    let mut shards: Vec<String> = Vec::new();
    let mut d: usize = 0;
    let ghost hps = string_views(distinct_prefixes@);
    assert(string_views(dates@).take(0) =~= seq![]);
    while d < dates.len()
        invariant
            d <= dates.len(),
            hps == string_views(distinct_prefixes@),
            string_views(shards@) == date_shards(string_views(dates@).take(d as int), hps),
        decreases dates.len() - d,
    {
        let ghost before = string_views(shards@);
        let mut k: usize = 0;
        while k < distinct_prefixes.len()
            invariant
                d < dates.len(),
                k <= distinct_prefixes.len(),
                hps == string_views(distinct_prefixes@),
                string_views(shards@) == before + hps.take(k as int).map_values(
                    |h: Seq<char>| shard_prefix(dates@[d as int]@, h),
                ),
            decreases distinct_prefixes.len() - k,
        {
            let item = shard_prefix_of(dates[d].as_str(), distinct_prefixes[k].as_str());
            assert(hps[k as int] == distinct_prefixes@[k as int]@);
            assert(item@ == shard_prefix(dates@[d as int]@, hps[k as int]));
            let ghost prev = shards@;
            shards.push(item);
            assert(string_views(shards@) =~= string_views(prev).push(item@));
            assert(hps.take(k + 1) =~= hps.take(k as int).push(hps[k as int]));
            k = k + 1;
            assert(string_views(shards@) =~= before + hps.take(k as int).map_values(
                |h: Seq<char>| shard_prefix(dates@[d as int]@, h),
            ));
        }
        assert(hps.take(k as int) =~= hps);
        let ghost ds = string_views(dates@).take(d + 1);
        assert(ds.drop_last() =~= string_views(dates@).take(d as int));
        assert(ds.last() == dates@[d as int]@);
        d = d + 1;
    }
    assert(string_views(dates@).take(dates.len() as int) =~= string_views(dates@));
    let mut out: StrMap<()> = StrMap::new();
    out.insert_all(shards.as_slice());
    out.keys()
}

/// The UTC dates from `now_ms` back `lookback_days` days, today first.
pub fn recent_dates(now_ms: i64, lookback_days: u16) -> (r: Vec<String>)
    requires
        -8_200_000_000_000_000 <= now_ms <= 8_200_000_000_000_000,
    ensures
        r@.len() == lookback_days + 1,
        forall|i: int| 0 <= i <= lookback_days ==> #[trigger] r@[i]@ == utc_date_label(now_ms, i as u16),
{
    let mut r: Vec<String> = Vec::new();
    let mut days: u32 = 0;
    while days <= lookback_days as u32
        invariant
            -8_200_000_000_000_000 <= now_ms <= 8_200_000_000_000_000,
            days <= lookback_days + 1,
            r@.len() == days,
            forall|i: int| 0 <= i < days ==> #[trigger] r@[i]@ == utc_date_label(now_ms, i as u16),
        decreases lookback_days + 1 - days,
    {
        r.push(utc_date_before(now_ms, days as u16));
        days = days + 1;
    }
    r
}

} // verus!
