# intel_crawl

The decision logic of a raw-intel crawler, written in Verus. Every function
of `src/` carries a contract; Verus proves all of them except a few small
trusted functions that call std, sha2, chrono and serde_json (SHA-256,
lower-casing, string appends, date parsing and formatting, JSON member
reads), whose contracts are taken as given.

- `args`, `endpoint_args`: the command line, as a spec of the whole grammar
  (defaults, each option's checks and messages, the backfill window).
- `registry`, `item`, `event`: sources, feed items and the raw intel event
  built from them (identifiers, hashes, quality labels).
- `normalization`, `hashing`, `numbers`, `text`, `str_map`: the text, hash and
  number utilities the identifiers rest on.
- `dedup`: the dedup index, its decisions and its shard layout.
- `balance`: flood-control caps on derivatives and community sources.
- `health`, `coverage`: the per-source health/heal records and the per-asset
  coverage report.
- `crawl_loop`, `crawl_output`, `fetch`, `healthcheck`, `html`: a run's
  bookkeeping: dedup and admission of a source's events, the records of each
  outcome, cadence and backoff skips, pointer publishing tallies.
- `time`, `json`: calendar and JSON reads, delegated to chrono and serde_json.

`app/` holds the binary: argument handling, the healthcheck, registry file
loading and a per-asset coverage report, plus the HTTP request and response
helpers of a fetch.
