# cfprobe

Identifies whether an `IP + hostname` is served through Cloudflare's edge by
combining four kinds of evidence (Cloudflare's published IP ranges, DNS
answers from several resolvers, the TLS handshake and certificate, HTTP
response headers) in a rule-based scoring engine.

## Layout

- `src/` — the library, verified with Verus. Every public function states
  what it returns in its `ensures`; the laws of the library (cache reads
  after writes, score bounds, verdict rules, target policy, rate spacing,
  batch counts, the order of the ranges-cache look-up) are public proof
  functions (`src/laws.rs`, `src/evidence/laws.rs`, `src/dns/cache.rs`,
  `src/dns/health.rs`, `src/cloudflare/refresh.rs`).
  - `evidence/` — policies, weights and caps, evidence collection, scoring,
    classification, confidence and the summary text.
  - `probe/` — targets, the SSRF target policy, completing a probe from its
    stage outcomes, batch configuration and results.
  - `dns/` — resolver observations, their aggregation, CNAME walking, the
    answer cache with TTL and capacity, resolver health and bans.
  - `cloudflare/` — the published ranges, reading the API answer, and the
    cache decisions with the look-up order as a state machine.
  - `tls.rs`, `certificates.rs` — the TLS attempt order and certificate
    summaries (x509-parser, sha2 and hex behind small trusted wrappers).
  - `http.rs`, `http_response.rs`, `http_clients.rs` — request planning,
    response reading and the pool of clients kept per target.
  - `keyed.rs` — association lists (values under distinct keys) and their
    lemmas, shared by the caches and pools.
  - `server.rs`, `target_list.rs` — the HTTP API's rules and the target file
    format.
- `app/` — the program around the library: the command line, the network
  I/O (hickory resolvers, rustls handshakes, reqwest requests, the axum
  server), files and locks, and the concurrency. It performs the actions the
  library decides on.
- `tests/` — tests of the library through its public API.

## Collections

Where a map or set is keyed by an integer (the allowed ports), the library
uses std's `BTreeSet`, whose contracts vstd gives. The other maps and sets
are keyed by text (host names, resolver names, record texts), by a tuple
holding text (HTTP client targets) or by an enum of this crate (evidence
kinds and categories). For those keys Verus accepts the calls on
`HashMap`, `HashSet`, `BTreeMap` and `BTreeSet` but proves nothing of their
results: it cannot relate the `Hash`/`Ord` implementations of `String` or of
a derived impl to the key's value. They are therefore kept as association
lists (`keyed.rs`, `evidence/tables.rs`): vectors of key/value pairs with
each key once, whose lookups, inserts and removals are proved, and whose
invariants state what the map or set gave (no key twice, the last write
wins).
