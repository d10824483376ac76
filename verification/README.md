# shaayud_core

Event ingestion core with machine-checked contracts.

- `src/` — the library, verified with Verus:
  - `json.rs` — the JSON data model (objects as ordered member lists,
    doubles as IEEE-754 bit patterns, each scalar with its reading as a
    double), lookup and structural equality;
  - `float.rs` — `>` and `==` on doubles, carried out on bit patterns;
  - `text.rs` — text equality, substring search, blank test, decimal
    formatting of integers;
  - `time.rs` — UTC timestamps as chrono holds them, RFC 3339 text via chrono;
  - `framekit/` — device, identity, session, network, event and place
    extraction, and rule-based scoring (`score.rs`, regular expressions via
    the `regex` crate);
  - `structs/` — the incoming event;
  - `ingest.rs` — what ingesting an event works out before storage, and the
    replies of the ingestion endpoint.
- `app/` — the serverless HTTP endpoint, Neo4j storage and the Node.js
  binding; serde forms of the library's types and their conversions.
- `tests/` — tests of the library on concrete values.

The scoring rule set is read at run time from the file named by
`SHAAYUD_RULES` (default `rules.json`).
