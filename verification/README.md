# realtime

The verified core of a WebAssembly runtime's host services: the error type
carried across the guest boundary, reply envelopes, connection options read
from the environment, schema-registry framing and caching for Kafka, message
and header models for Kafka and NATS, Postgres parameters, rows and pool
settings, Redis and MongoDB storage rules, Azure Key Vault naming, and the
grammars and plans of the build and guest macros.

Layout:

- `src/` — the library, written in Verus and verified throughout; its
  public functions carry contracts that state what they compute. Calls
  into `serde_json`, `jsonschema`, `chrono`, `syn`, `base64ct`, `bson`,
  `tokio-postgres` and `rand` stand behind small trusted
  wrappers whose contracts name or state what those crates compute.
- `tests/` — ordinary Rust tests of the library, run against the real crates.
- `app/` — process-side glue: the environment, clocks, HTTP status codes,
  error conversions, BSON documents, and the token-level side of the build,
  guest and runtime macros (reading `syn` syntax into the library's plain
  values and writing code with `quote`).
