# Symphony

The core of an orchestrator that runs coding agents on tracker issues, verified
with Verus: backoff rules, the retry queue and its eviction, snapshots for the
dashboard, and the answers of the HTTP endpoints.

- `src/` is the verified library.
  - `orchestrator/retry.rs`: backoff after exits and tracker failures
  - `orchestrator/state.rs`: the runtime state, eviction and snapshots
  - `orchestrator/laws.rs`: what holds of the state as a whole
  - `http_server.rs`: what the endpoints do after each event on their channel
  - `issue_map.rs`: a map keyed by issue id
  - `monotonic.rs`: readings of the monotonic clock
  - `timestamp.rs`: points in UTC time and the time between them
  - `config.rs`, `domain.rs`, `observability.rs`: plain data
  - `outside.rs`: what is taken from tokio, tokio-util and std
- `tests/` runs the library.
- `app/` is the server around it: axum routes, JSON, clocks and logs.
