# sonos_state

State management for Sonos speakers, verified with Verus.

- `src/` — the verified library: speaker and group identities, property
  values and their stores, UPnP event decoding, the change fan-out and watch
  bookkeeping, the state cache and its processors, the reactive pipeline,
  subscription reference counting, and the laws that tie these together
  (`laws.rs`, `pipeline_laws.rs`, `cache_laws.rs`, and lemmas beside the
  types they speak of).
- `tests/` — executable tests of the library.
- `app/` — the runtime around it: shared handles and worker threads, tokio
  tasks and cleanup timers, installing the tracing subscriber, error types
  with `std::error::Error`, serializable copies of the value types, and the
  floating-point progress helpers.
