# goosefs_client

The core of a client for the Goosefs distributed cache, written and proved in Verus: its
configuration, its metadata cache, its metrics, and the reading of files.

- `src/` is the verified library. It holds no connections and does no I/O. Where an
  operation alternates remote calls and decisions, the library holds the decisions as a step
  function: whoever runs it performs the action that it names and hands back what came of it.
- `app/` is ordinary Rust around the library: the environment, the clock, files, the signal
  handler, the loops that run the step functions over asynchronous services, and the Python
  classes.
- `tests/` runs the library.

The laws of the library are the public proof functions whose names begin with `law_`. They
stand in the modules of the functions that they speak of.

What the library takes on trust has a comment that says what is
claimed: `io/buffers.rs` (the buffers of `bytes`), `metadata_cache.rs` (`lru::LruCache`),
`metrics/registry.rs` (`dashmap::DashMap`), and, for functions of the standard library,
`text.rs`, `config/kinds.rs` and `config/uri.rs`.
