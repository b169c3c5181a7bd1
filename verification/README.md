# ldc_engine

A Lorentzian-distance k-nearest-neighbour classifier for trading signals, with its
configuration, storage, recovery and test-running machinery, written in Verus.

## Layout

- `src/` — the verified library. Every public function carries a `requires`/`ensures`
  contract that Verus proves, as do most private helpers; laws that relate several
  functions are public `proof fn`s named `lemma_*`.
  - `direction`, `features`, `knn`, `engine`: labels, feature series (kept as the
    IEEE-754 bits of their `f32` values), the training window, the search
    strategies and the neighbour selection (Pine Script's sequential scan, the exact
    search, the vote).
  - `config`, `profiles`, `tuning`, `threading`, `perf_report`: configuration
    validation and correction, predefined and recommended profiles, auto-tuning,
    workload assessment and optimisation rules.
  - `memory_pool`, `mmap_storage`, `compact_store`, `hnsw_ids`: a block pool, the
    64-byte sample layout in memory-mapped files, the compact storage mode, and the
    bookkeeping around an HNSW graph.
  - `circuit_breaker`, `recovery`, `recovery_system`: retry policy, circuit
    breakers, failure history and recovery plans.
  - `test_runner`, `junit`, `pipeline`, `backtest`: suite discovery and selection,
    result summaries, recommendations, the JUnit report, the integration pipeline's
    summary and the back-test's decisions.
  - `text`, `clock`, `errors`: text building, the clock, the error type.
- `app/` — the runtime around the library: floating-point distances and prices,
  the `hnsw_rs` graph, `rayon` pools, files, child processes, `tokio` retries and
  JSON documents. It asks the library for every decision.
- `tests/` — tests of the library on concrete values.
