# draughts

A draughts engine and self-play training lab, as one binary. The library in
`src/` is verified with Verus; `app/` is the server around it.

## Layout

- `src/rules` — the board, moves and their persisted encodings, and the
  Zobrist hashing scheme (key table, full and incremental hashes).
- `src/engine` — evaluator identities, search configuration, and the shared
  transposition table's lookup rules.
- `src/config` — the configuration model, its defaults, and startup
  validation (shapes, the memory projection, deadlines, device memory, the
  draw policy).
- `src/db` — id leases, record encodings, the migration plan, and the
  writer's handle and producer policies.
- `src/face` — the commentary layer: the circuit breaker, canned lines,
  prompt rendering, output sanitization, device selection, and the facade's
  decisions.
- `src/lab` — batch bookkeeping, cancellation and position sampling.
- `src/api`, `src/error` — the health report and the API error model.
- `app/` — configuration loading, the database files, the HTTP server and
  the asynchronous commentary facade.
- `tests/` — behaviour tests of the library.

Laws that span several operations (for example that toggling a piece twice
restores a hash, or that a half-open circuit admits a single probe) are
public proof functions named `law_*`, next to the code they describe.
