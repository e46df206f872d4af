# coordinator

The inference coordinator of a GPU marketplace: it keeps a registry of
announced nodes, runs a sealed-bid auction for each chat completion,
drafts the dispatch token naming the winner, assembles the routing
receipt and payout lines when the work completes, and drives refunds and
on-chain settlement.

- `src/` is the library, verified with Verus: every public function
  carries a contract, and the `law_*` proof functions state the
  properties that span several calls (auction winner, registry upsert
  and eviction, payout bounds, receipt archive, job statuses, backoff).
  Calls into `hex`, `sha2`, `base64`, `uuid`, `rand`, `rcgen`,
  `x25519-dalek`, `aes-gcm` and a few
  `std` text functions sit behind small trusted wrappers whose doc
  comments say what is assumed of them.
- `tests/` exercises the library on concrete values.
- `app/` is the server around it: environment, Postgres, Redis, the
  sidecar HTTP client, TLS, the axum routes, the background workers, and
  the floating-point bid scores the library ranks by bit pattern.
