# rust_bus

An event bus: events are dispatched to in-memory handlers, and to database handlers
whose jobs go through a queue table with retries, timeouts, uniqueness rules and
replacement of queued jobs.

- `src/` is the library, written in Verus. It holds the rules of the bus with their
  contracts and proofs: the registries of handlers, the validation of handler
  settings, the statements that queue a job (lookup of a matching job, replacement of
  its columns, insert of a new job) and the statements of the workers, for MySQL
  and Postgres (taking due jobs by priority, recording how a run ended, returning
  jobs interrupted by a shutdown, heartbeats), the backoff of retries, what becomes
  of a failed or timed-out run, the decisions of the queue workers and their retries
  of database work, the metadata of events, and the checks of the registration
  macros. `src/laws.rs` states what holds across functions. The calls into outside
  crates (hashing, JSON, UUIDs, random jitter) are gathered in `src/outside.rs`,
  each behind a stated contract.
- `app/` is the runtime around it, in plain Rust: registration through `inventory`,
  the Postgres backend through `sqlx`, the `tokio` workers, and the token work of the
  attribute macros.
- `tests/` runs the library on concrete values.
