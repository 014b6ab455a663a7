# fs-registry

Service capability registry for FreeSynergy: answers "which capabilities
are available on this node right now?".

## Layout

- `src/` — the verified library.
  - `registry.rs` — the table of entries (`Registry`) and its model: a
    sequence of entries in first-insertion order with unique ids; register,
    deregister, queries, endpoint lookup and status updates, each with an
    exact contract over that model.
  - `laws.rs` — what holds across the operations (a registration is found
    again, re-registration replaces, deregistration removes exactly one
    service, the endpoint served is that of an entry that is up, ...).
  - `models.rs`, `error.rs` — entries, statuses and errors.
  - `rest.rs`, `grpc.rs` — the replies that the REST and gRPC handlers send.
  - `cli.rs`, `text.rs` — the reports that the command line client prints.
  - `stored.rs` — which queries fail on stored rows whose status cannot be
    read back.
  - `bus_handler.rs` — what the registry does for each bus event.
  - `config.rs` — the daemon's configuration from its environment values,
    and the database URL for its path.
  - `clock.rs` — instants (seconds and nanoseconds since the epoch, over
    the whole range of `chrono`), their RFC 3339 text and the system clock.
- `app/` — the daemon and client around the library: SQLite persistence
  (sea-orm; each operation loads the table and writes its change back), the axum REST server with its OpenAPI document, the tonic gRPC
  server and client, the clap command line, and the message bus adapter.
- `tests/` — tests of the library.
