# starchart

A small database layer over interchangeable backends, verified with Verus.

## Layout

- `src/` — the verified library.
  - `action/` — typed actions (`Action<'a, S, C, T>`), dynamic actions, their validation, their
    text form, and `ActionRun`: the state machine that decides, reply by reply, which backend
    call a running action makes next and what it finally returns.
  - `accessor.rs` — `AccessRun`, the same kind of machine for direct access to entries.
  - `runtime_action.rs`, `typed_action/` — the two other action APIs, with their results.
  - `backend/` — the memory and cache backends (tables of `DashMap`s, specified as maps), the
    file-per-entry backends (their directories, file names and key recovery), and the decisions
    of the provided backend calls.
  - `backends/` — the table-per-file backend and its transcoders.
  - `database.rs`, `error.rs`, `entry.rs`, `util.rs` — errors, keys, the reserved metadata key.
  - `key_field.rs` — which field an `IndexEntry` derive keys a struct by.
  - `schema.rs` — which kind of schema a serialized value describes.
- `app/` — the asynchronous side: the `Backend` trait, backends that perform file and memory
  I/O and serde (de)serialization, the chart that drives `ActionRun` and `AccessRun` against a
  backend, the `Gateway` and its `Database`s, `Display`/`Error`/serde for the library's types, the `syn`/`quote` side of the
  `IndexEntry` derive, and the schema values with their bounds and defaults.
- `tests/` — tests of the library.
