# lockinspiel

The schemas, database value conversions and request-handling rules of the
Lockinspiel timekeeper and user services, verified with Verus.

## Layout

- `src/` — the verified library.
  - `sql_types.rs` — column values: spans and intervals, instants,
    timestamps, civil datetimes and JSON values, with their conversions to
    and from PostgreSQL's representations and the round-trip laws that hold
    of them. `sql_types/serde_jiff_timestamp.rs` holds the JSON form of
    timestamps (microseconds since the Unix epoch).
  - `jiff_bridge.rs`, `uuid_bridge.rs` — the trusted calls into `jiff` and
    `uuid`, each with the contract its source shows.
  - `time_split.rs` — time split schema, the numbering of new timers and the
    grouping of stored timers under their splits.
  - `user.rs` — user profile schema and the documented responses.
  - `api.rs` — errors answered to clients and their HTTP statuses.
  - `timekeeper.rs`, `profile.rs` — the decisions of every request handler,
    as typed states between which the caller does the database and
    object-store work.
  - `config.rs` — the timekeeper's configuration.
- `tests/` — tests of the library on concrete values.
- `app/` — the unverified edge: serde and diesel adapters, table
  definitions and the asynchronous handlers that drive the verified states.
