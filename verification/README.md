# tickets

A small ticket-management library, verified with Verus.

- `src/saturating.rs`: `SaturatingU16`, a `u16` whose addition stops at `u16::MAX`.
- `src/status.rs`: ticket statuses read from text, ignoring case.
- `src/data.rs`, `src/store.rs`: tickets, their validated titles and
  descriptions, and an in-memory store that hands out ids from zero.
- `src/channels.rs`, `src/bounded.rs`: what the channel-based store servers do
  with each command, and the client of the bounded one.
- `src/web.rs`, `src/json_codec.rs`: serving a `POST`/`GET`/`PATCH` request
  whose second line holds JSON data; JSON is read and written by the `json`
  crate.
- `src/text.rs`: text helpers (lowercasing, comparison, decimal writing).
- `src/pong.rs`: the answer of the pong task.

`app/` holds what runs around the library: threads, sockets, async tasks, and
the sending of each reply that the bounded server computes.

A status is shown under its variant's name (`"ToDo"`, `"InProgress"`,
`"Done"`), through `data::Status::label` or a conversion into `String`.
