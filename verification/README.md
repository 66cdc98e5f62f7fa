# aredl_backend

The rules of the All Rated Extreme Demons List backend, written in Verus and
proved against their contracts.

- `src/` is the verified library: submissions (creating, editing, deciding,
  claiming, the queue and its counts, moderator shifts, what viewers may see),
  level identifiers (UUID or in-game id with an optional `_2p` marker), the
  changelog classification, level histories and LDM ids, leaderboards and
  profiles. Each public function states what it returns; the laws that relate
  several functions are public proof functions beside them.
- `tests/` runs the library on concrete values.
- `app/` holds what Verus does not see: the serde and OpenAPI forms of the
  library's types, conversions between UUIDs or UTC timestamps and the plain
  values the library uses, and the OpenAPI documents.

Identifiers are the 128-bit values of UUIDs and timestamps are microseconds
since the UNIX epoch. Database access, HTTP routing, broadcasting and the clock
are not part of this crate: a server embedding it reads the stored values, hands
them to the library, and carries out what the library returns (rows to write,
history entries, notifications, events).
