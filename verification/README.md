# bancho_service

The rules of an osu! bancho server, verified with Verus: multiplayer match and
slot bookkeeping, the search for free wire IDs, message stream offsets and
delivery, chat recipients and spam limits, login and hardware (multi-account)
checks, pubsub event decisions, stream and session clean-up, and the redis
keys everything is stored under.

- `src/` is the verified library. Each public function states what it returns
  in its `ensures`; the `lemma_*` proof functions state the laws that relate
  several functions (for example that a wipe payload reads back as written, or
  that joining a match and leaving it again restores the slots).
- `tests/` runs the library on concrete values.
- `app/` is the service around the library: settings, the redis and MySQL
  access, the asynchronous use cases, the pubsub consumer and the cleanup
  cron. It reads, asks the library, and writes. Floating point stays there:
  the usage percentages in hardware reports and the comparison of pp.

Outside crates called from the library: `bcrypt` (password checks), `uuid`
(session ID text) and `hashbrown` (stream read offsets), each behind a small
trusted wrapper whose contract is documented next to it.
