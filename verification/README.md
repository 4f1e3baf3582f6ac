# Convoy

An MQTT bridge between a local and a remote broker. Local messages matching
the forward rules go to the remote broker under a prefix, and are kept in an
SQLite cache while the remote broker is away or when the publish fails; the
cache is replayed oldest first when it comes back, and a replayed message
leaves the cache once the broker acknowledged it. Remote messages matching the subscribe rules go to
the local broker with the prefix taken off, and are never cached.

Layout:

- `src/` is the library, verified with Verus: topic filters and prefix
  mapping (`topic`, `mqtt_utils::topic`), the cache and its eviction policy
  (`cache`), the decisions of the bridge's tasks as functions and state
  machines (`tasks::router`, `tasks::replay`, `tasks::broker`,
  `tasks::acks`, `tasks::cache`, `tasks::mqtt_actor`, `replay`), broker client settings
  (`mqtt_utils::client`) and configuration (`config`).
- `app/` is the program around it: reading the TOML configuration, the
  MQTT clients and their TLS setup, the tokio tasks and their channels.
- `tests/` runs the library on concrete values, the cache against an
  in-memory SQLite database.
