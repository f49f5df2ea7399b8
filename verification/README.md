# things3

A verified core for working with the Things 3 task manager: how the database
is located, what errors look like, and how change events are filtered and
broadcast to subscribers.

- `src/` is checked by Verus. `config` decides the database path from plain
  facts about the host (home directory, discovered data folder, whether files
  exist, environment values); `error` holds the error types and their exact
  messages; `event_types`, `event_filter`, `progress` and `broadcaster` hold
  the event model, the filter semantics, and a broadcaster whose contract
  states what is sent on the main channel and on the channel of each
  subscription, kept in a map by identifier. Laws about these stand beside
  them as proof functions.
- `app/` is ordinary Rust around it: reading the environment and the disk,
  the SQLite connection, async shared access to the broadcaster, serde forms
  of the event types, and `std::error::Error` for the errors.
- `tests/` runs the library on concrete values.
