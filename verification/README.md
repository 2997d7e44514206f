# cli_manager

The logic of a desktop manager for command line sessions, verified with Verus: hosts
that are reached by SSH and the agent on them, the client side of the daemon that hosts
terminal sessions, and notifications about sessions that were handed off to a chat
platform.

- `src/` is the library. Nothing in it reads, writes, waits or looks at a clock. Where
  the work alternates between that and decisions, the decisions are a function from what
  happened to what to do next, with a contract; a `law_` function beside it states what
  holds of all its steps.
- `app/` does the reading, writing and waiting, and holds the copies of the library's
  types that `serde` needs. Its traits stand for the parts of the desktop that live
  elsewhere: how commands for a host are made, where passwords and records are kept, and
  who listens for events.
- `tests/` runs the library on examples.

What is taken on trust stands in `src/text.rs`, `src/encoding.rs`, `src/json.rs` and
`src/ids.rs`: one item for each function of the standard library, `serde_json` or `uuid`
that the library calls, with what is believed of it.
