# local_agent

A local agent loop that talks to an OpenAI-compatible chat completions endpoint,
with its logic verified by Verus.

- `src/` is the verified library: routing, planning, tool calls and their
  arguments, result rendering, the folding of streamed chunks, and the mapping
  to response items. Every type has a ghost counterpart (`XView`) that contracts
  speak of. The laws that span several functions stand in `replay.rs`,
  `transcript.rs`, `fragments.rs`, `keys.rs` and next to the functions in the other modules.
- `tests/` runs the library on concrete values.
- `app/` is the host side: HTTP, server-sent events, serde and `thiserror`.
