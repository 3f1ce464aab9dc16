# wrapperd

A supervisor for a pool of worker processes that are spoken to over pipes.

- `src/` is the library, verified with Verus: the frames on the pipes, the
  exchange of a request with a worker under its one deadline, the pool, the
  worker's answers, the settings, and the lines that are printed and logged. It
  decides and keeps the books; it starts no process and touches no pipe, clock
  or environment (but for the timestamp of a log line).
- `app/` is the ordinary Rust around it: it starts, probes and reaps processes,
  polls, writes and reads pipes, reads the environment and writes the log file.
- `tests/` runs the library on concrete values.

The numbers of the wire protocol, and how it packs samples into a payload, are
given by the user of the library (`frame::Protocol` and, in `app/`,
`protocol::Codec`).

Outside code is behind a few trusted items, each with a comment on what is
claimed of it: `serde_json` in `src/json.rs`, the standard library's number
parsing and lossy UTF-8 decoding in `src/text.rs`, and its clock in
`src/logfile.rs`.
