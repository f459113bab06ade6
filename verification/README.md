# pulsevoice

The verified core of PulseVoice: a hook subprocess delivers one event per
agent hook to a resident daemon over a Unix socket; the daemon dedups events
per session and reads the agent's transcript once a turn's write has settled.

## Layout

- `src/` — the library, verified with Verus.
  - `wire.rs` — the wire envelope and its length-prefixed framing
    (`encode_frame`, `decode_frame`, framing laws).
  - `buffer.rs` — `bytes` buffers and little-endian `u32` encoding.
  - `session.rs` — the session map, idempotent per-session dedup and its laws.
  - `payload.rs` — hook payload identity precedence and envelope building.
  - `dispatch.rs` — the hook's fail-fast delivery stages and exit codes.
  - `probe.rs` — the transcript line shape probe and outcome aggregation.
  - `reader.rs` — the settle window, truncation detection and read summary.
  - `connection.rs`, `daemon_error.rs` — the daemon handler's decisions.
  - `event.rs`, `source.rs`, `tts.rs`, `error.rs`, `adapter.rs`, `text.rs` —
    vocabulary types and text helpers.
- `tests/` — tests of the library.
- `app/` — the binary: socket I/O, JSON encoding of the envelope, file reads,
  timers, signals, logging and the command line.
