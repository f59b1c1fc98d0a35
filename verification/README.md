# ra_lsp_server

The main loop of a language server for Rust, with its decisions verified by Verus.

* `src/` decides. Every choice of the loop is a function from plain values to plain values:
  what an event does to the state (`main_loop`), which handler serves a request and what its
  outcome is answered with (`dispatch`, `method`), what notifications lead to
  (`notification`), what the client is told about open files (`updates`), and what happens
  before the first turn (`startup`). `laws` states what holds of the loop as a whole.
* `app/` acts. It reads the channels, runs the thread pool, talks to the client and to the
  file system layer, and hands every answer back to `src/`.
* `tests/` runs the library against the protocol crates.

A turn of the loop is a conversation: `LoopState::loop_turn` takes an event and returns a
`Step`, a list of actions and a question; `LoopState::resume` takes the answer and returns the
next `Step`, until the turn is `Done` or has `Failed`.

Parameters and results of messages are JSON; in `src/` they are the text of that JSON. The
calls into `serde_json`, `lsp_types`, `lsp_server` and `rustc_hash` stand behind small
functions whose contracts are trusted; each says in its comment what is claimed.
