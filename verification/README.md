# cdx

A terminal picker for local Codex conversations: it lists the conversations
recorded in the Codex thread store, lets you search, filter and sort them, and
hands the chosen one to `codex resume <conversation-id>`.

The picker's logic is a Verus-verified library:

- `src/app.rs` — the picker state: which conversations are listed for the
  search and settings, in which order, and how the selection moves.
- `src/keys.rs` — what each key does to the picker.
- `src/conversation.rs` — conversations built from stored thread rows,
  session-index names, subagent detection and de-duplication.
- `src/text.rs` — search normalization, trimming, whitespace collapsing and
  truncation.
- `src/layout.rs` — the texts of the screen: controls that fit the width,
  the excerpt column's width,
  table columns, row cells and the status line.
- `src/time.rs` — relative ages and recency buckets.
- `src/session.rs` — the terminal session and the overall run flow, with
  the terminal, loader, selector and resumer supplied by the caller.
- `src/laws.rs` — properties that span several operations.

`app/` is the program around it: argument parsing, reading the SQLite store
and the session index, drawing with ratatui, reading terminal events, and
running `codex resume`.
