# akinator

A client for the Akinator guessing game, with its game logic verified by Verus.

- `src/` is the verified library:
  - `enums` — languages, themes and answers: their codes, names, labels, and the parsing
    of free-text input;
  - `client` — the game state, the HTTP requests each move sends, and how each reply
    (start page, step response, Cloudflare challenge) changes the state;
  - `models` — guesses, step results, session snapshots and step-response fields;
  - `session_manager` — a bounded store of sessions with idle-time eviction;
  - `text`, `numtext`, `pattern` — character-level helpers, decimal text, and the
    start-page patterns (matched by the `regex` crate).
- `app/` sends the requests with `wreq`, parses JSON with `serde_json`, runs the session
  manager on `tokio`, and gives the public async API with serde and `Display` forms.
- `tests/` runs the library on concrete values.

Time in the session store is a count of nanoseconds on a monotonic clock; a progression
percentage is held as the bit pattern of its `f32` and its decimal text.
