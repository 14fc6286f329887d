# ratubetui

A vim-style YouTube music player for the terminal: search with `yt-dlp`,
play audio only through `mpv`, keep a persistent playlist.

The crate is split in two:

- `src/` is the verified library. `app.rs` is the player's state machine:
  every key press and every report from the search, the stream resolver and
  mpv is a step from one state to the next, with the outside actions it asks
  for (run a search, resolve a stream URL, load / stop / pause / seek / change
  volume). Each handler is proved equal to a transition function over the
  state's mathematical view; `laws.rs` proves properties across steps (the
  state stays consistent, late reports are ignored, `l` cycles the loop mode,
  playback errors are retried at most three times, ...). `screen.rs` computes
  the text that the screen shows, `search.rs`, `output.rs`, `mpv.rs` and
  `json.rs` decide what `yt-dlp` and `mpv` output means (the JSON itself is
  parsed by `serde_json`), and `text.rs` holds clock times, decimals,
  trimming and truncation.
- `app/` is the program: terminal, threads, processes, the floating-point
  JSON numbers (durations, positions, volume), the saved playlist and the
  ratatui drawing. It hands keys and reports to the
  library and carries out the actions that come back.

Run `mpv` and `yt-dlp` from `PATH`. Keys are as in the in-program help (`?`).
