# wuspotify-muter

A macOS command-line tool that watches the Spotify desktop player and mutes its
audio ads, as a Verus-verified library with a thin program around it.

- `src/` — the verified library:
  - `text.rs`: prefixes, ASCII case folding, Unicode white-space trimming, tab-separated
    fields, decimal numbers (reading and writing).
  - `platform.rs`: player states and snapshots, reading the player's status line, and the
    scripts that change volume and muting.
  - `detector.rs`: classifying what plays (music, podcast, ad and why) and turning
    snapshots into events.
  - `action.rs`: muting and unmuting decisions, planned as commands, with a state file
    that records a mute in progress for crash recovery.
  - `config.rs`: settings and the command line, help and error texts.
  - `monitor.rs`: the monitoring loop's decisions and its log lines.
- `app/main.rs` — the program: runs `osascript`, reads and writes the state file, sleeps
  between polls, handles Ctrl+C, and prints.
- `tests/` — tests of the library.
