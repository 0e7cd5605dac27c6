# player_core

The verified core of a desktop music player: the playing state (active
playlist, user queue, history, repeat and shuffle, next/previous, jumps),
the XSPF playlist model and its edits, the choice of title and artist from
an audio file's tags, the rate limiter and debouncer that pace slider
updates, and the sample catalog the interface shows. Every public function
carries a contract that Verus proves; `src/laws.rs` states the properties
that relate several operations.

Times are whole milliseconds and the volume is a whole percentage.

- `src/` — the library, checked by Verus.
- `tests/` — tests on concrete values.
- `app/` — a small program around the library: XSPF reading and writing
  with serde and quick-xml, the JSON exchanged with the interface, and a
  command-line walk through a playlist.
