# riichienv

Verified building blocks of a riichi mahjong environment for learning agents:
tile notation, meld-pattern codes, the sequence features (sparse tokens,
numeric values, action progression and legal-action candidates) drawn from
a player's observation, the three-player wall, riichi candidates, final
placings, and the comparison of simulated wins with replay logs.

Layout:

- `src/` — the library, written in Verus; every public function carries a
  contract (a few private helpers are only verified for safety), and the laws of the library are proof functions next to the code they are
  about (`lemma_*`).
  - `types.rs` — hands, melds, winds, win conditions and results.
  - `parser.rs` — MJAI tile notation and its round trips.
  - `sequence_features.rs` — kan37 indices, chi/pon codes, relative seats.
  - `events.rs` — the fields of MJAI events, read by `serde_json`.
  - `observation.rs` — the observation and its sequence features.
  - `selection.rs` — picking the legal action an MJAI message names.
  - `wall.rs` — shuffling (rand), hashing (sha2) and loading the 3-player wall.
  - `mjsoul.rs` — MjSoul replay records: tile notation and round logs.
  - `riichi.rs`, `ranking.rs`, `replay.rs`, `action.rs`, `errors.rs`, `text.rs`.
- `tests/` — tests of the library.
- `app/` — what stays outside the verifier: reading gzip replay files, the
  floating-point features and points, error display, Python bindings.
