# madness

A March Madness 2026 bracket predictor: it stores the seeded field and the
bracket in SQLite, fetches team statistics and odds from ESPN, scores games
with a weighted logistic model and shows the bracket in a terminal viewer.

## Layout

- `src/` — the verified library (Verus):
  - `seeds.rs` — the 68-team 2026 field (64 seeded teams and the four
    First Four teams) and the first-round pairings, with the proof that every
    region holds every seed;
  - `bracket.rs` — the bracket graph (which games exist, in which order they
    are stored, where each winner advances), with its laws, and the grouping of
    teams by region;
  - `app.rs`, `screen.rs`, `display.rs` — the viewer's state machine, its key
    handling and the texts it shows;
  - `fetch.rs`, `features.rs`, `odds.rs`, `text.rs`, `models.rs` — the
    decisions taken while fetching and predicting, integer and text parsing,
    and the shared records.
- `app/` — the program around it: command line, SQLite queries, HTTP requests
  and JSON reading, the decimal prediction model and the terminal drawing.
- `tests/` — tests of the library.
