# backend

The verified core of a quiz-tournament server: the rules that score a game from its event
stream, the checks on an event stream, the builder that records a game event by event, the
import of exported events, access decisions, the default and demonstration records that seed
a database, and the records and table rows of tournaments, divisions, games and equipment.

Layout:

- `src/gameevent/`: event codes and events; the scoring calculator and its model
  (`calc_spec.rs`), and scoring that says when events cannot be scored (`calc_checked.rs`);
  the stream builder and its model (`stream_spec.rs`); the stream validator, and whether it
  can read a stream (`validator_input.rs`); and `laws.rs`, what holds across these
  operations.
- `src/models/`: records, their builders and conversions, the rows of the data tables, and
  the import of exported events (`gameevent_import.rs`, modelled in `import_spec.rs`).
- `src/auth/`: access-token claims, reading the caller from a bearer token, and the role-
  and policy-based access decision.
- `src/seed/`: default permissions and roles, demonstration applicants, and reproducible
  demonstration game events.
- `src/text.rs`, `src/seats.rs`, `src/clock.rs`: text helpers, seat-keyed lists, and the
  calls that mint ids and read the clock.
- `tests/`: tests run against the compiled library.
- `app/`: the web server around the library: settings, the HTTP form of errors, signing and
  checking tokens, the refresh cookie, and the token-reading middleware.
