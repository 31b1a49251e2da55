# chess_games

The decision logic of a chess game backend, verified with Verus.

- `src/games.rs`: the answer of each `/v1/games` endpoint to every outcome of
  the game service, the reading of listing and completion requests, the
  listing entry of each stored game, the
  import and completion response bodies.
- `src/daemon.rs`: the timeout daemon's start/stop lifecycle, the search for
  idle games, the timeout verdict on one game, and the count of a sweep.
- `src/clock.rs`: instants and spans as `chrono` keeps them, their difference
  and the cutoff arithmetic.
- `src/text.rs`: string comparison and decimal notation.
- `app/`: the actix-web handlers and the tokio task that run the logic; the
  game service and the chess rules are traits that a deployment implements.
