# aircade-api

Backend of AirCade, a platform for browser-based party games: accounts and sign-in
(email and OAuth), a catalogue of creator games with versions, assets and tags, and
live game sessions where a host screen and players' phones talk over WebSockets.

## Layout

- `src/` — the rules of the service, written in Verus and proved against their
  contracts:
  - `text`, `ids`, `random` — string primitives, UUID text, randomness and the clock;
  - `utils` — join codes and player colours;
  - `auth` — password and identity checks, token claims, request identity, OAuth
    profiles;
  - `routes` — what each HTTP endpoint checks and decides (auth, users, games,
    sessions, slugs);
  - `sessions` — the registry of live WebSocket connections and who receives a
    message;
  - `services`, `entities`, `dto`, `errors`, `error`, `config` — the party-game rules,
    records, bodies, error answers and configuration.
- `tests/` — tests of the library on concrete values.
- `app/` — the server around the library: environment, database (`sea_orm`), HTTP
  (`axum`), token signing (`jsonwebtoken`), OAuth exchanges and the WebSocket relay.
