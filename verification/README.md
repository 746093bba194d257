# backend

The service behind the cheater-report dashboard and its Discord bot: Discord
verification (OAuth2), Discord webhook events, guild configuration, reports with
evidence files, users and their linked accounts, and an event socket.

- `src/` is the verified library (Verus): every parsing step, decision and value
  that the endpoints compute, with contracts. `handlers/` follows the endpoints;
  `models/` holds the records; `text.rs` holds the decimal, trimming and string
  helpers; `utils/crypto.rs` the AES-256-GCM secret encryption.
- `app/` is the HTTP service (axum, sqlx, redis, reqwest): it reads requests,
  runs the library's decisions and performs what they ask.
- `tests/` exercises the library on concrete values.
