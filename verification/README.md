# magiclink

A user administration backend where users sign in with one-time magic links
sent by e-mail, and administrators manage the user list.

- `src/` is the verified library: validation of addresses, roles
  and names; token generation and the hash under which tokens are stored; the
  steps of requesting and redeeming a link; the admin panel's rules (paging,
  the last active admin, one's own account, session renewal, the hourly
  link limit); the error answers; the configuration read from the environment; the e-mail content.
  `src/laws.rs` states the properties that span several functions.
- `app/` is the Axum server around it: SQLite access with sqlx, sessions with
  axum-login and tower-sessions, mail delivery with Postmark, and `main`.
- `tests/` runs the library on concrete values.
