# idp

An identity provider: users register and log in with a password, get a
one-hour access token (an HS256 JWT) and a refresh token kept in a
server-side session, refresh and revoke their sessions; administrators list
users and sessions.

The decisions are made in `src/`, a library verified with Verus:

- `model`, `ids`, `errors`: users, sessions, claims and the errors of each layer;
- `auth_service`, `token_service`, `claims_text`, `user_service`:
  registration, login, the JSON text an access token carries, token checks,
  logout of the access token's own session, refresh rotation (never beyond
  90 days after a session was created), user edits and elevation;
- `crypto`, `encoding`, `instant`, `text`: password and token hashing,
  encodings, instants as nanoseconds, trimming and splitting text;
- `persistence`, `web`, `api_error`, `request_info`, `config`: database rows,
  API bodies, cookies and registered OAuth clients, error answers, the client's address, configuration.

Calls into outside crates (Argon2, HMAC-SHA256, `jsonwebtoken`, `time`,
`uuid`, ...) go through small trusted wrappers whose contracts say what the
crates promise. Public proof functions named `law_*` state properties that
span several functions.

`app/` is the HTTP server around the library (axum, aide, Diesel with
Postgres, tower-cookies, tracing). It reads the store and the request, hands
what it read to the library, and sends what the library decided.
