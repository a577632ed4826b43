# ax_notes

A multi-user notes service (Axum + PostgreSQL) whose decisions are verified
with Verus.

- `src/` is the verified library:
  - `auth`: Argon2id password hashing and checking, bearer tokens (HS256 JWT
    issue and check, the `Bearer ` header), and the authorization decision.
  - `error`: the service's errors and the status and message each is
    answered with.
  - `handlers`: what each HTTP handler answers, given the rows or row counts
    that its queries returned.
  - `models`: request and response bodies, token claims.
- `app/` is the server: routing, middleware, rate limiting, CORS/CSP, the SQL
  queries, JSON (de)serialisation; it hands the library plain values and
  sends back what the library decides.
- `tests/` runs the library with the real outside crates.
