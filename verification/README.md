# api

A todo-list web service with e-mail/password accounts and cookie sessions,
built around a verified library.

- `src/` is the library, verified with Verus. It holds the records the
  service handles, instants and session expiry (seven days, computed with
  chrono), random session tokens (uuid), password hashing and checking
  (bcrypt), the session cookie, the errors a client sees, and every request
  procedure (`verify`, `login`, `register`, `logout`, session creation and
  validation, the todo procedures) as a step machine: it asks for one
  outside operation at a time and is handed its outcome. `src/laws.rs`
  proves properties that span several steps, such as "a login succeeds only
  after the submitted password matched the stored hash" and "a new session
  is valid for seven days".
- `app/` is the program around it: settings, the PostgreSQL tables (sqlx),
  the HTTP endpoints (axum), cookies and worker tasks. It performs the
  operations the machines ask for.
- `tests/` exercises the library on concrete values.
