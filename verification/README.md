# prompt_server

The logic of a small prompt server, verified with Verus: sign-up and login
with bcrypt-hashed passwords, HS256 session tokens, the request guard that
reads the bearer token, the per-user request history, error responses, the
CORS policy and the route table.

- `src/` is the library. Its functions take plain values (what a database
  query returned, the time, a header) and return plain values; each has a
  contract, and the laws that tie them together are proved there
  (`bearer::lemma_bearer_round_trip`, `handlers::lemma_signed_up_user_logs_in`,
  `handlers::lemma_routes_are_unambiguous`). `src/tables.rs` models the two tables and what the queries do to them,
  with the laws the library's decisions keep over them. `src/crypto.rs` holds the calls
  into `bcrypt` and `jwt` and what is assumed of them.
- `app/` is the Rocket server around it: routes, the database pool and
  queries (diesel), the clock (chrono), JSON (serde) and the Python model
  (pyo3).
- `tests/` runs the library on concrete values.
