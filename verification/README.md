# authorization

Session and role logic of a JWT-based authorization service, verified with Verus.

- `src/` — the verified library:
  - `role.rs`: user roles, their stored names and how a text is read as a role.
  - `session.rs`: stored sessions, login requests, key expiry and key renewal.
  - `policy.rs`: what a login does to the stored sessions of a user (take over the
    session of the same client, open a new one, or give up the oldest when there are
    too many), with the laws that a login keeps the session count bounded, stores the
    requested session, never leaves two sessions of one client and touches only the
    sessions of the user who logs in.
  - `row.rs`, `codec.rs`: the text columns of a stored session; UUID and JSON text
    come from the `uuid` and `serde_json` crates behind trusted wrappers.
  - `table.rs`: the sessions table and its SQL statements.
  - `auth.rs`: the access key carried by an `Authorization` header, and plain values.
- `app/` — the SQLite session store (`sqlx`), the JWT service and the application
  state, which call the library for every decision.
- `tests/` — tests of the library on concrete values.
