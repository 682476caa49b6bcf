# better_auth_toasty

A database adapter for the better-auth framework backed by the toasty ORM,
split into a verified library and an unverified shell.

- `src/` — the library, verified with Verus:
  - `models` — the four stored rows (users, sessions, accounts, verification tokens);
  - `records` — the requests the framework makes and the records it reads back;
  - `conversions` — rows built from creation requests, rows read back as records;
  - `updates` — how updates merge into rows, with their laws (idempotence, frame);
  - `ops` — the decisions each adapter operation takes between database calls;
  - `ids`, `clock`, `json`, `error` — session tokens and UUIDs, timestamps, JSON metadata, errors.
- `app/` — the toasty models and the async `better_auth_core` adapter traits,
  which run the queries and hand their answers to the library.
- `tests/` — tests of the library on concrete values.
