# issue_tracker_api

The request logic of an issue-tracker REST API (projects, members, issues,
comments, users, JWT cookie authentication), verified with Verus.

- `src/` is the verified library. Every decision a request handler makes is a
  step function from state and database answer to the next step
  (`handlers::Step`: ask a lookup, perform an effect, or reject with an
  `AppError`), with a contract that says which answer leads where. Validation
  rules, permission checks, pagination, configuration parsing, cookie and
  token handling and the error responses are specified over `Seq`/`Map`
  models and proved.
- `app/` is the server around it: axum routing and extractors, the PostgreSQL
  queries (sqlx) that answer lookups and perform effects, JSON shapes (serde),
  logging and startup.
- `tests/` runs the library on concrete values.

Public proof functions named `law_*` state properties that hold across calls,
such as the permission hierarchy of member roles or that an empty PATCH body
changes nothing.
