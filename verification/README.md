# poll_api

A small service for creating polls, voting in them and reading their
results, built around a verified library.

- `src/` is the library, verified with Verus: the validation rules of a new
  poll and the errors that report them (`validation`), the error kinds with
  their statuses and response bodies (`errors`), reading the client's
  address (`helpers`), and the decisions of each route as state machines
  that say, after each answer of the store, what to do next or how to
  respond (`routes`, `repositories`). `laws` proves properties that span
  several steps, such as that a vote is recorded only for an eligible
  request and at most once per network and poll.
- `app/` is the HTTP server (actix-web) and the Postgres store (sqlx). It
  runs the library's flows, performs the store work they ask for, and turns
  the library's values into JSON.
- `tests/` exercises the library on concrete values.
