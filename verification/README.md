# api

An HTTP API that keeps track of a user's precious-metal assets (raw metal,
cash, coins) and of the prices of gold, silver and the S&P 500.

- `src/` is the library, verified with Verus: the checks on asset requests,
  the answers of every endpoint given what the database returned, the error
  envelopes and their statuses, the wording of extractor rejections, the
  rendering of error chains, the conversion of coin rows into coin data, the
  lookups among price rows, and the formatting of coin searches as SQLite FTS5
  expressions.
- `app/` is the server around it: configuration, tracing, the router, the
  SQL queries, and the JSON bodies (coin measurements and price values are
  floating-point numbers and are carried there).
- `tests/` runs the library on concrete values.
