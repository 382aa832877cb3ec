# questrade_client

Client logic for the Questrade REST API, written in Verus.

`src/` is the verified library:

- `rate_limit` — the two rate-limit buckets (account, market data): classifying
  paths, merging `X-RateLimit-*` headers into the tracked state, and how long a
  request must wait.
- `retry` — what follows each HTTP response (429 retries with backoff, a single
  token refresh on 401, success or failure), with a proof that a request sends
  a bounded number of times; `Retry-After` handling.
- `auth` — the OAuth token state: cached tokens, freshness, forced refresh and
  rotation of the single-use refresh token.
- `windows` — splitting a date range into 30-day windows, with proofs that they
  cover the range without gaps.
- `endpoints` — request paths, batch queries, option-quote batches of 100,
  symbol resolution.
- `order` — the stable order by instant in which activities and executions
  are returned (`datetime::chronological_order` reads the instants).
- `datetime`, `timestamp`, `clock`, `headers`, `text` — date-times, instants,
  the clock, header values, and character-level parsing and formatting.

`app/` holds the async client around it: the HTTP requests, JSON types, the
token manager with its lock and callback, and the request loop that carries
out the library's decisions.
