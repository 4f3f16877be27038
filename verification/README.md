# fetchkit

Resilient HTTP client over `reqwest-middleware`: retries with exponential
backoff, an opt-in circuit breaker, base-URL resolution, default headers and
typed errors.

## Layout

- `src/` — the library, verified with Verus.
  - `url.rs` — resolution of paths against the base URL, with its laws
    (trailing slashes on the base and leading slashes on the path do not
    matter; a resolved URL never leaves the base).
  - `client.rs` — `ClientBuilder`, `Client`, `RequestBuilder`: the builder's
    configuration as a view over what is handed to `reqwest` and to the
    middleware chain, the requests a client starts, and the laws relating the
    builder's setters.
  - `headers.rs` — default headers in an `http::HeaderMap`, followed as a
    map from header names to values; merging of header maps.
  - `retry.rs` — the exponential-backoff policy handed to the retry
    middleware.
  - `middleware.rs` — the circuit-breaker policy: which requests are let
    through and which outcomes count as failures.
  - `recording.rs` — the calls that record an outcome on the breaker, and
    the receipt only they hand out.
  - `status.rs` — which statuses succeed, what a failing status is answered
    with, and when a fallback fetch happens.
  - `error.rs`, `failure.rs` — `FetchError`, its rendering, and the mapping of
    transport and middleware errors onto it.
  - `time.rs` — durations, reasoned about by their length in nanoseconds.
- `app/` — the asynchronous side: sending requests and reading bodies
  (`ClientExt`, `RequestBuilderExt`), building a client that panics when
  `reqwest` cannot build one (`BuildExt`, `NewClient`), the circuit breaker as a
  `reqwest-middleware` middleware (`BreakerLayer`, `BreakerExt`), and a copy of
  `FetchError` with `Display` and `std::error::Error`.
- `tests/` — tests of the library.
