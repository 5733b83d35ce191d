# gen-axum

The rules of an axum web service, verified with Verus, and the adapters that
run them.

- `src/` is the verified library:
  - `status`: status codes as `u16`, their three-digit text, parsing them from
    bytes, and their canonical reason phrase.
  - `error`: `AppError` (a JSON:API error object whose constructors set the
    title to the canonical reason of its status; a decoded error keeps its
    own title), `ErrorResponse`, and
    `error::serde_status_code`, which writes status codes as strings and reads
    them back.
  - `headers::header`: reading values out of an `http::HeaderMap`, the text of a
    header value, and `TextHeader`, a header held as text.
  - `extract::json`: which requests carry JSON, the error each rejected JSON
    request is answered with, and the parts of a JSON response.
  - `middleware`: client metric labels, retry decisions (at most
    `MAXIMUM_NUMBER_OF_RETRIES` retries), and the levels and field texts of log
    records, with authorization values redacted outside local and dev.
  - `routes::fallback`: the answer to unknown routes.
- `app/` holds the axum and reqwest glue: serde and `IntoResponse` for the
  error types, the `FromRequest` extractor, the logging, metrics and retry
  middleware, and the server loop.
- `tests/` runs the library on concrete values.
