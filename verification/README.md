# axum_app

The verified core of a todo-list HTTP service backed by PostgreSQL.

`src/` is the library, checked by Verus:

- `todos` — todo items, the create and update payloads and their
  validation (titles are trimmed of Unicode white space and may not be
  empty; an update must change at least one field).
- `handlers` — what each endpoint decides: which payloads go on to the
  store, and what the client is answered with once the store replied
  (including the `Location` of a created todo).
- `response` — success and error envelopes, HTTP status codes, and the
  mapping of application errors to API errors.
- `error` — application errors and their causes.
- `config`, `app_config` — configuration shapes, defaults, the choice of
  the configuration file and the PostgreSQL connection URL.
- `health` — the health answer.
- `text` — trimming and decimal rendering.

`app/` is the program around it: axum routes and handlers, SQL queries
through sqlx, configuration loading, logging and the OpenAPI document.
