# axum_crud_lib

A small CRUD service for city records, with its logic verified in Verus.

- `src/` — the verified library:
  - `numeric`: decimal rendering of `i32` and reading of signed integers in
    any radix (the rules of `from_str_radix`), with the law that reading back
    the decimal text of a number gives the number.
  - `text`: string equality, prefixes, UTF-8 conversion.
  - `city`: the `City` record, its decoding from the entries of a JSON
    object (keys beginning with `country`, `noname`, `population`, and an
    `area` written as `0x` and a hexadecimal `i32`; in the decoding, any
    other key sets no field), and the rendering of its fields for SQL
    parameters. The server's JSON reader asks the library which value to
    read for each key and leaves the value of any other key unread, so
    serde_json refuses a request body that holds such a key.
  - `queries`: the query builder, the SQL text and parameter types for each
    method, the values bound to the parameters, and the reading of results.
  - `handlers`: the status and content of each endpoint's reply.
  - `config`: the paths of the TLS certificate and key inside their
    folder, and the database client configuration parsed from a connection
    string (with `tokio_postgres`), TLS required.
- `app/` — the server: environment, database pool, HTTP routes, JSON, TLS
  and signal handling, calling the library for every decision.
- `tests/` — tests of the library on concrete values.
