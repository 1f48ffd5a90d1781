# formanator

A client for the Forma benefits API: list benefits and their claim categories,
list and submit claims, log in with a magic link.

- `src/` is the library, verified with Verus:
  - `text` — decimal numbers, `u64` parsing, substring search;
  - `error` — the errors of the client and the text shown for each;
  - `forma` — profile data, benefits, and the categories of a benefit;
  - `claims` — paging through the claims listing, the in-progress filter, the
    claim submission form;
  - `http` — telling success from failure in a reply and explaining failures;
  - `config` — choosing the access token;
  - `commands` — decisions and messages of the CSV commands.
- `app/` performs the I/O: HTTP requests with reqwest, the config file, and the
  serde forms of the library's types.
- `tests/` runs the library on concrete values.
