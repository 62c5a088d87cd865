# circle

The logic of Circle, a small invite-only social app (a Cloudflare Worker API
and a browser client), as a Verus-verified library.

- `src/` — the verified library: validation and error answers of the worker
  (`http`, `auth`, `admin`, `posts`, `media`, `reactions`, `push`), random
  identifiers (`ids`), the client's rules and UI state (`client`, and the
  composer's state machine in `composer`), a reader that proves the JSON the
  library writes reads back (`json`), exact string operations (`text`),
  the wire types (`types`), and the trusted calls into `sha2`, `hex`,
  `getrandom`, `uuid`, `base64`, `p256` and `serde_json` (`primitives`).
- `tests/` — tests of the library on concrete values.
- `app/` — the I/O around it: the Worker's handlers over D1, R2 and Web Push
  delivery, the client's HTTP calls, storage and browser APIs, and serde
  copies of the wire types. The rendered user interface (its components and
  views) is not part of this crate; only the state it keeps and the rules it
  applies are, in `src/`.
