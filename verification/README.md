# qr_code_generator

A dynamic QR-code / URL-shortener service whose rules are a Verus-verified
library.

- `src/` — the verified library:
  - `url_validator` — trimming, length limit, parsing (through the `url`
    crate), scheme and host checks, blocklist, normalisation;
  - `token` — the token newtype, the generator strategy and the random base62
    generator;
  - `state` — the redirect cache and the redirect decisions (cache hit, stored
    link), with the laws that relate them;
  - `handlers` — endpoint decisions: active-link check, updates, response
    bodies and link URLs;
  - `repo` — the token-insert retry rule and its bound;
  - `qr` — rasterising a QR module matrix (from the `qrcode` crate) and PNG
    encoding (through the `image` crate);
  - `error`, `models`, `schemas`, `timestamp`, `text` — the data types and
    small helpers.
- `app/` — the axum server over SQLite (sqlx): routes, SQL, JSON forms of the
  library types, and the HTTP answers.
- `tests/` — scenarios of the service and the library's rules on concrete
  values.

Run the server from `app/main.rs`; it listens on `http://localhost:8000` and
keeps its data in `./qr_code.db`.
