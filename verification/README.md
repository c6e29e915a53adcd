# rut

A small personal data-logging web service. Users own categories (public or private,
each with free-form rules) and record timestamped values in them; a new value in a
public category whose rules contain `telegram=yes` is announced in a Telegram chat.

- `src/` is the verified library:
  - `text` — character-level string operations (split, suffix, substring, ASCII case);
  - `encoding` — the base64 format as a function on bytes, proved ASCII and one-to-one;
  - `codec` — base64, SHA-256 and UTF-8 checking, as trusted calls into `base64`, `sha2` and std;
  - `auth` — reading HTTP basic credentials from headers, password rules and hashing;
  - `routes` — which handler answers a URL;
  - `category`, `entries` — the data model and its visibility and notice rules;
  - `protocol`, `exchange` — the request handlers as a state machine that asks the
    server for one piece of outside work at a time;
  - `laws` — properties of that state machine across transitions.
- `app/main.rs` is the server: SQLite, tiny_http, JSON, the Telegram client and `main`.
- `tests/` exercises the library on concrete values.
