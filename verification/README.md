# yeast

A stock-data toolkit: an HTTP API and an interactive shell over market data
(historical bars with technical indicators, option chains, quotes, quote
summaries, news, calendars, financial reports and screens).

## Layout

- `src/` — the library, verified with Verus. It holds the logic of the
  service, each function with a contract:
  - `text`, `http`, `json` — character-level string handling, request lines,
    query strings, header lines, response texts, and a JSON value model;
  - `cache`, `rate_limit` — the crumb cache with its expiry, and request
    pacing as steps between sleeps;
  - `crumb`, `api`, `api2`, `napi` — crumb extraction (with the `regex`
    crate), news parsing, screener criteria, field mapping, routing, errors;
  - `summary`, `reports` — reading quote summaries, calendars and financial
    statements;
  - `endpoints`, `og` — the addresses and request bodies the clients send,
    chart rows, listing files and bar times (with the `chrono` crate);
  - `indicators` — indicator parameters and the index arithmetic of their
    windows;
  - `ordering`, `text_order`, `options`, `portfolio`, `cli`, `config` —
    stable sorts, option-side rules, alert rules, shell commands, settings.
- `tests/` — tests of the library on concrete values.
- `app/` — the program: sockets, HTTP clients, TLS, async plumbing, JSON
  (de)serialisation, and the floating-point arithmetic on prices.
