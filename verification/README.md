# binance_btc

A long-only BTC/USDT spot decision engine around Binance market data, with its
integer and text logic verified by Verus.

## Layout

- `src/` — the verified library:
  - `domain` — macro-event wire codes, volatility regime, system mode;
  - `catalog`, `warmup` — indicator-path flattening and filtering, the
    strategy catalog, warm-up rows and notes per indicator path;
  - `historical` — bundled one-minute history: request day windows (chrono
    behind one trusted wrapper), header check, row selection, CSV row fields;
  - `aggregate` — higher-timeframe and 15-minute bar grouping plans;
  - `backtest` — exit rules, the one-position-at-a-time signal stream, replay
    window checks;
  - `adapters` — Binance symbol-filter selection, request URLs, paging, the
    stable close-time order of parsed klines;
  - `replay` — day chunks for signal-frequency replays;
  - `config`, `indicators`, `text` — override rules, flag records, string
    helpers.
- `app/` — the unverified shell: `f64` prices and indicators, serde payloads,
  HTTP (reqwest/tokio), files, the `binance-fetch` command line.
- `tests/` — executable tests of the library.
