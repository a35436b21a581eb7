# polymarket_rn1_bot

The decision logic of a prediction-market trading bot, verified with Verus.

- `src/decimal.rs` — exact decimals (`Dec`), every arithmetic step done by `rust_decimal`.
- `src/time.rs` — UTC instants; the clock, RFC 3339 parsing and whole minutes by `chrono`.
- `src/text.rs`, `src/store.rs` — string helpers and a string-keyed record store.
- `src/types.rs`, `src/config.rs` — orders, order books, market data, positions; configuration.
- `src/client/` — addresses of the market and sports services, and how a market list is read.
- `src/strategy/` — mispricing, market making, hedging, holding, farming, high-frequency
  price tracking, synthetic exits, and the engine that holds them.
- `src/order/` — order bookkeeping (paper fills, exchange orders) and the paper account.
- `app/` — the program: command line, configuration file, HTTP, the trade log, the scan loop.
