# trading_bot

An event-driven trading bot for Alpaca paper trading: market data in,
strategy signals, risk checks, orders out, order and position state kept from
the broker's trade updates, and a backtesting path over historical or
synthetic bars.

## Layout

- `src/` — the verified library (Verus). It holds every decision that can be
  taken on plain values, with its contract:
  - `strategy/` — signals, the bounded price window, the EMA crossover and
    EMA/RSI strategies (crossover and filter logic, history handling);
  - `risk/` — the risk checks, their order and the risk manager;
  - `execution/` — the order book, the position tracker and what a fill does
    to a position, and the meaning of trade-update events;
  - `alpaca/` — order requests, the account record, and the reconnection and
    message-handling decisions of the broker streams;
  - `config.rs` — defaults and the paper-trading guard;
  - `backtest/` — CSV record splitting, synthetic bar timestamps, the
    engine's open/close decisions and trade counts;
  - `market/` — domain types (generic over the numeric type) and instrument
    lookup.
- `app/` — the program around it: HTTP and WebSocket I/O, the database, the
  environment, the floating-point indicators and money arithmetic, and
  `main`. `trading-bot backtest` runs the backtest comparison.
- `tests/` — tests of the library.

Prices and amounts are `f64` in the program; the library is generic over
them and never computes with them.
