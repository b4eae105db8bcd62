# stock_signal

The decision logic of a stock-signal desktop pipeline, verified with Verus.

- `src/silver.rs`: the price check and the rolling 22-price window; exact
  five- and twenty-tick moving averages and the RSI's gains/losses.
- `src/gold.rs`: Buy/Sell/Hold from moving-average crossovers, confirmed by
  the RSI, and the crossover confidence as an exact fraction.
- `src/pipeline.rs`: one raw tick through both layers.
- `src/bronze.rs`: stamping raw ticks (identifier, time, source), quote URL.
- `src/trino.rs`: the warehouse statement protocol as a state machine, SQL
  building and quoting.
- `src/alpaca.rs`, `src/commands.rs`: brokerage configuration, addresses,
  reply judging, and the command rules (symbol, order and listing checks).
- `src/kafka.rs`: producer settings and record destination.
- `src/text.rs`: character-level helpers and the trusted string wrappers.
- `src/laws.rs`: properties of the library as a whole.

Prices are fixed-point integers (`PRICE_SCALE` units per currency unit);
moving averages are kept in twentieths of a price unit.

`app/` holds the desktop shell: environment, HTTP, graph-database and
message-bus I/O, the polling tasks, the UI commands, and the conversion to and
from floating-point records.
