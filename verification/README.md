# Tulip indicators, verified core

A technical-analysis indicator library whose integer and structural logic is
specified and proved with Verus.

- `src/` — the verified library:
  - `types`, `error`, `indicator`: indicator metadata, error values and their messages, and the
    shape checks and buffer bookkeeping shared by the batch, single-output and
    in-place paths.
  - `indicators/`: every indicator's metadata, its lookback as a function of
    its (validated) periods, and the ordering rules between periods.
  - `candles`: the candlestick registry, the sorted match set with its
    lookups, the 26 pattern rules, and the scan that records matches.
  - `window`, `state`: the lag ring read by lagging streams and the bounded
    output history of stateful indicators; `indicators::math::decay` holds the
    lag indicator built on the ring, with batch/stream agreement proved.
  - `benchmark`, `text`: benchmark settings, iteration budget, median sample,
    batch plans and warmup checks, stream chunks, the lookup of indicators
    named in a benchmark filter, and the comma-separated size lists (read and
    written).
  - `compare`: the tab-separated tables of an external benchmark run (rows,
    fields, per-row checks) and the pairing of its rows with local results.
- `app/` — the real-number side: option parsing, the batch/stream traits over
  `f64` series, the Hilbert-transform family, price comparisons for candles,
  error messages, the registry of the indicators computed there, the
  benchmark runner and its reports, and the comparison with the external
  benchmark program (`compare::compare_main`).
- `tests/` — executable tests of the library.
