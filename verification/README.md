# trippy_tui

The decisions and the text of the trippy terminal user interface, verified
with Verus.

- `src/lib.rs`: the steps of a run (`run_trippy`), resolving targets into
  traced addresses, tracer identifiers, logging and GeoIp choices, and the
  trace and TUI settings.
- `src/frontend.rs`: the TUI state (selection in the hop table, keys), the
  header lines and the cells of the hop table; `src/frontend/frequency.rs`:
  how often each round-trip time occurs.
- `src/frontend/render/table.rs`: the hop table with hostnames, reverse DNS
  results, autonomous system and GeoIp details, and hop status; which
  addresses and details a row reads (`row_lookups`), so that only those are
  looked up.
- `src/dns.rs`, `src/geoip.rs`: lookup results as the table reads them.
- `src/text.rs`: decimal numerals and joining text.
- `app/main.rs`: the program: command line, terminal, drawing with ratatui,
  logging, and the floating-point parts (loss, average and deviation cells,
  and the frequency chart's percentages). It draws the hop table of
  `src/frontend.rs`; the table of `src/frontend/render/table.rs` is not drawn
  yet, as no tracer or resolver runs here to fill it.
