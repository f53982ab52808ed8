# monitord

monitord collects statistics about systemd — unit counts and states,
services and timers, networkd links, PID 1, D-Bus broker accounting, boot
blame, unit verification failures and containers — and prints them as
nested or flat JSON.

## Layout

- `src/` is the library, verified with Verus: the parsers of the files and
  metric streams monitord reads, the configuration, the filters
  (allowlists and blocklists), the counting and flattening of the stats,
  the boot blame cache format, and the decisions of the collector loop.
  Each public function states its result in `ensures`; laws that relate
  several functions are public proof functions (round trips of the cache
  and state encodings, the key prefix of flattened output).
- `tests/` holds the tests of the library.
- `app/` is the program: argument and configuration file handling, the
  reads of `/proc`, `/sys` and `/run`, the collector loop and JSON output.
  It has no D-Bus or varlink client, so the collectors that need one
  report a failure.
