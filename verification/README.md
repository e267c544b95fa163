# saorsa_quic_test

Verified core of the tooling around the saorsa test network: checking CRDT
convergence, investigating node logs, bookkeeping of library verification
runs and the issues they file, the proof-based test orchestrator, the MCP
tool catalogue, the bootstrap peer table, and the small parsers and report
writers around them. Every public function in `src/` carries a contract that Verus
proves.

Layout:

- `src/` — the library, verified with Verus. `text.rs` and `keyed.rs` hold
  the string and table helpers the other modules build on. The calls into
  std and outside crates whose contracts are trusted stand in
  `platform.rs` (clock, UUIDs, SHA-256, date and duration formatting),
  `text.rs` (Unicode case mapping, building a string from characters),
  `mcp/client.rs` (hex and base64 decoding) and `communitas.rs` (the
  four-word encoder).
- `tests/` — tests of the library, run with the real outside crates.
- `app/` — input and output around the library: the command line, the
  environment of an issue report, filing issues with `gh`, printing
  reports, the floating-point verification of the gossip protocols, and
  driving a proof-based test run.
