# prism

Debugging support for Soroban transactions: error types, network
configuration, Stellar addresses, the JSON-RPC retry policy, the local HTTP
bridge for the Web UI, breakpoints, contract specs, and terminal rendering.

- `src/` is the library, verified with Verus. Each public function states its
  result in its contract; laws that relate several calls stand as public
  proof functions (`law_*`). Calls into `colored`, `tabled`, `stellar-strkey`,
  `url`, `wasmparser` and `std::str::from_utf8` go through small trusted
  wrappers whose contracts are documented beside them.
- `tests/` runs the library on concrete values.
- `app/` is the `grat` command-line program: argument parsing, logging,
  sockets, HTTP requests and JSON, around the library's decisions.
