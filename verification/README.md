# chain_monitor

A monitor for several blockchains (Bitcoin, Ethereum, Cardano, Solana,
Polkadot): an HTTP API that reports each chain's latest blocks and
throughput, and a terminal dashboard that reads from it.

- `src/` is the library, verified with Verus: chain names, the block and
  metrics records, the JSON-RPC calls that the clients make and how they
  read the answers, the metrics arithmetic (as exact ratios), the API's
  request routing, and the dashboard's state (bounded histories, log,
  selection, tabs, keys, clock stamps) and screen texts, and which clients
  the API's settings ask for.
- `tests/` exercises the library.
- `app/` holds the programs: the network side of the clients, the axum
  server, and the ratatui dashboard. `app/main.rs` starts the server, or the
  dashboard when given the argument `tui`.

Two limits of the current manifest: the Solana client in `app/solana.rs`
needs `solana_client`, `solana_sdk` and `solana_transaction_status`, which
`Cargo.toml` does not list, so `app/` does not compile without them; and
reqwest and ethers are built without TLS, so `https` and `wss` endpoints
(Blockfrost among them) cannot be reached as built.
