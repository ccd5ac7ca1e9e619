# faucet-server

A load balancer and router for R and Python web applications (Shiny,
Plumber, Quarto documents, FastAPI): it starts worker processes, spreads
requests over them, keeps WebSocket sessions reconnectable, and logs every
request.

The library in `src/` is written in Verus: each function states what it
does in `requires` / `ensures` clauses, and the load balancing strategies,
routing, cookie handling, WebSocket session cache, locks, counters and log
formatting are proved against those statements. Calls into other crates
(SHA-1, Base64, UUIDs, cookies, query strings, header formatting) sit
behind small trusted wrappers whose contracts say what those crates do.

- `src/client/load_balancing/`: round robin, IP hash, cookie hash and
  requests-per-second strategies, and client address extraction.
- `src/client/websockets.rs`: the handshake answer, upgrade parameters and
  the cache of worker connections kept for reconnecting clients.
- `src/client/worker.rs`: how workers are started and supervised.
- `src/server/`: server settings, routing, the request pipeline's
  decisions, and log lines.
- `app/`: the `faucet` program: command line, sockets, processes,
  PostgreSQL telemetry.
- `tests/`: tests of the library.
