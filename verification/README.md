# chain_network

Network connections of a blockchain node: a client of the node-to-node protocol
that fetches headers and blocks from a remote node, and the errors of the gRPC
server.

- `src/` decides. It keeps the requests that wait for an answer, routes what the
  remote node sends to whoever asked, and says what to do on the network next.
  It is verified with Verus. `client/laws*.rs` states what holds of a connection
  as a whole.
- `app/` waits. It owns the sockets, futures and streams, and carries out what
  `src/` says.
- `tests/` runs the library on concrete exchanges, over real channels.

A connection can be driven in two ways: by polling (`client::connection`) or by
working off a queue of commands (`client::session`).
