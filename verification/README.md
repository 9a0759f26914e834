# courier

A tunnelling relay server and its client. A client on a private machine opens
a WebSocket to the relay, registers a tunnel for a local port, and keeps it
alive; the relay keeps a registry of live tunnels, announces them to
dashboards, stores them in SQLite and serves a small authenticated HTTP API.

## Layout

- `src/` is the library, verified with Verus. It holds every decision of the
  system with its contract: protocol checks and messages, the tunnel registry,
  the WebSocket session steps, the client's reconnection back-off and
  handshake, the local proxy's step function, the HTTP API's request checks
  and error responses, token handling, and the access log's file rules.
  Laws that relate several operations are public proof functions named
  `law_*`.
- `app/` is the program around it (`courier server ...`, `courier client ...`):
  sockets, SQL, files, timers and the serde forms of the messages. It performs
  what the library decides.
- `tests/` runs the library on concrete values.
