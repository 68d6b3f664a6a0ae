# websocket

A WebSocket client with heartbeats, reconnection, message routing and an event bus. Its decisions
are written in Verus and proved; its input and output are ordinary Rust.

- `src/` is the verified library. It performs no input or output: a caller that owns the socket
  tells it what happened and carries out what it answers.
  - `config`, `error`, `message`, `event`: what the client is told, what can go wrong, what is
    exchanged, and who hears of it.
  - `connection`: the state of the connection, and when to connect again.
  - `heartbeat`: whether the peer still answers.
  - `client`: the life cycle, and what becomes of the frames that come and go.
  - `table`, `text`, `time`: what these are built on.
- `app/` is an example client around the library, on tokio and tokio-tungstenite. It holds the
  socket, the JSON form of messages, and the wait before an attempt to connect again, which is a
  floating-point product.
- `tests/` runs the library on concrete values.

Functions that depend on the clock come in pairs: `is_healthy_at` takes the time, and its contract
is exact; `is_healthy` reads the clock.
