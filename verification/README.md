# bittrade_websockets

A server that keeps websocket connections to crypto exchanges and writes
normalised prices for each watched pair to a unix socket
(`<folder>/<exchange>_<pair>.sock`). Pairs are added at run time through a
control socket.

Layout:

- `src/` — the verified library (Verus): control commands and their framing
  on the control socket, the interactive prompt as a state machine, the
  exchange manager and the Binance exchange state (built on a keyed
  registry), the Binance subscription messages, the decisions taken on
  websocket frames, reconnections, pong checks and price sockets.
- `app/` — the program around it: the tokio tasks, sockets, websocket I/O,
  the terminal prompt, serialisation with `serde`/`bincode`, and the price
  handling that works on floating-point numbers.
- `tests/` — tests of the library.
