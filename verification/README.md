# asgi_io

The decision logic of an ASGI server's connection protocols, verified with
[Verus](https://github.com/verus-lang/verus).

An ASGI application and its server talk in events, which are dictionaries. This
library says what each event means, whether it may come now, what the server has
to do about it and what the application gets back. It performs no I/O: it hands
out actions, and is told how they went.

- `src/types.rs`: events that an application sends, and how they are refused.
- `src/adapt.rs`: what the keys of such an event mean.
- `src/headers.rs`: response headers, on top of hyper's `HeaderMap`.
- `src/message.rs`: websocket messages, and the events that an application
  receives.
- `src/http.rs`, `src/http_laws.rs`: the HTTP exchange as a state machine, and
  what holds of it over any number of calls.
- `src/websocket.rs`, `src/websocket_laws.rs`: the same for websockets.
- `app/`: the protocols driven over hyper, tokio, tungstenite and pyo3.
