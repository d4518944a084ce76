# nethernet

Connection logic of NetherNet, a transport that carries messages over WebRTC data
channels. The library is written in Verus: every function states what it does, and
the proof is part of the source.

- `src/` decides. A negotiation says which step comes next, is handed the result of
  that step, and moves on; a session, a listener and a stream likewise keep their
  state and say what follows from an event.
  - `session`: the state of an established session, messages on their way out, and
    the reading of a data channel.
  - `delivery`: what becomes of messages, from the channels to the receiver. It is
    about the steps of `session` and holds statements and proofs only.
  - `transport::negotiation`, `transport::answer`: the two ends of a negotiation.
  - `transport::listener`: the routing of signals to connections.
  - `transport::stream`: the byte stream over a session, and the start of a
    connection.
  - `transport::wait`, `transport::watch`: the waits of a negotiation, and the
    signals beside a connection.
  - `transport::description`: what the text of a session description tells.
  - `signal`, `error`, `addr`, `buffer`: the values that these exchange.
- `app/` performs: it runs the steps on the `webrtc` crate and the `tokio` runtime. The
  signaling service and the message format are given to it through the traits
  `Signaling` and `Protocol`.
- `tests/` runs the library on concrete values.

Functions whose names begin with `law_` state what holds across several functions,
such as that no connection stands before both of its data channels opened.
