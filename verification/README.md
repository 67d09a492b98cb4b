# external_capture

A capture source for frames that a client on the local network observed and forwards over
an authenticated WebSocket. The library decides: who may connect, which messages are taken,
in which order frames reach the bridge of their session, and when a connection or the
listener ends. Its decisions are stated as contracts and proved with Verus.

- `src/` is the library. `laws.rs` collects what holds of it as a whole, such as that the
  bridge of a session is fed the frames 1, 2, 3 and so on, without gaps or repetitions.
- `app/` is the network around it: the listener, the handshake, JSON, and the calls to the
  bridges of the surrounding program, which it reaches through the trait `Host`.
- `tests/` runs the library with the real `base64` and `http` crates.
