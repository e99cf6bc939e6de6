# client_tls

The client side of a mutually authenticated TLS connection, on `tokio-rustls`.

- `src/` is the verified library. It takes the shared client configuration out of the proxy's
  state, prepares a handshake that offers the ALPN protocols of one connection and is
  otherwise configured as the state says, and turns the handshake's outcome into the result.
  `src/laws.rs` states what holds across connections.
- `app/` awaits the state's lock and the handshake itself.
- `tests/` looks into prepared handshakes, and runs them against an in-memory TLS server
  that demands a client certificate.
