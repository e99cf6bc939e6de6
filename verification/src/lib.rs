//! The client side of a mutually authenticated TLS connection.
//!
//! A proxy keeps one [`state::State`] that holds the client configuration every
//! outgoing connection starts from: the trust roots, the client certificates, the
//! session cache. For each connection
//! - [`state::State::base_config`] takes that configuration out of the state,
//! - [`handshake::prepare_handshake`] turns it into the connector, server name and
//!   transport that the TLS handshake runs on, offering the ALPN protocols of this one
//!   connection,
//! - [`handshake::finish_handshake`] turns the handshake's outcome into the result.
//!
//! What holds across connections is in [`laws`]. The outside types, and what is
//! believed of the calls into them, are in [`client_config`] and [`stream`].

pub mod client_config;
pub mod handshake;
pub mod laws;
pub mod state;
pub mod stream;
