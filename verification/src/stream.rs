//! The types that a TLS handshake starts from and ends in.

use vstd::prelude::*;

verus! {

/// Declares `rustls::pki_types::ServerName`, the name that the server has to prove. Opaque:
/// it is carried through.
#[verifier::external_type_specification]
#[verifier::external_body]
pub struct ExServerName<'a>(tokio_rustls::rustls::pki_types::ServerName<'a>);

/// Declares `tokio_rustls::client::TlsStream`, the client's end of an established
/// connection. Opaque: it is carried through.
#[verifier::external_type_specification]
#[verifier::external_body]
#[verifier::reject_recursive_types(IO)]
pub struct ExClientStream<IO>(tokio_rustls::client::TlsStream<IO>);

/// Declares `tokio_rustls::server::TlsStream`, which the other variant of
/// `tokio_rustls::TlsStream` holds. Opaque.
#[verifier::external_type_specification]
#[verifier::external_body]
#[verifier::reject_recursive_types(IO)]
pub struct ExServerStream<IO>(tokio_rustls::server::TlsStream<IO>);

/// Declares `tokio_rustls::TlsStream`, either end of an established connection. Its two
/// variants are public and visible to proofs.
#[verifier::external_type_specification]
#[verifier::reject_recursive_types(IO)]
pub struct ExTlsStream<IO>(tokio_rustls::TlsStream<IO>);

/// Declares `std::io::Error`, the error of a failed handshake. Opaque: it is carried through.
#[verifier::external_type_specification]
#[verifier::external_body]
pub struct ExIoError(std::io::Error);

} // verus!
