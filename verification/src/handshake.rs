//! What goes into a client handshake, and what comes of it.

use crate::client_config;
use std::sync::Arc;
use tokio_rustls::rustls::pki_types::ServerName;
use tokio_rustls::rustls::ClientConfig;
use tokio_rustls::{TlsConnector, TlsStream};
use vstd::prelude::*;

verus! {

/// A client handshake that is ready to run: `connector.connect(domain, stream)`.
pub struct ClientHandshake<IO> {
    pub connector: TlsConnector,
    pub domain: ServerName<'static>,
    pub stream: IO,
}

impl<IO> ClientHandshake<IO> {
    /// The configuration that the handshake runs with.
    pub open spec fn config(self) -> ClientConfig {
        client_config::connector_config(self.connector)
    }
}

/// Prepares a handshake over `stream` with the server `domain`. It authenticates both sides
/// with what `base_config` holds, and offers `alpn_protocols` in place of the ALPN list of
/// `base_config`, which itself stays as it is.
pub fn prepare_handshake<IO>(
    stream: IO,
    domain: ServerName<'static>,
    base_config: Arc<ClientConfig>,
    alpn_protocols: Vec<Vec<u8>>,
) -> (handshake: ClientHandshake<IO>)
    ensures
        handshake.stream == stream,
        handshake.domain == domain,
        client_config::offered_alpn(client_config::connector_config(handshake.connector))
            == alpn_protocols.deep_view(),
        client_config::without_alpn(client_config::connector_config(handshake.connector))
            == client_config::without_alpn(*base_config),
        client_config::offers_instead(handshake.config(), *base_config, alpn_protocols.deep_view()),
{
    let mut local_config = (*base_config).clone();
    client_config::set_alpn_protocols(&mut local_config, alpn_protocols);
    let connector = TlsConnector::from(Arc::new(local_config));
    ClientHandshake { connector, domain, stream }
}

/// The result of a connection attempt whose handshake ended in `outcome`: the client's end of
/// the connection if the handshake succeeded, and the handshake's own error if it did not.
pub fn finish_handshake<IO>(
    outcome: Result<tokio_rustls::client::TlsStream<IO>, std::io::Error>,
) -> (result: Result<TlsStream<IO>, std::io::Error>)
    ensures
        outcome matches Ok(stream) ==> result == Ok::<_, std::io::Error>(TlsStream::Client(stream)),
        outcome matches Err(error) ==> result == Err::<TlsStream<IO>, _>(error),
{
    match outcome {
        Ok(stream) => Ok(TlsStream::Client(stream)),
        Err(error) => Err(error),
    }
}

} // verus!
