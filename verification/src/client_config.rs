//! `rustls::ClientConfig` and `tokio_rustls::TlsConnector`: what they hold, and the calls
//! that this library makes on them.

use std::sync::Arc;
use tokio_rustls::rustls::ClientConfig;
use tokio_rustls::TlsConnector;
use vstd::prelude::*;

verus! {

/// Declares `rustls::ClientConfig`, the settings of a TLS client. Opaque: contracts speak of
/// it through [`offered_alpn`] and [`without_alpn`].
#[verifier::external_type_specification]
#[verifier::external_body]
pub struct ExClientConfig(tokio_rustls::rustls::ClientConfig);

/// Declares `tokio_rustls::TlsConnector`. Opaque: contracts speak of it through
/// [`connector_config`].
#[verifier::external_type_specification]
#[verifier::external_body]
pub struct ExTlsConnector(tokio_rustls::TlsConnector);

/// The contents of the field `ClientConfig::alpn_protocols`: the protocol names that a
/// client hello offers, in order of preference.
pub uninterp spec fn offered_alpn(config: ClientConfig) -> Seq<Seq<u8>>;

/// Every field of the configuration but `alpn_protocols`, as the configuration whose ALPN
/// list is empty and which is otherwise `config`. It holds the server certificate verifier
/// with its roots, the client certificate resolver, the session store, the protocol versions,
/// the crypto provider and the remaining switches.
pub uninterp spec fn without_alpn(config: ClientConfig) -> ClientConfig;

/// The configuration that `TlsConnector::config` gives back: the one that each connection
/// made by the connector uses.
pub uninterp spec fn connector_config(connector: TlsConnector) -> ClientConfig;

/// `config` is `base` with its ALPN list replaced by `alpn_protocols`, and nothing else
/// changed.
pub open spec fn offers_instead(
    config: ClientConfig,
    base: ClientConfig,
    alpn_protocols: Seq<Seq<u8>>,
) -> bool {
    &&& offered_alpn(config) == alpn_protocols
    &&& without_alpn(config) == without_alpn(base)
}

/// `ClientConfig::clone`. The implementation is derived, so the copy holds a copy of every
/// field: the same ALPN list, and apart from it the same settings. Fields behind an `Arc`
/// (verifier, certificate resolver, session store) are shared with the original.
pub assume_specification[ <ClientConfig as Clone>::clone ](config: &ClientConfig) -> (copy:
    ClientConfig)
    ensures
        offered_alpn(copy) == offered_alpn(*config),
        without_alpn(copy) == without_alpn(*config),
;

/// Assigns the public field `ClientConfig::alpn_protocols`. The ALPN list is then
/// `alpn_protocols`; an assignment to one field leaves the others as they were.
#[verifier::external_body]
pub(crate) fn set_alpn_protocols(config: &mut ClientConfig, alpn_protocols: Vec<Vec<u8>>)
    ensures
        offered_alpn(*final(config)) == alpn_protocols.deep_view(),
        without_alpn(*final(config)) == without_alpn(*old(config)),
{
    config.alpn_protocols = alpn_protocols;
}

/// `TlsConnector::from`. The connector stores the configuration it is given, and its
/// `config` method gives back that one.
pub assume_specification[ <TlsConnector as From<Arc<ClientConfig>>>::from ](
    inner: Arc<ClientConfig>,
) -> (connector: TlsConnector)
    ensures
        connector_config(connector) == *inner,
;

} // verus!
