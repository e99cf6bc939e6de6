//! The state that all connections share.

use std::sync::Arc;
use tokio_rustls::rustls::ClientConfig;
use vstd::prelude::*;

verus! {

/// What outgoing connections take from the proxy. A reload replaces the configuration as a
/// whole; connections that took it out before keep the one they have.
pub struct State {
    /// The trust roots, client certificates and session cache of every connection.
    pub base_client_config: Arc<ClientConfig>,
}

impl State {
    /// The configuration that the state holds at this moment, shared with it.
    pub fn base_config(&self) -> (config: Arc<ClientConfig>)
        ensures
            config == self.base_client_config,
    {
        self.base_client_config.clone()
    }
}

} // verus!
