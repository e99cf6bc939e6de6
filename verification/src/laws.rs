//! What a connection gets, and what holds across connections. The first laws speak of calls of
//! the library's functions: `call_ensures(f, arguments, result)` says that `result` came of
//! calling `f` with `arguments`. The others speak of the configurations that handshakes run
//! with.

use crate::client_config;
use crate::handshake::{finish_handshake, prepare_handshake, ClientHandshake};
use crate::state::State;
use std::sync::Arc;
use tokio_rustls::rustls::pki_types::ServerName;
use tokio_rustls::rustls::ClientConfig;
use tokio_rustls::TlsStream;
use vstd::prelude::*;

verus! {

/// A prepared handshake offers exactly the protocols that it was given: as many names, each
/// in its place, byte for byte.
pub proof fn prepared_handshake_offers_the_given_names<IO>(
    stream: IO,
    domain: ServerName<'static>,
    base_config: Arc<ClientConfig>,
    alpn_protocols: Vec<Vec<u8>>,
    handshake: ClientHandshake<IO>,
)
    requires
        call_ensures(
            prepare_handshake::<IO>,
            (stream, domain, base_config, alpn_protocols),
            handshake,
        ),
    ensures
        ({
            let offered = client_config::offered_alpn(
                client_config::connector_config(handshake.connector),
            );
            &&& offered.len() == alpn_protocols@.len()
            &&& forall|i: int|
                0 <= i < alpn_protocols@.len() ==> (#[trigger] offered[i]).len()
                    == alpn_protocols@[i]@.len()
            &&& forall|i: int, k: int|
                0 <= i < alpn_protocols@.len() && 0 <= k < alpn_protocols@[i]@.len()
                    ==> #[trigger] offered[i][k] == alpn_protocols@[i]@[k]
        }),
{
}

/// Apart from the protocols a prepared handshake runs with what its base holds, and it runs
/// over the transport and with the server that it was given.
pub proof fn prepared_handshake_keeps_everything_else<IO>(
    stream: IO,
    domain: ServerName<'static>,
    base_config: Arc<ClientConfig>,
    alpn_protocols: Vec<Vec<u8>>,
    handshake: ClientHandshake<IO>,
)
    requires
        call_ensures(
            prepare_handshake::<IO>,
            (stream, domain, base_config, alpn_protocols),
            handshake,
        ),
    ensures
        client_config::without_alpn(client_config::connector_config(handshake.connector))
            == client_config::without_alpn(*base_config),
        handshake.stream == stream,
        handshake.domain == domain,
{
}

/// Two handshakes that were given the same protocols offer the same, whatever their bases,
/// servers and transports; and two that offer the same were given the same.
pub proof fn offers_agree_as_given<IO>(
    stream: IO,
    domain: ServerName<'static>,
    base_config: Arc<ClientConfig>,
    alpn_protocols: Vec<Vec<u8>>,
    handshake: ClientHandshake<IO>,
    other_stream: IO,
    other_domain: ServerName<'static>,
    other_base_config: Arc<ClientConfig>,
    other_alpn_protocols: Vec<Vec<u8>>,
    other_handshake: ClientHandshake<IO>,
)
    requires
        call_ensures(
            prepare_handshake::<IO>,
            (stream, domain, base_config, alpn_protocols),
            handshake,
        ),
        call_ensures(
            prepare_handshake::<IO>,
            (other_stream, other_domain, other_base_config, other_alpn_protocols),
            other_handshake,
        ),
    ensures
        client_config::offered_alpn(client_config::connector_config(handshake.connector))
            == client_config::offered_alpn(
            client_config::connector_config(other_handshake.connector),
        ) <==> alpn_protocols.deep_view() == other_alpn_protocols.deep_view(),
{
}

/// A connection whose configuration is taken out of a state uses the material that this state
/// holds.
pub proof fn connection_uses_the_material_of_its_state<IO>(
    state: State,
    base_config: Arc<ClientConfig>,
    stream: IO,
    domain: ServerName<'static>,
    alpn_protocols: Vec<Vec<u8>>,
    handshake: ClientHandshake<IO>,
)
    requires
        call_ensures(State::base_config, (&state,), base_config),
        call_ensures(
            prepare_handshake::<IO>,
            (stream, domain, base_config, alpn_protocols),
            handshake,
        ),
    ensures
        base_config == state.base_client_config,
        client_config::without_alpn(client_config::connector_config(handshake.connector))
            == client_config::without_alpn(*state.base_client_config),
{
}

/// A handshake that succeeded gives its own stream, as the client's end of the connection; one
/// that failed gives its own error.
pub proof fn result_is_the_outcome_of_the_handshake<IO>(
    outcome: Result<tokio_rustls::client::TlsStream<IO>, std::io::Error>,
    result: Result<TlsStream<IO>, std::io::Error>,
)
    requires
        call_ensures(finish_handshake::<IO>, (outcome,), result),
    ensures
        result is Ok <==> outcome is Ok,
        result is Ok ==> result->Ok_0 == TlsStream::Client(outcome->Ok_0),
        result is Err ==> result->Err_0 == outcome->Err_0,
{
}

/// A configuration that replaces the protocols of a base offers the replacement name by name,
/// and is the base otherwise; no more is asked of it.
pub proof fn replacement_is_exact(
    config: ClientConfig,
    base: ClientConfig,
    alpn: Seq<Seq<u8>>,
)
    ensures
        client_config::offers_instead(config, base, alpn) <==> {
            &&& client_config::offered_alpn(config).len() == alpn.len()
            &&& forall|i: int|
                0 <= i < alpn.len() ==> #[trigger] client_config::offered_alpn(config)[i] == alpn[i]
            &&& client_config::without_alpn(config) == client_config::without_alpn(base)
        },
{
    if client_config::offered_alpn(config).len() == alpn.len() && (forall|i: int|
        0 <= i < alpn.len() ==> #[trigger] client_config::offered_alpn(config)[i] == alpn[i]) {
        assert(client_config::offered_alpn(config) =~= alpn);
    }
}

/// The configuration of a handshake is the one that its connector holds.
pub proof fn handshake_runs_with_its_connector<IO>(handshake: ClientHandshake<IO>)
    ensures
        handshake.config() == client_config::connector_config(handshake.connector),
{
}

/// Two connections from one base configuration differ in nothing but the protocols that they
/// offer: they trust the same roots, present the same certificates and share one session
/// cache.
pub proof fn connections_share_everything_but_alpn(
    first: ClientConfig,
    first_alpn: Seq<Seq<u8>>,
    second: ClientConfig,
    second_alpn: Seq<Seq<u8>>,
    base: ClientConfig,
)
    requires
        client_config::offers_instead(first, base, first_alpn),
        client_config::offers_instead(second, base, second_alpn),
    ensures
        client_config::without_alpn(first) == client_config::without_alpn(second),
        client_config::offered_alpn(first) == client_config::offered_alpn(second)
            <==> first_alpn == second_alpn,
{
}

/// The ALPN list of the base configuration has no bearing on a connection: bases that differ
/// in that list alone admit the same configurations.
pub proof fn base_alpn_is_irrelevant(
    config: ClientConfig,
    alpn: Seq<Seq<u8>>,
    base: ClientConfig,
    other_base: ClientConfig,
)
    requires
        client_config::without_alpn(base) == client_config::without_alpn(other_base),
    ensures
        client_config::offers_instead(config, base, alpn) <==> client_config::offers_instead(
            config,
            other_base,
            alpn,
        ),
{
}

/// Of two replacements of the ALPN list the second alone counts: a configuration that is
/// made from an earlier connection's is one that is made from that connection's base.
pub proof fn last_alpn_wins(
    base: ClientConfig,
    first: ClientConfig,
    first_alpn: Seq<Seq<u8>>,
    second: ClientConfig,
    second_alpn: Seq<Seq<u8>>,
)
    requires
        client_config::offers_instead(first, base, first_alpn),
        client_config::offers_instead(second, first, second_alpn),
    ensures
        client_config::offers_instead(second, base, second_alpn),
{
}

/// A connection uses the material of the state as it was when its base configuration was
/// taken. So a connection from before a reload and one from after it use the same material
/// exactly if the reload brought no new material.
pub proof fn reload_takes_effect_on_later_connections(
    before: State,
    after: State,
    earlier: ClientConfig,
    earlier_alpn: Seq<Seq<u8>>,
    later: ClientConfig,
    later_alpn: Seq<Seq<u8>>,
)
    requires
        client_config::offers_instead(earlier, *before.base_client_config, earlier_alpn),
        client_config::offers_instead(later, *after.base_client_config, later_alpn),
    ensures
        client_config::without_alpn(earlier)
            == client_config::without_alpn(*before.base_client_config),
        client_config::without_alpn(later)
            == client_config::without_alpn(*after.base_client_config),
        client_config::without_alpn(earlier) == client_config::without_alpn(later)
            <==> client_config::without_alpn(*before.base_client_config)
            == client_config::without_alpn(*after.base_client_config),
{
}

} // verus!
