use client_tls::handshake::prepare_handshake;
use client_tls::state::State;
use std::sync::Arc;
use tokio_rustls::rustls::client::Resumption;
use tokio_rustls::rustls::pki_types::ServerName;
use tokio_rustls::rustls::{ClientConfig, KeyLogFile, RootCertStore};

fn base() -> ClientConfig {
    ClientConfig::builder()
        .with_root_certificates(RootCertStore::empty())
        .with_no_client_auth()
}

fn localhost() -> ServerName<'static> {
    ServerName::try_from("localhost").unwrap()
}

fn names(list: &[&[u8]]) -> Vec<Vec<u8>> {
    list.iter().map(|name| name.to_vec()).collect()
}

#[test]
fn offers_the_given_protocols_in_order() {
    let alpn = names(&[b"h2", b"http/1.1"]);
    let handshake = prepare_handshake(0u8, localhost(), Arc::new(base()), alpn.clone());
    assert_eq!(handshake.connector.config().alpn_protocols, alpn);
}

#[test]
fn replaces_the_protocols_of_the_base() {
    let mut config = base();
    config.alpn_protocols = names(&[b"h2", b"http/1.1"]);
    let shared = Arc::new(config);
    let handshake = prepare_handshake(0u8, localhost(), shared.clone(), names(&[b"http/1.0"]));
    assert_eq!(
        handshake.connector.config().alpn_protocols,
        names(&[b"http/1.0"])
    );
    assert_eq!(shared.alpn_protocols, names(&[b"h2", b"http/1.1"]));
}

#[test]
fn an_empty_list_clears_the_protocols_of_the_base() {
    let mut config = base();
    config.alpn_protocols = names(&[b"h2"]);
    let handshake = prepare_handshake(0u8, localhost(), Arc::new(config), Vec::new());
    assert!(handshake.connector.config().alpn_protocols.is_empty());
}

#[test]
fn repeated_and_empty_names_are_kept() {
    let alpn = names(&[b"h2", b"", b"h2", b"\x00\xff"]);
    let handshake = prepare_handshake(0u8, localhost(), Arc::new(base()), alpn.clone());
    assert_eq!(handshake.connector.config().alpn_protocols, alpn);
}

#[test]
fn carries_the_domain_and_the_stream() {
    let stream = vec![3u32, 1, 4];
    let address = ServerName::try_from("192.0.2.7").unwrap();
    let handshake = prepare_handshake(stream, address.clone(), Arc::new(base()), Vec::new());
    assert_eq!(handshake.stream, vec![3u32, 1, 4]);
    assert_eq!(handshake.domain, address);
    assert_ne!(handshake.domain, localhost());
}

#[test]
fn keeps_everything_else_of_the_base() {
    let mut config = base();
    config.check_selected_alpn = false;
    config.resumption = Resumption::disabled();
    config.max_fragment_size = Some(512);
    config.enable_sni = false;
    config.key_log = Arc::new(KeyLogFile::new());
    config.enable_secret_extraction = true;
    config.enable_early_data = true;
    config.require_ems = true;
    let shared = Arc::new(config);
    let handshake = prepare_handshake(0u8, localhost(), shared.clone(), names(&[b"h2"]));
    let local = handshake.connector.config();
    assert!(!local.check_selected_alpn);
    assert_eq!(local.max_fragment_size, Some(512));
    assert!(!local.enable_sni);
    assert!(local.enable_secret_extraction);
    assert!(local.enable_early_data);
    assert!(local.require_ems);
    assert!(Arc::ptr_eq(&local.key_log, &shared.key_log));
    assert!(Arc::ptr_eq(&local.time_provider, &shared.time_provider));
    assert!(Arc::ptr_eq(
        &local.client_auth_cert_resolver,
        &shared.client_auth_cert_resolver
    ));
    assert!(Arc::ptr_eq(local.crypto_provider(), shared.crypto_provider()));
    assert!(Arc::ptr_eq(
        &local.cert_compression_cache,
        &shared.cert_compression_cache
    ));
    let mut unaltered = (**local).clone();
    unaltered.alpn_protocols = shared.alpn_protocols.clone();
    assert_eq!(format!("{unaltered:?}"), format!("{shared:?}"));
}

#[test]
fn connections_share_the_certificates() {
    let shared = Arc::new(base());
    let first = prepare_handshake(1u8, localhost(), shared.clone(), names(&[b"h2"]));
    let second = prepare_handshake(2u8, localhost(), shared.clone(), names(&[b"http/1.1"]));
    assert!(Arc::ptr_eq(
        &first.connector.config().client_auth_cert_resolver,
        &second.connector.config().client_auth_cert_resolver
    ));
    assert_ne!(
        first.connector.config().alpn_protocols,
        second.connector.config().alpn_protocols
    );
}

#[test]
fn the_last_protocols_win() {
    let shared = Arc::new(base());
    let first = prepare_handshake(1u8, localhost(), shared.clone(), names(&[b"h2"]));
    let again = first.connector.config().clone();
    let second = prepare_handshake(2u8, localhost(), again, names(&[b"http/1.1"]));
    let direct = prepare_handshake(3u8, localhost(), shared, names(&[b"http/1.1"]));
    assert_eq!(
        format!("{:?}", second.connector.config()),
        format!("{:?}", direct.connector.config())
    );
}

#[test]
fn the_state_hands_out_what_it_holds() {
    let shared = Arc::new(base());
    let state = State {
        base_client_config: shared.clone(),
    };
    assert!(Arc::ptr_eq(&state.base_config(), &shared));
}

#[test]
fn a_reload_takes_effect_on_later_connections() {
    let mut old = base();
    old.max_fragment_size = Some(100);
    let mut new = base();
    new.max_fragment_size = Some(200);
    let mut state = State {
        base_client_config: Arc::new(old),
    };
    let earlier = state.base_config();
    state.base_client_config = Arc::new(new);
    let later = state.base_config();
    let before = prepare_handshake(1u8, localhost(), earlier, names(&[b"h2"]));
    let after = prepare_handshake(2u8, localhost(), later, names(&[b"h2"]));
    assert_eq!(before.connector.config().max_fragment_size, Some(100));
    assert_eq!(after.connector.config().max_fragment_size, Some(200));
}
