use base64::Engine as _;
use vpn_client::config::{ClientConfig, ensure_client_keys, merge_imported};
use vpn_client::errors::VpnError;
use vpn_client::keys::{decode_key, enrollment_public_key};
use vpn_client::net::HostAddr;
use vpn_client::session::{SessionConfig, TunnelMode, session_config_from_client};
use vpn_client::build_interface_config;

fn b64(bytes: &[u8]) -> String {
    base64::engine::general_purpose::STANDARD.encode(bytes)
}

// The fixed Curve25519 test vector: a known private key and the public key
// its clamped basepoint multiplication yields.
const VECTOR_PRIVATE: [u8; 32] = [
    0x77, 0x07, 0x6d, 0x0a, 0x73, 0x18, 0xa5, 0x7d, 0x3c, 0x16, 0xc1, 0x72, 0x51, 0xb2, 0x66,
    0x45, 0xdf, 0x4c, 0x2f, 0x87, 0xeb, 0xc0, 0x99, 0x2a, 0xb1, 0x77, 0xfb, 0xa5, 0x1d, 0xb9,
    0x2c, 0x2a,
];
const VECTOR_PUBLIC: [u8; 32] = [
    0x85, 0x20, 0xf0, 0x09, 0x89, 0x30, 0xa7, 0x54, 0x74, 0x8b, 0x7d, 0xdc, 0xb4, 0x3e, 0xf7,
    0x5a, 0x0d, 0xbf, 0x3a, 0x0d, 0x26, 0x38, 0x1a, 0xf4, 0xeb, 0xa4, 0xa9, 0x8e, 0xaa, 0x9b,
    0x4e, 0x6a,
];

#[test]
fn defaults_match_documented_values() {
    let cfg = ClientConfig::default();
    assert_eq!(cfg.interface_name, "wg-client");
    assert_eq!(cfg.address_cidr, "10.8.0.2/32");
    assert_eq!(cfg.server_endpoint, "127.0.0.1:51820");
    assert_eq!(cfg.server_public_key_b64, "");
    assert_eq!(cfg.keepalive_secs, 25);
    assert!(!cfg.split_tunnel);
    assert!(!cfg.kill_switch);
    assert!(cfg.client_private_key_b64.is_none());
    assert_eq!(cfg.enroll_url.as_deref(), Some("http://127.0.0.1:8080/enroll"));
    assert_eq!(cfg.welcome_url.as_deref(), Some("http://127.0.0.1:8080/"));
}

#[test]
fn public_key_matches_fixed_derivation_vector() {
    let mut cfg = ClientConfig::default();
    cfg.client_private_key_b64 = Some(b64(&VECTOR_PRIVATE));
    let pk_b64 = enrollment_public_key(&cfg).unwrap();
    let pk = base64::engine::general_purpose::STANDARD.decode(&pk_b64).unwrap();
    assert_eq!(pk.as_slice(), VECTOR_PUBLIC.as_slice());
}

#[test]
fn enrollment_public_key_needs_a_stored_key() {
    let cfg = ClientConfig::default();
    assert_eq!(enrollment_public_key(&cfg), Err(VpnError::ConfigError));
    let mut bad = ClientConfig::default();
    bad.client_private_key_b64 = Some(b64(&[7u8; 16]));
    assert_eq!(enrollment_public_key(&bad), Err(VpnError::KeyFormatError));
}

#[test]
fn key_of_wrong_length_is_rejected_not_truncated() {
    assert_eq!(decode_key(&b64(&[1u8; 31])), Err(VpnError::KeyFormatError));
    assert_eq!(decode_key(&b64(&[1u8; 33])), Err(VpnError::KeyFormatError));
    assert_eq!(decode_key(&b64(&[])), Err(VpnError::KeyFormatError));
    assert_eq!(decode_key("not//valid!!"), Err(VpnError::KeyFormatError));
    let good = [9u8; 32];
    assert_eq!(decode_key(&b64(&good)).unwrap(), good.to_vec());
}

#[test]
fn ensure_client_keys_keeps_an_existing_key() {
    let mut cfg = ClientConfig::default();
    cfg.client_private_key_b64 = Some(b64(&VECTOR_PRIVATE));
    let out = ensure_client_keys(cfg.clone());
    assert_eq!(out.client_private_key_b64, cfg.client_private_key_b64);
}

#[test]
fn ensure_client_keys_generates_a_decodable_key() {
    let out = ensure_client_keys(ClientConfig::default());
    let sk_b64 = out.client_private_key_b64.expect("a key must be generated");
    let sk = base64::engine::general_purpose::STANDARD.decode(&sk_b64).unwrap();
    assert_eq!(sk.len(), 32);
    assert_eq!(out.interface_name, "wg-client");
    assert_eq!(out.keepalive_secs, 25);
}

fn valid_config() -> ClientConfig {
    let mut cfg = ClientConfig::default();
    cfg.client_private_key_b64 = Some(b64(&VECTOR_PRIVATE));
    cfg.server_public_key_b64 = b64(&VECTOR_PUBLIC);
    cfg
}

#[test]
fn session_config_accepts_a_valid_document() {
    let sc: SessionConfig = session_config_from_client(&valid_config()).unwrap();
    assert_eq!(sc.interface_name, "wg-client");
    match &sc.endpoint.host {
        HostAddr::V4(q) => assert_eq!((q.a, q.b, q.c, q.d), (127, 0, 0, 1)),
        HostAddr::V6(_) => panic!("expected an IPv4 host"),
    }
    assert_eq!(sc.endpoint.port, 51820);
    match &sc.address.addr {
        HostAddr::V4(q) => assert_eq!(q.a, 10),
        HostAddr::V6(_) => panic!("expected an IPv4 address"),
    }
    assert_eq!(sc.address.prefix, 32);
    assert_eq!(sc.server_public_key, VECTOR_PUBLIC.to_vec());
    assert_eq!(sc.client_private_key, VECTOR_PRIVATE.to_vec());
    assert_eq!(sc.keepalive_secs, 25);
    assert_eq!(sc.tunnel_mode, TunnelMode::Full);
    assert!(!sc.kill_switch);
}

#[test]
fn session_config_accepts_an_ipv6_document() {
    let mut cfg = valid_config();
    cfg.server_endpoint = "[2001:db8::1]:51820".into();
    cfg.address_cidr = "fd00::2/128".into();
    let sc = session_config_from_client(&cfg).unwrap();
    match &sc.endpoint.host {
        HostAddr::V6(h) => assert_eq!(h, "2001:db8::1"),
        HostAddr::V4(_) => panic!("expected an IPv6 host"),
    }
    assert_eq!(sc.endpoint.port, 51820);
    match &sc.address.addr {
        HostAddr::V6(h) => assert_eq!(h, "fd00::2"),
        HostAddr::V4(_) => panic!("expected an IPv6 address"),
    }
    assert_eq!(sc.address.prefix, 128);
}

#[test]
fn session_config_split_flag_selects_split_mode() {
    let mut cfg = valid_config();
    cfg.split_tunnel = true;
    let sc = session_config_from_client(&cfg).unwrap();
    assert_eq!(sc.tunnel_mode, TunnelMode::Split);
}

#[test]
fn session_config_error_taxonomy() {
    let mut missing = valid_config();
    missing.client_private_key_b64 = None;
    assert_eq!(session_config_from_client(&missing).unwrap_err(), VpnError::ConfigError);

    let mut short_private = valid_config();
    short_private.client_private_key_b64 = Some(b64(&[1u8; 16]));
    assert_eq!(session_config_from_client(&short_private).unwrap_err(), VpnError::KeyFormatError);

    let mut short_server = valid_config();
    short_server.server_public_key_b64 = b64(&[1u8; 16]);
    assert_eq!(session_config_from_client(&short_server).unwrap_err(), VpnError::KeyFormatError);

    let mut bad_endpoint = valid_config();
    bad_endpoint.server_endpoint = "example.com:51820".into();
    assert_eq!(session_config_from_client(&bad_endpoint).unwrap_err(), VpnError::ConfigError);

    let mut bad_cidr = valid_config();
    bad_cidr.address_cidr = "10.8.0.2/33".into();
    assert_eq!(session_config_from_client(&bad_cidr).unwrap_err(), VpnError::ConfigError);

    let mut zero_keepalive = valid_config();
    zero_keepalive.keepalive_secs = 0;
    assert_eq!(session_config_from_client(&zero_keepalive).unwrap_err(), VpnError::ConfigError);
}

#[test]
fn build_interface_config_error_taxonomy() {
    let mut bad_server = valid_config();
    bad_server.server_public_key_b64 = b64(&[1u8; 31]);
    assert_eq!(
        build_interface_config(&bad_server, "wg-client").unwrap_err(),
        VpnError::KeyFormatError
    );

    let mut no_private = valid_config();
    no_private.client_private_key_b64 = None;
    assert_eq!(
        build_interface_config(&no_private, "wg-client").unwrap_err(),
        VpnError::ConfigError
    );

    let mut bad_endpoint = valid_config();
    bad_endpoint.server_endpoint = "127.0.0.1".into();
    assert_eq!(
        build_interface_config(&bad_endpoint, "wg-client").unwrap_err(),
        VpnError::ConfigError
    );
}

#[test]
fn import_overrides_only_what_it_names() {
    let cfg = valid_config();
    let merged = merge_imported(
        cfg.clone(),
        Some("203.0.113.9:51820".to_string()),
        None,
    );
    assert_eq!(merged.server_endpoint, "203.0.113.9:51820");
    assert_eq!(merged.server_public_key_b64, cfg.server_public_key_b64);
    assert_eq!(merged.interface_name, cfg.interface_name);

    let merged = merge_imported(cfg.clone(), None, Some(b64(&[3u8; 32])));
    assert_eq!(merged.server_endpoint, cfg.server_endpoint);
    assert_eq!(merged.server_public_key_b64, b64(&[3u8; 32]));
}

#[test]
fn error_descriptions_are_stable() {
    assert_eq!(VpnError::KeyFormatError.describe(), "key must decode to exactly 32 bytes");
    assert_eq!(VpnError::HandshakeTimeout.describe(), "handshake timeout");
    assert_eq!(VpnError::ConnectivityFailed.describe(), "connectivity probe failed");
}
