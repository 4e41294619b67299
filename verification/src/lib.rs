//! Session lifecycle for a WireGuard-style VPN client.
//!
//! The library holds the verified core: configuration validation, key
//! handling, address parsing, the interface-configuration builder, and the
//! session state machine with its symmetric rollback of applied side effects.
//! All host interaction (files, sockets, netlink, shell utilities) lives
//! outside the library and hands plain values in and out.

pub mod config;
pub mod errors;
pub mod keys;
pub mod net;
pub mod host_cmd;
pub mod kill_switch;
pub mod dns;
pub mod route;
pub mod controller;
pub mod session;
pub mod enroll;

use vstd::prelude::*;
use crate::config::ClientConfig;
use crate::errors::VpnError;
use crate::keys::{b64_decode_of, decode_key, is_valid_key_b64};
use crate::net::{valid_cidr, valid_endpoint, parse_endpoint, parse_cidr};

verus! {

/// One remote peer of the tunnel interface, as plain values.
#[derive(Clone, Debug)]
pub struct PeerConfig {
    /// The peer's public key, exactly 32 bytes.
    pub public_key: Vec<u8>,
    /// The peer's socket address, `address:port`.
    pub endpoint: Option<String>,
    /// Keepalive interval in seconds.
    pub persistent_keepalive_interval: Option<u16>,
    /// The address ranges routed through this peer, in CIDR notation.
    pub allowed_ips: Vec<String>,
}

/// The full configuration of the tunnel interface, as plain values; the
/// protocol library receives a faithful copy of this.
#[derive(Clone, Debug)]
pub struct InterfaceSpec {
    pub name: String,
    /// The local private key, base64-encoded.
    pub prvkey: String,
    /// The local addresses, in CIDR notation.
    pub addresses: Vec<String>,
    /// The listening port; zero asks for an ephemeral one.
    pub port: u16,
    pub peers: Vec<PeerConfig>,
    pub mtu: Option<u16>,
}

/// Whether the configuration can be built into an interface configuration:
/// the server key decodes to 32 bytes, the endpoint and the local address
/// parse, and a private key is present.
pub open spec fn buildable(cfg: ClientConfig) -> bool {
    &&& is_valid_key_b64(cfg.server_public_key_b64@)
    &&& valid_endpoint(cfg.server_endpoint@)
    &&& cfg.client_private_key_b64 is Some
    &&& valid_cidr(cfg.address_cidr@)
}

/// A configuration holding the documented default endpoint and local
/// address is buildable as soon as its keys are in place: the private key
/// present and the server key decoding to 32 bytes.
pub proof fn lemma_default_config_buildable(cfg: ClientConfig)
    requires
        cfg.server_endpoint@ == "127.0.0.1:51820"@,
        cfg.address_cidr@ == "10.8.0.2/32"@,
        cfg.client_private_key_b64 is Some,
        is_valid_key_b64(cfg.server_public_key_b64@),
    ensures
        buildable(cfg),
{
    crate::net::lemma_default_text_grammars();
}

/// Build the tunnel interface configuration: one peer carrying the decoded
/// server key, the configured endpoint and keepalive, and the allowed
/// ranges that the tunnel mode dictates — the whole address space for a
/// full tunnel, only the VPN subnet for a split tunnel.
///
/// A server key that does not decode to exactly 32 bytes is
/// `KeyFormatError`; a malformed endpoint or address, or a missing private
/// key, is `ConfigError`.
pub fn build_interface_config(cfg: &ClientConfig, ifname: &str) -> (r: Result<
    InterfaceSpec,
    VpnError,
>)
    ensures
        r is Ok <==> buildable(*cfg),
        !is_valid_key_b64(cfg.server_public_key_b64@) ==> r == Err::<InterfaceSpec, VpnError>(
            VpnError::KeyFormatError,
        ),
        (is_valid_key_b64(cfg.server_public_key_b64@) && !buildable(*cfg)) ==> r == Err::<
            InterfaceSpec,
            VpnError,
        >(VpnError::ConfigError),
        r matches Ok(ic) ==> {
            &&& ic.name@ == ifname@
            &&& cfg.client_private_key_b64 matches Some(sk) && ic.prvkey@ == sk@
            &&& ic.addresses@.len() == 1
            &&& ic.addresses@[0]@ == cfg.address_cidr@
            &&& ic.port == 0
            &&& ic.mtu is None
            &&& ic.peers@.len() == 1
            &&& ic.peers@[0].public_key@ == b64_decode_of(cfg.server_public_key_b64@)->0
            &&& ic.peers@[0].public_key@.len() == 32
            &&& ic.peers@[0].endpoint matches Some(e) && e@ == cfg.server_endpoint@
            &&& ic.peers@[0].persistent_keepalive_interval == Some(cfg.keepalive_secs)
            &&& ic.peers@[0].allowed_ips@.len() == 1
            &&& cfg.split_tunnel ==> ic.peers@[0].allowed_ips@[0]@ == "10.8.0.0/24"@
            &&& !cfg.split_tunnel ==> ic.peers@[0].allowed_ips@[0]@ == "0.0.0.0/0"@
        },
{
    let server_pubkey = match decode_key(cfg.server_public_key_b64.as_str()) {
        Ok(k) => k,
        Err(_) => {
            return Err(VpnError::KeyFormatError);
        },
    };
    if parse_endpoint(cfg.server_endpoint.as_str()).is_none() {
        return Err(VpnError::ConfigError);
    }
    let prvkey = match &cfg.client_private_key_b64 {
        Some(k) => k.clone(),
        None => {
            return Err(VpnError::ConfigError);
        },
    };
    if parse_cidr(cfg.address_cidr.as_str()).is_none() {
        return Err(VpnError::ConfigError);
    }
    let range = if cfg.split_tunnel {
        String::from_str("10.8.0.0/24")
    } else {
        String::from_str("0.0.0.0/0")
    };
    let mut allowed_ips: Vec<String> = Vec::new();
    allowed_ips.push(range);
    let peer = PeerConfig {
        public_key: server_pubkey,
        endpoint: Some(cfg.server_endpoint.clone()),
        persistent_keepalive_interval: Some(cfg.keepalive_secs),
        allowed_ips,
    };
    let mut addresses: Vec<String> = Vec::new();
    addresses.push(cfg.address_cidr.clone());
    let mut peers: Vec<PeerConfig> = Vec::new();
    peers.push(peer);
    Ok(InterfaceSpec {
        name: ifname.to_owned(),
        prvkey,
        addresses,
        port: 0,
        peers,
        mtu: None,
    })
}

} // verus!
