//! The persisted client configuration and its defaults.

use vstd::prelude::*;

pub use crate::keys::ensure_client_keys;

verus! {

/// The client configuration as it is persisted: one immutable snapshot per
/// connection attempt.  Keys are carried base64-encoded; validation happens
/// when a session is built from this document.
#[derive(Clone, Debug)]
pub struct ClientConfig {
    pub interface_name: String,
    pub address_cidr: String,
    pub server_endpoint: String,
    pub server_public_key_b64: String,
    pub keepalive_secs: u16,
    pub split_tunnel: bool,
    pub kill_switch: bool,
    pub client_private_key_b64: Option<String>,
    pub enroll_url: Option<String>,
    pub welcome_url: Option<String>,
}

impl Default for ClientConfig {
    /// The documented defaults, written out when no configuration exists.
    fn default() -> (r: Self)
        ensures
            r.interface_name@ == "wg-client"@,
            r.address_cidr@ == "10.8.0.2/32"@,
            r.server_endpoint@ == "127.0.0.1:51820"@,
            r.server_public_key_b64@ == Seq::<char>::empty(),
            r.keepalive_secs == 25,
            !r.split_tunnel,
            !r.kill_switch,
            r.client_private_key_b64 is None,
            r.enroll_url matches Some(u) && u@ == "http://127.0.0.1:8080/enroll"@,
            r.welcome_url matches Some(u) && u@ == "http://127.0.0.1:8080/"@,
    {
        ClientConfig {
            interface_name: String::from_str("wg-client"),
            address_cidr: String::from_str("10.8.0.2/32"),
            server_endpoint: String::from_str("127.0.0.1:51820"),
            server_public_key_b64: String::new(),
            keepalive_secs: 25,
            split_tunnel: false,
            kill_switch: false,
            client_private_key_b64: None,
            enroll_url: Some(String::from_str("http://127.0.0.1:8080/enroll")),
            welcome_url: Some(String::from_str("http://127.0.0.1:8080/")),
        }
    }
}

/// Merge an imported document into the configuration: the imported server
/// endpoint and server public key override the stored ones where present;
/// everything else is kept.
pub fn merge_imported(
    cfg: ClientConfig,
    server_endpoint: Option<String>,
    server_public_key_b64: Option<String>,
) -> (r: ClientConfig)
    ensures
        server_endpoint matches Some(e) ==> r.server_endpoint == e,
        server_endpoint is None ==> r.server_endpoint == cfg.server_endpoint,
        server_public_key_b64 matches Some(k) ==> r.server_public_key_b64 == k,
        server_public_key_b64 is None ==> r.server_public_key_b64 == cfg.server_public_key_b64,
        r.interface_name == cfg.interface_name,
        r.address_cidr == cfg.address_cidr,
        r.keepalive_secs == cfg.keepalive_secs,
        r.split_tunnel == cfg.split_tunnel,
        r.kill_switch == cfg.kill_switch,
        r.client_private_key_b64 == cfg.client_private_key_b64,
        r.enroll_url == cfg.enroll_url,
        r.welcome_url == cfg.welcome_url,
{
    let endpoint = match server_endpoint {
        Some(e) => e,
        None => cfg.server_endpoint,
    };
    let server_key = match server_public_key_b64 {
        Some(k) => k,
        None => cfg.server_public_key_b64,
    };
    ClientConfig {
        server_endpoint: endpoint,
        server_public_key_b64: server_key,
        interface_name: cfg.interface_name,
        address_cidr: cfg.address_cidr,
        keepalive_secs: cfg.keepalive_secs,
        split_tunnel: cfg.split_tunnel,
        kill_switch: cfg.kill_switch,
        client_private_key_b64: cfg.client_private_key_b64,
        enroll_url: cfg.enroll_url,
        welcome_url: cfg.welcome_url,
    }
}

} // verus!
