//! The validated session configuration: one immutable snapshot per
//! connection attempt, built from the persisted document.

use vstd::prelude::*;
use crate::config::ClientConfig;
use crate::errors::VpnError;
use crate::keys::{b64_decode_of, decode_key, is_valid_key_b64};
use crate::net::{
    CidrBlock, EndpointAddr, HostAddr, parse_cidr, parse_endpoint, spec_parse_cidr,
    spec_parse_cidr_v6, spec_parse_endpoint, spec_parse_endpoint_v6, valid_cidr, valid_endpoint,
};

verus! {

/// How traffic is routed: everything through the tunnel, or only the VPN
/// subnet.
#[derive(Clone, Copy, Debug, PartialEq, Eq, Structural)]
pub enum TunnelMode {
    Full,
    Split,
}

/// The tunnel mode a split-tunnel flag selects.
pub open spec fn mode_of(split_tunnel: bool) -> TunnelMode {
    if split_tunnel {
        TunnelMode::Split
    } else {
        TunnelMode::Full
    }
}

/// An immutable, validated snapshot of everything one connection attempt
/// needs.
#[derive(Clone, Debug)]
pub struct SessionConfig {
    pub interface_name: String,
    /// The local address with its prefix length.
    pub address: CidrBlock,
    /// The remote socket address.
    pub endpoint: EndpointAddr,
    /// The remote public key, exactly 32 bytes.
    pub server_public_key: Vec<u8>,
    /// The local private key, exactly 32 bytes.
    pub client_private_key: Vec<u8>,
    pub keepalive_secs: u16,
    pub tunnel_mode: TunnelMode,
    pub kill_switch: bool,
}

impl SessionConfig {
    /// The invariant every constructed session configuration satisfies:
    /// both keys are exactly 32 bytes and the keepalive is positive.
    pub open spec fn wf(self) -> bool {
        &&& self.server_public_key@.len() == 32
        &&& self.client_private_key@.len() == 32
        &&& self.keepalive_secs > 0
    }
}

/// Whether the persisted document yields a valid session: both keys
/// present and decoding to 32 bytes, endpoint and address parsing, and a
/// positive keepalive.
pub open spec fn session_ok(cfg: ClientConfig) -> bool {
    &&& cfg.client_private_key_b64 matches Some(sk) && is_valid_key_b64(sk@)
    &&& is_valid_key_b64(cfg.server_public_key_b64@)
    &&& valid_endpoint(cfg.server_endpoint@)
    &&& valid_cidr(cfg.address_cidr@)
    &&& cfg.keepalive_secs > 0
}

/// Validate the persisted document into a session configuration.
///
/// A missing private key is `ConfigError`; a key that does not decode to
/// exactly 32 bytes is `KeyFormatError`; a malformed endpoint or address,
/// or a zero keepalive, is `ConfigError`.  Nothing is mutated on any path.
pub fn session_config_from_client(cfg: &ClientConfig) -> (r: Result<SessionConfig, VpnError>)
    ensures
        r is Ok <==> session_ok(*cfg),
        cfg.client_private_key_b64 is None ==> r == Err::<SessionConfig, VpnError>(
            VpnError::ConfigError,
        ),
        (cfg.client_private_key_b64 matches Some(sk) && !is_valid_key_b64(sk@)) ==> r == Err::<
            SessionConfig,
            VpnError,
        >(VpnError::KeyFormatError),
        (cfg.client_private_key_b64 matches Some(sk) && is_valid_key_b64(sk@)
            && !is_valid_key_b64(cfg.server_public_key_b64@)) ==> r == Err::<
            SessionConfig,
            VpnError,
        >(VpnError::KeyFormatError),
        r matches Ok(sc) ==> {
            &&& sc.wf()
            &&& sc.interface_name@ == cfg.interface_name@
            &&& cfg.client_private_key_b64 matches Some(sk) && b64_decode_of(sk@) == Some(
                sc.client_private_key@,
            )
            &&& b64_decode_of(cfg.server_public_key_b64@) == Some(sc.server_public_key@)
            &&& match sc.endpoint.host {
                HostAddr::V4(q) => spec_parse_endpoint(cfg.server_endpoint@) == Some(
                    ((q.a as int, q.b as int, q.c as int, q.d as int), sc.endpoint.port as int),
                ),
                HostAddr::V6(h) => spec_parse_endpoint_v6(cfg.server_endpoint@) matches Some(x)
                    && x.0 == h@ && x.1 == sc.endpoint.port as int,
            }
            &&& match sc.address.addr {
                HostAddr::V4(q) => spec_parse_cidr(cfg.address_cidr@) == Some(
                    ((q.a as int, q.b as int, q.c as int, q.d as int), sc.address.prefix as int),
                ),
                HostAddr::V6(h) => spec_parse_cidr_v6(cfg.address_cidr@) matches Some(x) && x.0
                    == h@ && x.1 == sc.address.prefix as int,
            }
            &&& sc.keepalive_secs == cfg.keepalive_secs
            &&& sc.tunnel_mode == mode_of(cfg.split_tunnel)
            &&& sc.kill_switch == cfg.kill_switch
        },
{
    let client_private_key = match &cfg.client_private_key_b64 {
        None => {
            return Err(VpnError::ConfigError);
        },
        Some(sk_b64) => decode_key(sk_b64.as_str())?,
    };
    let server_public_key = decode_key(cfg.server_public_key_b64.as_str())?;
    let endpoint = match parse_endpoint(cfg.server_endpoint.as_str()) {
        None => {
            return Err(VpnError::ConfigError);
        },
        Some(e) => e,
    };
    let address = match parse_cidr(cfg.address_cidr.as_str()) {
        None => {
            return Err(VpnError::ConfigError);
        },
        Some(c) => c,
    };
    if cfg.keepalive_secs == 0 {
        return Err(VpnError::ConfigError);
    }
    let tunnel_mode = if cfg.split_tunnel {
        TunnelMode::Split
    } else {
        TunnelMode::Full
    };
    Ok(SessionConfig {
        interface_name: cfg.interface_name.clone(),
        address,
        endpoint,
        server_public_key,
        client_private_key,
        keepalive_secs: cfg.keepalive_secs,
        tunnel_mode,
        kill_switch: cfg.kill_switch,
    })
}

} // verus!
