//! Key material: base64 transport encoding and Curve25519 key derivation.
//!
//! The outside calls stand behind trusted wrappers; everything that decides
//! (length checks, error selection, which key is presented to the remote) is
//! verified against their contracts.

use vstd::prelude::*;
use base64::Engine as _;
use crate::config::ClientConfig;
use crate::errors::VpnError;

verus! {

/// What standard base64 (with padding) decoding yields for a string:
/// `None` for text that is not valid base64, the decoded bytes otherwise.
pub uninterp spec fn b64_decode_of(s: Seq<char>) -> Option<Seq<u8>>;

/// The standard base64 (with padding) encoding of a byte sequence.
pub uninterp spec fn b64_encode_of(b: Seq<u8>) -> Seq<char>;

/// The Curve25519 public key derived from a 32-byte private key: clamped
/// scalar multiplication of the basepoint, a function of the bytes alone.
pub uninterp spec fn x25519_public_of(sk: Seq<u8>) -> Seq<u8>;

/// Relies on base64's `Engine::decode` with the `STANDARD` engine: the
/// result is a function of the input characters alone.
#[verifier::external_body]
fn base64_decode(s: &str) -> (r: Option<Vec<u8>>)
    ensures
        r is Some <==> b64_decode_of(s@) is Some,
        r matches Some(b) ==> b64_decode_of(s@) == Some(b@),
{
    base64::engine::general_purpose::STANDARD.decode(s).ok()
}

/// Relies on base64's `Engine::encode` with the `STANDARD` engine: the
/// result is a function of the input bytes alone, and decoding it with the
/// same engine gives the input back (the documented round trip).
#[verifier::external_body]
fn base64_encode(b: &Vec<u8>) -> (r: String)
    ensures
        r@ == b64_encode_of(b@),
        b64_decode_of(r@) == Some(b@),
{
    base64::engine::general_purpose::STANDARD.encode(b)
}

/// Relies on x25519's `PublicKey::from(&StaticSecret)`: clamped basepoint
/// multiplication of the 32 secret bytes, deterministic, returning 32 bytes.
#[verifier::external_body]
fn derive_public_key(sk: &Vec<u8>) -> (r: Vec<u8>)
    requires
        sk@.len() == 32,
    ensures
        r@ == x25519_public_of(sk@),
        r@.len() == 32,
{
    let arr: [u8; 32] = sk.as_slice().try_into().unwrap();
    let secret = x25519_dalek::StaticSecret::from(arr);
    let public = x25519_dalek::PublicKey::from(&secret);
    public.as_bytes().to_vec()
}

/// Relies on x25519's `StaticSecret::random_from_rng` with the operating
/// system's generator: 32 random bytes; nothing more can be promised of a
/// random value.
#[verifier::external_body]
fn generate_private_key() -> (r: Vec<u8>)
    ensures
        r@.len() == 32,
{
    let secret = x25519_dalek::StaticSecret::random_from_rng(rand::rngs::OsRng);
    secret.to_bytes().to_vec()
}

/// Whether a base64 string decodes to exactly 32 bytes.
pub open spec fn is_valid_key_b64(s: Seq<char>) -> bool {
    b64_decode_of(s) matches Some(b) && b.len() == 32
}

/// Decode a base64-encoded key, insisting on exactly 32 bytes.
///
/// Text that is not base64, or that decodes to any other length, is
/// rejected with `KeyFormatError`; nothing is truncated or padded.
pub fn decode_key(s: &str) -> (r: Result<Vec<u8>, VpnError>)
    ensures
        r is Ok <==> is_valid_key_b64(s@),
        r matches Ok(k) ==> b64_decode_of(s@) == Some(k@) && k@.len() == 32,
        r is Err ==> r == Err::<Vec<u8>, VpnError>(VpnError::KeyFormatError),
{
    match base64_decode(s) {
        None => Err(VpnError::KeyFormatError),
        Some(bytes) => {
            if bytes.len() == 32 {
                Ok(bytes)
            } else {
                Err(VpnError::KeyFormatError)
            }
        },
    }
}

/// The public key presented to the remote, base64-encoded: the deterministic
/// derivation of the stored private key, never anything else.
///
/// `Ok` exactly when the stored private key is present and decodes to 32
/// bytes; a missing key is `ConfigError`, a malformed one `KeyFormatError`.
pub fn enrollment_public_key(cfg: &ClientConfig) -> (r: Result<String, VpnError>)
    ensures
        r is Ok <==> (cfg.client_private_key_b64 matches Some(sk)
            && is_valid_key_b64(sk@)),
        r matches Ok(pk) ==> (cfg.client_private_key_b64 matches Some(sk)
            && pk@ == b64_encode_of(x25519_public_of(b64_decode_of(sk@)->0))
            && is_valid_key_b64(pk@)),
        cfg.client_private_key_b64 is None
            ==> r == Err::<String, VpnError>(VpnError::ConfigError),
        (cfg.client_private_key_b64 matches Some(sk) && !is_valid_key_b64(sk@))
            ==> r == Err::<String, VpnError>(VpnError::KeyFormatError),
{
    match &cfg.client_private_key_b64 {
        None => Err(VpnError::ConfigError),
        Some(sk_b64) => {
            let sk = decode_key(sk_b64.as_str())?;
            let pk = derive_public_key(&sk);
            Ok(base64_encode(&pk))
        },
    }
}

/// Make sure the configuration carries a private key: an existing key is
/// kept untouched, a missing one is freshly generated and stored base64-
/// encoded.  Every other field is left as it was.
pub fn ensure_client_keys(cfg: ClientConfig) -> (r: ClientConfig)
    ensures
        cfg.client_private_key_b64 is Some ==> r == cfg,
        r.client_private_key_b64 is Some,
        cfg.client_private_key_b64 is None
            ==> (r.client_private_key_b64 matches Some(sk) && is_valid_key_b64(sk@)),
        r.interface_name == cfg.interface_name,
        r.address_cidr == cfg.address_cidr,
        r.server_endpoint == cfg.server_endpoint,
        r.server_public_key_b64 == cfg.server_public_key_b64,
        r.keepalive_secs == cfg.keepalive_secs,
        r.split_tunnel == cfg.split_tunnel,
        r.kill_switch == cfg.kill_switch,
        r.enroll_url == cfg.enroll_url,
        r.welcome_url == cfg.welcome_url,
{
    match &cfg.client_private_key_b64 {
        Some(_) => cfg,
        None => {
            let sk = generate_private_key();
            let sk_b64 = base64_encode(&sk);
            ClientConfig { client_private_key_b64: Some(sk_b64), ..cfg }
        },
    }
}

} // verus!
