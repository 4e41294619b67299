//! Error taxonomy of the client.

use vstd::prelude::*;

verus! {

/// Every failure the client can surface.
///
/// `ConfigError` and `KeyFormatError` occur before any side effect is
/// applied; `HandshakeTimeout` and `ConnectivityFailed` occur after side
/// effects and therefore always come together with a full rollback.
#[derive(Clone, Copy, Debug, PartialEq, Eq, Structural)]
pub enum VpnError {
    /// The persisted configuration is missing a required field or holds a
    /// malformed value.
    ConfigError,
    /// A key does not decode to exactly 32 bytes.
    KeyFormatError,
    /// The enrollment endpoint answered with a non-success response.
    EnrollmentFailed,
    /// The tunnel interface could not be created or configured.
    InterfaceError,
    /// No peer completed a handshake within the configured ceiling.
    HandshakeTimeout,
    /// The reachability probe failed after a successful handshake.
    ConnectivityFailed,
}

impl VpnError {
    /// A short, stable description of the error.
    pub fn describe(&self) -> (r: &'static str)
        ensures
            r@ == self.spec_describe(),
    {
        match self {
            VpnError::ConfigError => "missing or malformed configuration",
            VpnError::KeyFormatError => "key must decode to exactly 32 bytes",
            VpnError::EnrollmentFailed => "enrollment failed",
            VpnError::InterfaceError => "interface creation or configuration failed",
            VpnError::HandshakeTimeout => "handshake timeout",
            VpnError::ConnectivityFailed => "connectivity probe failed",
        }
    }

    /// The description each variant carries.
    pub open spec fn spec_describe(&self) -> Seq<char> {
        match self {
            VpnError::ConfigError => "missing or malformed configuration"@,
            VpnError::KeyFormatError => "key must decode to exactly 32 bytes"@,
            VpnError::EnrollmentFailed => "enrollment failed"@,
            VpnError::InterfaceError => "interface creation or configuration failed"@,
            VpnError::HandshakeTimeout => "handshake timeout"@,
            VpnError::ConnectivityFailed => "connectivity probe failed"@,
        }
    }
}

} // verus!
