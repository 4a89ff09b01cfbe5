//! The node handshake: transports, the RPC node and the shared error type.

use vstd::prelude::*;

pub mod error;
pub mod json;
pub mod node;
pub mod rpc;
pub mod text;
pub mod transport;

verus! {

/// The wire transports over which a node can be reached.
#[derive(Debug, Clone, Copy, PartialEq, Eq, Structural)]
pub enum TransportType {
    /// Plain TCP, without encryption.
    Tcp,
    /// TCP wrapped in TLS.
    Tls,
    /// WebSocket.
    Ws,
    /// WebSocket over TLS.
    Wss,
}

impl TransportType {
    /// Whether the transport speaks minimal HTTP over a byte stream.
    pub open spec fn spec_is_raw_socket(self) -> bool {
        self == TransportType::Tcp || self == TransportType::Tls
    }

    /// Whether the transport is encrypted.
    pub open spec fn spec_is_secure(self) -> bool {
        self == TransportType::Tls || self == TransportType::Wss
    }

    /// Whether the transport speaks minimal HTTP over a byte stream.
    #[verifier::when_used_as_spec(spec_is_raw_socket)]
    pub fn is_raw_socket(self) -> (raw: bool)
        ensures
            raw == self.spec_is_raw_socket(),
    {
        match self {
            TransportType::Tcp => true,
            TransportType::Tls => true,
            TransportType::Ws => false,
            TransportType::Wss => false,
        }
    }

    /// Whether the transport is encrypted.
    #[verifier::when_used_as_spec(spec_is_secure)]
    pub fn is_secure(self) -> (secure: bool)
        ensures
            secure == self.spec_is_secure(),
    {
        match self {
            TransportType::Tcp => false,
            TransportType::Tls => true,
            TransportType::Ws => false,
            TransportType::Wss => true,
        }
    }
}

} // verus!
