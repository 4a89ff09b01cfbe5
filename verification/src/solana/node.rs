//! The handshake as a capability.

use crate::solana::rpc::node::Handshaking;
use crate::solana::transport::Step;
use vstd::prelude::*;

verus! {

/// Something that a handshake can be made with.
pub trait Handshake {
    /// Begins a handshake. The timeout is in seconds, and is handed to the
    /// transport.
    fn shake(&self, timeout: Option<u32>) -> Step<Handshaking>;
}

} // verus!
