//! The failures that the discovery engine reports.

use vstd::prelude::*;

verus! {

/// Why an operation of the discovery engine failed. Failures of the sockets
/// themselves are not among these: they arise where the sockets are.
#[derive(Clone, Copy, Debug, PartialEq, Eq)]
pub enum DiscoveryError {
    /// No token was left to register the socket of an interface under.
    Construction,
    /// A readiness event carried a token that no interface of the engine holds.
    Routing,
    /// An inbound packet is not a well-formed DNS message.
    Codec,
}

} // verus!
