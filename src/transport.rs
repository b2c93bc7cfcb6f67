//! What the transports share: local addresses, the composition of two
//! transports, framing on byte streams and the in-process queue.
pub mod combined;
pub mod frame;
pub mod mem;
use vstd::prelude::*;

verus! {

/// One local address of a listener.
#[derive(Clone, Debug, PartialEq, Eq)]
pub enum LocalAddr {
    /// An IP address (4 or 16 bytes) and a port.
    Socket { ip: Vec<u8>, port: u16 },
    /// An opaque node id.
    Node(Vec<u8>),
    /// An in-process channel.
    Mem,
}

} // verus!
