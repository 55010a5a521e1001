//! A placeholder packet record built from a bare payload string, used where
//! a packet-shaped value is needed without a captured frame behind it.

use vstd::prelude::*;

use crate::protocol::Protocol;

verus! {

/// Capture metadata of a placeholder packet.
#[derive(Debug, Clone, Copy, PartialEq, Eq, Structural)]
pub struct Header {
    /// When the packet was captured.
    pub timestamp: usize,
    /// How many bytes were captured.
    pub cap_size: usize,
    /// How many bytes the packet had on the wire.
    pub pack_size: usize,
}

/// A packet record carrying a payload string and fixed placeholder
/// addressing.
#[derive(Debug, Clone)]
pub struct PostalPacket {
    /// Capture metadata; zeroed in a placeholder.
    pub header: Header,
    /// Transport protocol; a placeholder claims TCP.
    pub protocol: Protocol,
    /// Destination port; zero in a placeholder.
    pub port: u16,
    /// Source address, as the big-endian value of its four bytes.
    pub source_ip: u32,
    /// Destination address, as the big-endian value of its four bytes.
    pub destination_ip: u32,
    /// The payload text.
    pub payload: String,
}

impl PostalPacket {
    /// A placeholder packet around the given payload: zeroed metadata and
    /// port, TCP, and 1.2.3.4 as both addresses.
    pub fn new(packet: String) -> (r: PostalPacket)
        ensures
            r.header == (Header { timestamp: 0usize, cap_size: 0usize, pack_size: 0usize }),
            r.protocol == Protocol::Tcp,
            r.port == 0,
            r.source_ip == 0x01020304u32,
            r.destination_ip == 0x01020304u32,
            r.payload@ == packet@,
    {
        PostalPacket {
            header: Header { timestamp: 0, cap_size: 0, pack_size: 0 },
            protocol: Protocol::Tcp,
            port: 0,
            source_ip: 0x01020304,
            destination_ip: 0x01020304,
            payload: packet,
        }
    }
}

} // verus!
