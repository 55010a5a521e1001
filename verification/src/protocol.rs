//! Classification of the IP next-level-protocol number.

use vstd::prelude::*;

verus! {

/// The transport protocol named by an IP header's protocol / next-header
/// field, reduced to the protocols the capture core distinguishes.
#[derive(Debug, Clone, Copy, PartialEq, Eq, Structural)]
pub enum Protocol {
    Tcp,
    Udp,
    Icmp,
    Other,
}

/// The protocol that a given IP protocol number denotes: 6 is TCP, 17 is
/// UDP, 1 is ICMP; every other number is unclassified.
pub open spec fn spec_protocol_of(val: u8) -> Protocol {
    if val == 6 {
        Protocol::Tcp
    } else if val == 17 {
        Protocol::Udp
    } else if val == 1 {
        Protocol::Icmp
    } else {
        Protocol::Other
    }
}

impl Protocol {
    /// Classify an IP protocol number.
    pub fn from_u8(val: u8) -> (r: Self)
        ensures
            r == spec_protocol_of(val),
    {
        match val {
            6 => Self::Tcp,
            17 => Self::Udp,
            1 => Self::Icmp,
            _ => Self::Other,
        }
    }

    /// The protocol's display name.
    pub fn as_str(&self) -> (r: &'static str)
        ensures
            r@ == match self {
                Protocol::Tcp => "TCP"@,
                Protocol::Udp => "UDP"@,
                Protocol::Icmp => "ICMP"@,
                Protocol::Other => "Some weird shit"@,
            },
    {
        match self {
            Protocol::Tcp => "TCP",
            Protocol::Udp => "UDP",
            Protocol::Icmp => "ICMP",
            Protocol::Other => "Some weird shit",
        }
    }
}

} // verus!
