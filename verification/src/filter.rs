//! The filter applied when decoded packets are shown or counted: per-kind
//! toggles keyed by the transport discriminant, and an optional allow-list of
//! destination ports.

use std::collections::HashMap;

use vstd::prelude::*;

use vstd::string::StringSliceAdditionalSpecFns;

use crate::digits::{parse_decimal, spec_parse_number, spec_trim, trim_range};
use crate::parsed_packet::{NetworkPacket, ParsedPacket, TransportPacket};

verus! {

/// The position of the first comma in `s` at or after `i`, or the length of
/// `s` where there is none.
pub open spec fn first_comma(s: Seq<u8>, i: int) -> int
    decreases s.len() - i,
{
    if i >= s.len() {
        i
    } else if s[i] == 44 {
        i
    } else {
        first_comma(s, i + 1)
    }
}

/// The ports named from position `i` on: the text is split at commas, each
/// piece is trimmed of ASCII whitespace, and the pieces that parse as 16-bit
/// port numbers are kept, in order.
pub open spec fn spec_ports_from(s: Seq<u8>, i: int) -> Seq<u16>
    decreases s.len() - i,
{
    let j = first_comma(s, i);
    let head = match spec_parse_number(spec_trim(s.subrange(i, j)), 0xFFFF) {
        Some(v) => seq![v as u16],
        None => Seq::<u16>::empty(),
    };
    if i <= j < s.len() {
        head + spec_ports_from(s, j + 1)
    } else {
        head
    }
}

/// The port allow-list a typed text names.
pub open spec fn spec_port_list(s: Seq<u8>) -> Seq<u16> {
    spec_ports_from(s, 0)
}

/// The protocols a packet can be filtered by in the protocol panel.
#[derive(Hash, Eq, PartialEq, Debug, Clone, Copy, Structural)]
pub enum Filter {
    Tcp,
    Udp,
    Icmp,
    Http,
    Https,
}

impl Filter {
    /// The toggle map the protocol panel starts from: every protocol off.
    pub fn as_map() -> HashMap<Filter, bool> {
        let mut map = HashMap::new();
        map.insert(Filter::Tcp, false);
        map.insert(Filter::Udp, false);
        map.insert(Filter::Icmp, false);
        map.insert(Filter::Http, false);
        map.insert(Filter::Https, false);
        map
    }

    /// The protocol's display name.
    pub fn as_str(&self) -> (r: &'static str)
        ensures
            r@ == match self {
                Filter::Tcp => "TCP"@,
                Filter::Udp => "UDP"@,
                Filter::Icmp => "ICMP"@,
                Filter::Http => "HTTP"@,
                Filter::Https => "HTTPS"@,
            },
    {
        match self {
            Filter::Tcp => "TCP",
            Filter::Udp => "UDP",
            Filter::Icmp => "ICMP",
            Filter::Http => "HTTP",
            Filter::Https => "HTTPS",
        }
    }
}

/// The discriminant of a transport view, with no payload: the key the toggle
/// filter is indexed by, so that equality and hashing never look at header
/// contents.
#[derive(Debug, Clone, Copy, PartialEq, Eq, Hash, Structural)]
pub enum TransportKindKey {
    Tcp,
    Udp,
    Other,
}

/// The discriminant of a network view, with no payload.
#[derive(Debug, Clone, Copy, PartialEq, Eq, Hash, Structural)]
pub enum NetworkKindKey {
    Ipv4,
    Ipv6,
    Other,
}

impl TransportPacket {
    /// The discriminant of this transport view.
    pub open spec fn spec_kind(self) -> TransportKindKey {
        match self {
            TransportPacket::Tcp(_) => TransportKindKey::Tcp,
            TransportPacket::Udp(_) => TransportKindKey::Udp,
            TransportPacket::Other => TransportKindKey::Other,
        }
    }

    /// Classify this transport view by its discriminant alone.
    pub fn kind(&self) -> (r: TransportKindKey)
        ensures
            r == self.spec_kind(),
    {
        match self {
            TransportPacket::Tcp(_) => TransportKindKey::Tcp,
            TransportPacket::Udp(_) => TransportKindKey::Udp,
            TransportPacket::Other => TransportKindKey::Other,
        }
    }
}

impl NetworkPacket {
    /// The discriminant of this network view.
    pub open spec fn spec_kind(self) -> NetworkKindKey {
        match self {
            NetworkPacket::Ipv4(_) => NetworkKindKey::Ipv4,
            NetworkPacket::Ipv6(_) => NetworkKindKey::Ipv6,
            NetworkPacket::Other => NetworkKindKey::Other,
        }
    }

    /// Classify this network view by its discriminant alone.
    pub fn kind(&self) -> (r: NetworkKindKey)
        ensures
            r == self.spec_kind(),
    {
        match self {
            NetworkPacket::Ipv4(_) => NetworkKindKey::Ipv4,
            NetworkPacket::Ipv6(_) => NetworkKindKey::Ipv6,
            NetworkPacket::Other => NetworkKindKey::Other,
        }
    }
}

/// The consumer-side filter state: one visibility toggle per transport kind
/// and an optional allow-list of destination ports. An empty allow-list
/// allows every packet.
#[derive(Debug, Clone)]
pub struct FilterState {
    /// Show TCP packets.
    pub show_tcp: bool,
    /// Show UDP packets.
    pub show_udp: bool,
    /// Show packets of unclassified transport.
    pub show_other: bool,
    /// The port allow-list; empty means no port restriction.
    pub ports: Vec<u16>,
}

impl FilterState {
    /// The visibility toggle for one transport kind.
    pub open spec fn spec_toggle(self, k: TransportKindKey) -> bool {
        match k {
            TransportKindKey::Tcp => self.show_tcp,
            TransportKindKey::Udp => self.show_udp,
            TransportKindKey::Other => self.show_other,
        }
    }

    /// Whether the allow-list admits a packet with the given destination
    /// port: it does when it is empty, and otherwise exactly when the packet
    /// has a port and the list holds it.
    pub open spec fn spec_allows_port(self, port: Option<u16>) -> bool {
        self.ports@.len() == 0 || (port is Some && self.ports@.contains(port.unwrap()))
    }

    /// Whether a packet is visible under this filter: its transport kind's
    /// toggle is on, and the allow-list admits its destination port.
    pub open spec fn spec_visible(self, p: ParsedPacket) -> bool {
        self.spec_toggle(p.transport.spec_kind()) && self.spec_allows_port(p.transport.spec_port())
    }

    /// The default filter state: TCP visible, UDP and unclassified transport
    /// hidden, no port restriction.
    pub fn new() -> (r: FilterState)
        ensures
            r.show_tcp,
            !r.show_udp,
            !r.show_other,
            r.ports@ == Seq::<u16>::empty(),
    {
        FilterState { show_tcp: true, show_udp: false, show_other: false, ports: Vec::new() }
    }

    /// Turn one transport kind's visibility toggle on or off.
    pub fn set_toggle(&mut self, k: TransportKindKey, shown: bool)
        ensures
            final (self).spec_toggle(k) == shown,
            forall|j: TransportKindKey| j != k ==> final (self).spec_toggle(j) == old(
                self,
            ).spec_toggle(j),
            final (self).ports@ == old(self).ports@,
    {
        match k {
            TransportKindKey::Tcp => self.show_tcp = shown,
            TransportKindKey::Udp => self.show_udp = shown,
            TransportKindKey::Other => self.show_other = shown,
        }
    }

    /// Whether a packet is visible under this filter.
    pub fn visible(&self, p: &ParsedPacket) -> (r: bool)
        ensures
            r == self.spec_visible(*p),
    {
        let toggled = match p.transport.kind() {
            TransportKindKey::Tcp => self.show_tcp,
            TransportKindKey::Udp => self.show_udp,
            TransportKindKey::Other => self.show_other,
        };
        if !toggled {
            return false;
        }
        if self.ports.len() == 0 {
            return true;
        }
        match p.get_port() {
            Some(port) => port_in_list(&self.ports, port),
            None => false,
        }
    }
}

/// `first_comma` stays between its start and the length.
proof fn lemma_first_comma_bounds(s: Seq<u8>, i: int)
    requires
        0 <= i <= s.len(),
    ensures
        i <= first_comma(s, i) <= s.len(),
    decreases s.len() - i,
{
    if i < s.len() && s[i] != 44 {
        lemma_first_comma_bounds(s, i + 1);
    }
}

/// The position of the first comma at or after `i`, or the slice's length.
fn find_comma(bytes: &[u8], i: usize) -> (r: usize)
    requires
        i <= bytes@.len(),
    ensures
        r == first_comma(bytes@, i as int),
        i <= r <= bytes@.len(),
        r < bytes@.len() ==> bytes@[r as int] == 44,
{
    let n = bytes.len();
    let mut k = i;
    while k < n && bytes[k] != 44
        invariant
            i <= k <= n == bytes@.len(),
            first_comma(bytes@, i as int) == first_comma(bytes@, k as int),
        decreases n - k,
    {
        k = k + 1;
    }
    proof {
        lemma_first_comma_bounds(bytes@, i as int);
    }
    k
}

/// The port allow-list named by a typed text: comma-separated pieces,
/// trimmed of ASCII whitespace; every piece that is a 16-bit port number
/// joins the list, in order, and every other piece is ignored.
pub fn parse_port_list(input: &str) -> (r: Vec<u16>)
    ensures
        r@ == spec_port_list(input.spec_bytes()),
{
    let bytes: &[u8] = input.as_bytes();
    let n = bytes.len();
    let mut r: Vec<u16> = Vec::new();
    let mut i: usize = 0;
    let mut done = false;
    while !done
        invariant
            0 <= i <= n == bytes@.len(),
            bytes@ == input.spec_bytes(),
            done ==> r@ == spec_port_list(input.spec_bytes()),
            !done ==> spec_port_list(input.spec_bytes()) == r@ + spec_ports_from(
                bytes@,
                i as int,
            ),
        decreases n - i + (if done {
            0int
        } else {
            1int
        }),
    {
        let j = find_comma(bytes, i);
        let (a, b) = trim_range(bytes, i, j);
        let ghost before = r@;
        match parse_decimal(bytes, a, b, 0xFFFF) {
            Some(v) => {
                r.push(v as u16);
            },
            None => {},
        }
        proof {
            assert(bytes@.subrange(a as int, b as int) == spec_trim(
                bytes@.subrange(i as int, j as int),
            ));
            assert(r@ == before + match spec_parse_number(
                spec_trim(bytes@.subrange(i as int, j as int)),
                0xFFFF,
            ) {
                Some(v) => seq![v as u16],
                None => Seq::<u16>::empty(),
            }) by {
                if spec_parse_number(
                    spec_trim(bytes@.subrange(i as int, j as int)),
                    0xFFFF,
                ) is None {
                    assert(before + Seq::<u16>::empty() =~= before);
                } else {
                    assert(r@ =~= before.push(r@.last()));
                }
            }
        }
        if j == n {
            done = true;
        } else {
            i = j + 1;
        }
    }
    r
}

/// Whether `ports` holds `port`.
fn port_in_list(ports: &Vec<u16>, port: u16) -> (r: bool)
    ensures
        r == ports@.contains(port),
{
    let mut i: usize = 0;
    while i < ports.len()
        invariant
            0 <= i <= ports.len(),
            forall|j: int| 0 <= j < i ==> ports@[j] != port,
        decreases ports.len() - i,
    {
        if ports[i] == port {
            return true;
        }
        i = i + 1;
    }
    false
}

} // verus!
