//! The frame parser: decoding one captured Ethernet frame into a structured,
//! layered packet view.
//!
//! A `ParsedPacket` owns the raw bytes of exactly one link-layer frame and
//! carries plain-value views of its network and transport headers; every view
//! holds numbers (addresses, ports, byte ranges into the owned buffer), never
//! a borrowed slice, so a packet can move freely across threads and into a
//! store.

use vstd::prelude::*;

verus! {

/// Length in bytes of an Ethernet II header.
pub const ETHERNET_HEADER_LEN: usize = 14;

/// The ethertype that announces an IPv4 payload.
pub const ETHERTYPE_IPV4: u16 = 0x0800;

/// The ethertype that announces an IPv6 payload.
pub const ETHERTYPE_IPV6: u16 = 0x86DD;

/// The IP protocol number of TCP.
pub const IP_PROTO_TCP: u8 = 6;

/// The IP protocol number of UDP.
pub const IP_PROTO_UDP: u8 = 17;

/// The big-endian value of the two bytes of `s` starting at `i`.
pub open spec fn be16(s: Seq<u8>, i: int) -> int {
    s[i] * 0x100 + s[i + 1]
}

/// The big-endian value of the four bytes of `s` starting at `i`.
pub open spec fn be32(s: Seq<u8>, i: int) -> int {
    s[i] * 0x1000000 + s[i + 1] * 0x10000 + s[i + 2] * 0x100 + s[i + 3]
}

/// The big-endian value of the `n` bytes of `s` starting at `i`.
pub open spec fn be_bytes(s: Seq<u8>, i: int, n: nat) -> int
    decreases n,
{
    if n == 0 {
        0
    } else {
        be_bytes(s, i, (n - 1) as nat) * 0x100 + s[i + n - 1]
    }
}

/// `be_bytes` of `n` bytes is below 256 to the `n`.
pub proof fn lemma_be_bytes_bound(s: Seq<u8>, i: int, n: nat)
    requires
        0 <= i,
        i + n <= s.len(),
    ensures
        0 <= be_bytes(s, i, n) < pow256(n),
    decreases n,
{
    if n > 0 {
        lemma_be_bytes_bound(s, i, (n - 1) as nat);
    }
}

/// 256 to the `n`.
pub open spec fn pow256(n: nat) -> int
    decreases n,
{
    if n == 0 {
        1
    } else {
        pow256((n - 1) as nat) * 0x100
    }
}

/// Read the big-endian 16-bit field at offset `i`.
fn read_be16(data: &Vec<u8>, i: usize) -> (r: u16)
    requires
        i + 2 <= data.len(),
    ensures
        r == be16(data@, i as int),
{
    (data[i] as u16) * 0x100 + (data[i + 1] as u16)
}

/// Read the big-endian 32-bit field at offset `i`.
fn read_be32(data: &Vec<u8>, i: usize) -> (r: u32)
    requires
        i + 4 <= data.len(),
    ensures
        r == be32(data@, i as int),
{
    (data[i] as u32) * 0x1000000 + (data[i + 1] as u32) * 0x10000 + (data[i + 2] as u32) * 0x100
        + (data[i + 3] as u32)
}

/// Read the big-endian 128-bit field at offset `i`.
fn read_be128(data: &Vec<u8>, i: usize) -> (r: u128)
    requires
        i + 16 <= data.len(),
    ensures
        r == be_bytes(data@, i as int, 16),
{
    let mut acc: u128 = 0;
    let mut j: usize = 0;
    while j < 16
        invariant
            i + 16 <= data.len(),
            0 <= j <= 16,
            acc == be_bytes(data@, i as int, j as nat),
        decreases 16 - j,
    {
        proof {
            lemma_be_bytes_bound(data@, i as int, j as nat);
            assert(pow256(j as nat) <= pow256(15)) by {
                lemma_pow256_increases(j as nat, 15);
            }
            assert(pow256(15) == 0x1000000000000000000000000000000) by {
                reveal_with_fuel(pow256, 16);
            }
        }
        acc = acc * 0x100 + (data[i + j] as u128);
        j = j + 1;
    }
    acc
}

/// The decoded view of an IPv4 header: addresses, the protocol number of the
/// payload, and the header length field that locates the transport header.
#[derive(Debug, Clone, Copy, PartialEq, Eq, Structural)]
pub struct Ipv4View {
    /// Source address, as the big-endian value of its four bytes.
    pub source: u32,
    /// Destination address, as the big-endian value of its four bytes.
    pub destination: u32,
    /// The header length field, in 32-bit words.
    pub header_words: u8,
    /// The next-level-protocol number.
    pub protocol: u8,
}

/// The decoded view of an IPv6 fixed header: addresses, the next-header
/// number, and the advertised payload length that locates the transport
/// header.
#[derive(Debug, Clone, Copy, PartialEq, Eq, Structural)]
pub struct Ipv6View {
    /// Source address, as the big-endian value of its sixteen bytes.
    pub source: u128,
    /// Destination address, as the big-endian value of its sixteen bytes.
    pub destination: u128,
    /// The advertised payload length, in bytes.
    pub payload_length: u16,
    /// The next-header protocol number.
    pub next_header: u8,
}

/// The network layer of a parsed frame.
#[derive(Debug, Clone, Copy, PartialEq, Eq, Structural)]
pub enum NetworkPacket {
    Ipv4(Ipv4View),
    Ipv6(Ipv6View),
    Other,
}

/// The decoded view of a TCP header: the destination port and the byte range
/// of the segment's payload within the owning frame buffer.
#[derive(Debug, Clone, Copy, PartialEq, Eq, Structural)]
pub struct TcpView {
    /// Destination port.
    pub destination: u16,
    /// First byte of the payload, as an offset into the frame buffer.
    pub payload_start: usize,
    /// One past the last byte of the payload.
    pub payload_end: usize,
}

/// The decoded view of a UDP header: the destination port and the byte range
/// of the datagram's payload within the owning frame buffer.
#[derive(Debug, Clone, Copy, PartialEq, Eq, Structural)]
pub struct UdpView {
    /// Destination port.
    pub destination: u16,
    /// First byte of the payload, as an offset into the frame buffer.
    pub payload_start: usize,
    /// One past the last byte of the payload.
    pub payload_end: usize,
}

/// The transport layer of a parsed frame.
#[derive(Debug, Clone, Copy, PartialEq, Eq, Structural)]
pub enum TransportPacket {
    Tcp(TcpView),
    Udp(UdpView),
    Other,
}

/// An address of either IP version, as a plain number.
#[derive(Debug, Clone, Copy, PartialEq, Eq, Structural)]
pub enum IpAddress {
    /// The big-endian value of an IPv4 address's four bytes.
    V4(u32),
    /// The big-endian value of an IPv6 address's sixteen bytes.
    V6(u128),
}

/// One captured frame, decoded: the owned raw bytes together with the
/// plain-value views of its network and transport headers.
#[derive(Debug, Clone)]
pub struct ParsedPacket {
    /// The raw bytes of the frame, exactly as captured.
    pub data: Vec<u8>,
    /// The network-layer view.
    pub net: NetworkPacket,
    /// The transport-layer view.
    pub transport: TransportPacket,
}

/// The IPv4 view claimed by a frame, or `None` where the frame is too short
/// for an Ethernet header plus a minimal IPv4 header.
pub open spec fn spec_ipv4_view(s: Seq<u8>) -> Option<Ipv4View> {
    if s.len() < 34 {
        None
    } else {
        Some(
            Ipv4View {
                source: be32(s, 26) as u32,
                destination: be32(s, 30) as u32,
                header_words: (s[14] % 16) as u8,
                protocol: s[23],
            },
        )
    }
}

/// The IPv6 view claimed by a frame, or `None` where the frame is too short
/// for an Ethernet header plus the fixed IPv6 header.
pub open spec fn spec_ipv6_view(s: Seq<u8>) -> Option<Ipv6View> {
    if s.len() < 54 {
        None
    } else {
        Some(
            Ipv6View {
                source: be_bytes(s, 22, 16) as u128,
                destination: be_bytes(s, 38, 16) as u128,
                payload_length: be16(s, 18) as u16,
                next_header: s[20],
            },
        )
    }
}

/// The network layer of a frame: `None` for a frame shorter than an Ethernet
/// header, for an ethertype other than IPv4 or IPv6, and for an IP header cut
/// short.
pub open spec fn spec_network(s: Seq<u8>) -> Option<NetworkPacket> {
    if s.len() < 14 {
        None
    } else if be16(s, 12) == ETHERTYPE_IPV4 {
        match spec_ipv4_view(s) {
            Some(v) => Some(NetworkPacket::Ipv4(v)),
            None => None,
        }
    } else if be16(s, 12) == ETHERTYPE_IPV6 {
        match spec_ipv6_view(s) {
            Some(v) => Some(NetworkPacket::Ipv6(v)),
            None => None,
        }
    } else {
        None
    }
}

/// Where the transport header starts in the frame. For IPv4 that is the
/// Ethernet header plus the claimed header length; for IPv6 the fixed and
/// extension header span is derived from the advertised payload length, so
/// the offset is the frame length minus that advertised length. `None` where
/// an IPv6 frame advertises more payload than the frame holds.
pub open spec fn spec_transport_offset(s: Seq<u8>, net: NetworkPacket) -> Option<int> {
    match net {
        NetworkPacket::Ipv4(v) => Some(14 + 4 * v.header_words),
        NetworkPacket::Ipv6(v) => if v.payload_length <= s.len() - 14 {
            Some(s.len() - v.payload_length)
        } else {
            None
        },
        NetworkPacket::Other => None,
    }
}

/// The IP protocol number that names the frame's transport protocol.
pub open spec fn spec_protocol_number(net: NetworkPacket) -> u8 {
    match net {
        NetworkPacket::Ipv4(v) => v.protocol,
        NetworkPacket::Ipv6(v) => v.next_header,
        NetworkPacket::Other => 0,
    }
}

/// Where a TCP segment's payload starts: after the header length claimed by
/// the data-offset field (at least the 20 fixed bytes), clamped to the frame
/// end where the claim passes it.
pub open spec fn spec_tcp_payload_start(s: Seq<u8>, off: int) -> int {
    let claimed = 4 * (s[off + 12] / 16);
    let header = if claimed < 20 {
        20
    } else {
        claimed as int
    };
    if off + header > s.len() {
        s.len() as int
    } else {
        off + header
    }
}

/// The transport layer of a frame whose transport header starts at `off`.
/// `None` where the remaining bytes cannot hold the protocol's minimal
/// header, and, under `discard`, for every packet not addressed to port 80
/// or 443.
pub open spec fn spec_transport(s: Seq<u8>, proto: u8, off: int, discard: bool) -> Option<
    TransportPacket,
> {
    if proto == IP_PROTO_TCP {
        if s.len() - off < 20 {
            None
        } else {
            let port = be16(s, off + 2);
            if discard && port != 80 && port != 443 {
                None
            } else {
                Some(
                    TransportPacket::Tcp(
                        TcpView {
                            destination: port as u16,
                            payload_start: spec_tcp_payload_start(s, off) as usize,
                            payload_end: s.len() as usize,
                        },
                    ),
                )
            }
        }
    } else if proto == IP_PROTO_UDP {
        if s.len() - off < 8 {
            None
        } else {
            let port = be16(s, off + 2);
            if discard && port != 80 && port != 443 {
                None
            } else {
                Some(
                    TransportPacket::Udp(
                        UdpView {
                            destination: port as u16,
                            payload_start: (off + 8) as usize,
                            payload_end: s.len() as usize,
                        },
                    ),
                )
            }
        }
    } else {
        if discard {
            None
        } else {
            Some(TransportPacket::Other)
        }
    }
}

/// The full decoding of one frame: the network and transport views that
/// `parse` returns, or `None` where the frame is rejected.
pub open spec fn spec_parse(s: Seq<u8>, discard: bool) -> Option<(NetworkPacket, TransportPacket)> {
    match spec_network(s) {
        None => None,
        Some(net) => match spec_transport_offset(s, net) {
            None => None,
            Some(off) => match spec_transport(s, spec_protocol_number(net), off, discard) {
                None => None,
                Some(t) => Some((net, t)),
            },
        },
    }
}

impl TransportPacket {
    /// The destination port the transport view carries, if any.
    pub open spec fn spec_port(self) -> Option<u16> {
        match self {
            TransportPacket::Tcp(t) => Some(t.destination),
            TransportPacket::Udp(u) => Some(u.destination),
            TransportPacket::Other => None,
        }
    }
}

impl ParsedPacket {
    /// Every byte range a view carries lies within the owned buffer.
    pub open spec fn wf(self) -> bool {
        match self.transport {
            TransportPacket::Tcp(t) => t.payload_start <= t.payload_end
                && t.payload_end <= self.data@.len(),
            TransportPacket::Udp(u) => u.payload_start <= u.payload_end
                && u.payload_end <= self.data@.len(),
            TransportPacket::Other => true,
        }
    }

    /// Decode one captured frame.
    ///
    /// The frame is accepted exactly when it holds an Ethernet header whose
    /// ethertype is IPv4 or IPv6, a complete IP header, and — for TCP and
    /// UDP — a complete minimal transport header; under `discard_non_http`
    /// only TCP and UDP packets to port 80 or 443 are accepted. The views of
    /// the returned packet are the ones the frame's bytes claim, and the
    /// packet owns those bytes unchanged.
    pub fn parse(data: Vec<u8>, discard_non_http: bool) -> (r: Option<ParsedPacket>)
        ensures
            r is Some <==> spec_parse(data@, discard_non_http) is Some,
            r is Some ==> {
                let p = r.unwrap();
                &&& p.data@ == data@
                &&& spec_parse(data@, discard_non_http) == Some((p.net, p.transport))
                &&& p.wf()
            },
    {
        if data.len() < ETHERNET_HEADER_LEN {
            return None;
        }
        let ethertype = read_be16(&data, 12);
        let net = if ethertype == ETHERTYPE_IPV4 {
            if data.len() < 34 {
                return None;
            }
            NetworkPacket::Ipv4(
                Ipv4View {
                    source: read_be32(&data, 26),
                    destination: read_be32(&data, 30),
                    header_words: data[14] % 16,
                    protocol: data[23],
                },
            )
        } else if ethertype == ETHERTYPE_IPV6 {
            if data.len() < 54 {
                return None;
            }
            NetworkPacket::Ipv6(
                Ipv6View {
                    source: read_be128(&data, 22),
                    destination: read_be128(&data, 38),
                    payload_length: read_be16(&data, 18),
                    next_header: data[20],
                },
            )
        } else {
            return None;
        };
        let offset: usize = match net {
            NetworkPacket::Ipv4(v) => 14 + 4 * (v.header_words as usize),
            NetworkPacket::Ipv6(v) => {
                if (v.payload_length as usize) <= data.len() - 14 {
                    data.len() - (v.payload_length as usize)
                } else {
                    return None;
                }
            },
            NetworkPacket::Other => {
                return None;
            },
        };
        let proto = match net {
            NetworkPacket::Ipv4(v) => v.protocol,
            NetworkPacket::Ipv6(v) => v.next_header,
            NetworkPacket::Other => 0,
        };
        let transport = if proto == IP_PROTO_TCP {
            if offset > data.len() || data.len() - offset < 20 {
                return None;
            }
            let port = read_be16(&data, offset + 2);
            if discard_non_http && port != 80 && port != 443 {
                return None;
            }
            let claimed: usize = 4 * ((data[offset + 12] / 16) as usize);
            let header: usize = if claimed < 20 {
                20
            } else {
                claimed
            };
            let start: usize = if header > data.len() - offset {
                data.len()
            } else {
                offset + header
            };
            TransportPacket::Tcp(
                TcpView { destination: port, payload_start: start, payload_end: data.len() },
            )
        } else if proto == IP_PROTO_UDP {
            if offset > data.len() || data.len() - offset < 8 {
                return None;
            }
            let port = read_be16(&data, offset + 2);
            if discard_non_http && port != 80 && port != 443 {
                return None;
            }
            TransportPacket::Udp(
                UdpView {
                    destination: port,
                    payload_start: offset + 8,
                    payload_end: data.len(),
                },
            )
        } else {
            if discard_non_http {
                return None;
            }
            TransportPacket::Other
        };
        Some(ParsedPacket { data, net, transport })
    }

    /// The source address of the frame's network layer, if one was decoded.
    pub fn get_source_ip(&self) -> (r: Option<IpAddress>)
        ensures
            r == match self.net {
                NetworkPacket::Ipv4(v) => Some(IpAddress::V4(v.source)),
                NetworkPacket::Ipv6(v) => Some(IpAddress::V6(v.source)),
                NetworkPacket::Other => None::<IpAddress>,
            },
    {
        match &self.net {
            NetworkPacket::Ipv4(v4) => Some(IpAddress::V4(v4.source)),
            NetworkPacket::Ipv6(v6) => Some(IpAddress::V6(v6.source)),
            NetworkPacket::Other => None,
        }
    }

    /// The destination port of the frame's transport layer, if one was
    /// decoded.
    pub fn get_port(&self) -> (r: Option<u16>)
        ensures
            r == self.transport.spec_port(),
    {
        match &self.transport {
            TransportPacket::Tcp(tcp) => Some(tcp.destination),
            TransportPacket::Udp(udp) => Some(udp.destination),
            TransportPacket::Other => None,
        }
    }

    /// The byte range of the transport payload the views point at, re-derived
    /// from the owned buffer; empty for an unclassified transport.
    pub fn payload(&self) -> (r: &[u8])
        requires
            self.wf(),
        ensures
            r@ == match self.transport {
                TransportPacket::Tcp(t) => self.data@.subrange(
                    t.payload_start as int,
                    t.payload_end as int,
                ),
                TransportPacket::Udp(u) => self.data@.subrange(
                    u.payload_start as int,
                    u.payload_end as int,
                ),
                TransportPacket::Other => Seq::<u8>::empty(),
            },
    {
        let (a, b): (usize, usize) = match &self.transport {
            TransportPacket::Tcp(t) => (t.payload_start, t.payload_end),
            TransportPacket::Udp(u) => (u.payload_start, u.payload_end),
            TransportPacket::Other => (0, 0),
        };
        proof {
            if self.transport is Other {
                assert(self.data@.subrange(0, 0) =~= Seq::<u8>::empty());
            }
        }
        vstd::slice::slice_subrange(self.data.as_slice(), a, b)
    }
}

/// What the discard flag does, for every frame: parsing with it accepts
/// exactly the frames that parse without it into a TCP or UDP packet whose
/// destination port is 80 or 443, and decodes them to the same views.
pub proof fn lemma_discard_filter(s: Seq<u8>)
    ensures
        spec_parse(s, true) == (match spec_parse(s, false) {
            Some((n, t)) => match t.spec_port() {
                Some(p) => if p == 80 || p == 443 {
                    Some((n, t))
                } else {
                    None
                },
                None => None,
            },
            None => None,
        }),
{
}

/// The bytes an IPv4 frame's claimed header lengths require of it: Ethernet
/// header, the IP header length the frame claims, and the minimal header of
/// the transport protocol it names. A frame too short to make those claims
/// requires the Ethernet header plus a minimal IPv4 header.
pub open spec fn spec_required_len_v4(s: Seq<u8>) -> int {
    if s.len() < 34 {
        34
    } else {
        let off = 14 + 4 * (s[14] % 16);
        if s[23] == IP_PROTO_TCP {
            off + 20
        } else if s[23] == IP_PROTO_UDP {
            off + 8
        } else {
            34
        }
    }
}

/// A valid IPv4 frame holds at least the bytes its claimed header lengths
/// require: truncating it makes a frame that `lemma_truncation_safety_v4`
/// covers.
pub proof fn lemma_parse_needs_required_len_v4(s: Seq<u8>, discard: bool)
    requires
        s.len() >= 14,
        be16(s, 12) == ETHERTYPE_IPV4,
        spec_parse(s, discard) is Some,
    ensures
        s.len() >= spec_required_len_v4(s),
{
}

/// Truncation safety for IPv4 frames: slicing a frame to fewer bytes than
/// its claimed header lengths require makes `parse` reject it, whatever the
/// discard flag.
pub proof fn lemma_truncation_safety_v4(s: Seq<u8>, n: int, discard: bool)
    requires
        s.len() >= 14,
        be16(s, 12) == ETHERTYPE_IPV4,
        0 <= n <= s.len(),
        n < spec_required_len_v4(s),
    ensures
        spec_parse(s.take(n), discard) is None,
{
    let t = s.take(n);
    if n < 14 {
        assert(spec_network(t) is None);
    } else {
        assert(t[12] == s[12] && t[13] == s[13]);
        if n < 34 {
            assert(spec_ipv4_view(t) is None);
        } else {
            assert(t[14] == s[14] && t[23] == s[23]);
            let v = spec_ipv4_view(t).unwrap();
            let off = 14 + 4 * (s[14] % 16);
            assert(spec_transport_offset(t, NetworkPacket::Ipv4(v)) == Some(off));
            if s[23] == IP_PROTO_TCP {
                assert(t.len() - off < 20);
            } else if s[23] == IP_PROTO_UDP {
                assert(t.len() - off < 8);
            }
        }
    }
}

/// Truncation safety for IPv6 frames cut inside the fixed header: a frame
/// shorter than the Ethernet header plus the forty fixed IPv6 header bytes
/// is rejected. (A cut beyond that moves the derived transport offset, which
/// is taken from the frame length, so it is not covered here.)
pub proof fn lemma_truncation_short_v6(s: Seq<u8>, discard: bool)
    requires
        s.len() < 54,
    ensures
        be16(s, 12) == ETHERTYPE_IPV6 || s.len() < 14 ==> spec_parse(s, discard) is None,
{
}

/// `pow256` is positive.
proof fn lemma_pow256_pos(n: nat)
    ensures
        pow256(n) >= 1,
    decreases n,
{
    if n > 0 {
        lemma_pow256_pos((n - 1) as nat);
    }
}

/// `pow256` grows with its argument.
proof fn lemma_pow256_increases(a: nat, b: nat)
    requires
        a <= b,
    ensures
        pow256(a) <= pow256(b),
    decreases b,
{
    if a < b {
        lemma_pow256_increases(a, (b - 1) as nat);
        lemma_pow256_pos((b - 1) as nat);
    }
}

} // verus!
