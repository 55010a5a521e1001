use postal::parsed_packet::{IpAddress, NetworkPacket, ParsedPacket, TransportPacket};

/// An Ethernet+IPv4+TCP frame: source 10.0.0.1, destination 10.0.0.2, the
/// given TCP destination port, no TCP options, no payload.
fn ipv4_tcp_frame(port: u16) -> Vec<u8> {
    let mut f = vec![
        0, 1, 2, 3, 4, 5, // destination mac
        6, 7, 8, 9, 10, 11, // source mac
        0x08, 0x00, // ethertype: ipv4
        0x45, 0, 0, 40, // version/ihl, dscp, total length
        0, 0, 0, 0, // identification, flags/fragment
        64, 6, // ttl, protocol: tcp
        0, 0, // header checksum
        10, 0, 0, 1, // source ip
        10, 0, 0, 2, // destination ip
        0xC0, 0x01, // tcp source port
        0, 0, // tcp destination port (patched below)
        0, 0, 0, 0, // sequence
        0, 0, 0, 0, // acknowledgement
        0x50, 0, // data offset = 5, flags
        0, 0, 0, 0, 0, 0, // window, checksum, urgent
    ];
    f[36] = (port >> 8) as u8;
    f[37] = (port & 0xFF) as u8;
    f
}

/// An Ethernet+IPv6+UDP frame: 40 fixed header bytes, then an 8-byte UDP
/// header and no payload, so the advertised payload length is 8.
fn ipv6_udp_frame(port: u16) -> Vec<u8> {
    let mut f = vec![
        0, 1, 2, 3, 4, 5, 6, 7, 8, 9, 10, 11, // macs
        0x86, 0xDD, // ethertype: ipv6
        0x60, 0, 0, 0, // version, traffic class, flow label
        0, 8, // payload length
        17, 64, // next header: udp, hop limit
    ];
    for i in 0..16 {
        f.push(i as u8); // source address 0001…0f
    }
    for i in 16..32 {
        f.push(i as u8); // destination address 1011…1f
    }
    f.extend_from_slice(&[0xC0, 0x02]); // udp source port
    f.push((port >> 8) as u8);
    f.push((port & 0xFF) as u8);
    f.extend_from_slice(&[0, 8, 0, 0]); // udp length, checksum
    f
}

#[test]
fn parse_reports_known_ipv4_tcp_fields() {
    let frame = ipv4_tcp_frame(80);
    let p = ParsedPacket::parse(frame.clone(), false).expect("frame should parse");
    assert_eq!(p.data, frame);
    match p.net {
        NetworkPacket::Ipv4(v) => {
            assert_eq!(v.source, 0x0A000001);
            assert_eq!(v.destination, 0x0A000002);
            assert_eq!(v.header_words, 5);
            assert_eq!(v.protocol, 6);
        }
        _ => panic!("expected an ipv4 view"),
    }
    match p.transport {
        TransportPacket::Tcp(t) => {
            assert_eq!(t.destination, 80);
            assert_eq!(t.payload_start, 54);
            assert_eq!(t.payload_end, 54);
        }
        _ => panic!("expected a tcp view"),
    }
    assert_eq!(p.get_source_ip(), Some(IpAddress::V4(0x0A000001)));
    assert_eq!(p.get_port(), Some(80));
}

#[test]
fn parse_reports_known_ipv6_udp_fields() {
    let frame = ipv6_udp_frame(53);
    assert_eq!(frame.len(), 62);
    let p = ParsedPacket::parse(frame, false).expect("frame should parse");
    let expected_source: u128 = u128::from_be_bytes([
        0, 1, 2, 3, 4, 5, 6, 7, 8, 9, 10, 11, 12, 13, 14, 15,
    ]);
    match p.net {
        NetworkPacket::Ipv6(v) => {
            assert_eq!(v.source, expected_source);
            assert_eq!(v.payload_length, 8);
            assert_eq!(v.next_header, 17);
        }
        _ => panic!("expected an ipv6 view"),
    }
    match p.transport {
        TransportPacket::Udp(u) => {
            assert_eq!(u.destination, 53);
            assert_eq!(u.payload_start, 62);
            assert_eq!(u.payload_end, 62);
        }
        _ => panic!("expected a udp view"),
    }
    assert_eq!(p.get_source_ip(), Some(IpAddress::V6(expected_source)));
}

#[test]
fn parse_rejects_every_truncation_of_a_minimal_tcp_frame() {
    let frame = ipv4_tcp_frame(80);
    for n in 0..frame.len() {
        let cut = frame[..n].to_vec();
        assert!(
            ParsedPacket::parse(cut, false).is_none(),
            "a frame cut to {n} bytes must be rejected"
        );
    }
}

#[test]
fn parse_rejects_short_ipv6_frames() {
    let frame = ipv6_udp_frame(53);
    for n in 0..54 {
        let cut = frame[..n].to_vec();
        assert!(ParsedPacket::parse(cut, false).is_none());
    }
}

#[test]
fn parse_rejects_unknown_ethertype() {
    let mut frame = ipv4_tcp_frame(80);
    frame[12] = 0x08;
    frame[13] = 0x06; // arp
    assert!(ParsedPacket::parse(frame, false).is_none());
}

#[test]
fn discard_rejects_port_22_and_keeps_port_443() {
    let to_22 = ipv4_tcp_frame(22);
    assert!(ParsedPacket::parse(to_22.clone(), true).is_none());
    assert!(ParsedPacket::parse(to_22, false).is_some());

    let to_443 = ipv4_tcp_frame(443);
    assert!(ParsedPacket::parse(to_443.clone(), true).is_some());
    assert!(ParsedPacket::parse(to_443, false).is_some());

    let to_80 = ipv4_tcp_frame(80);
    assert!(ParsedPacket::parse(to_80, true).is_some());
}

#[test]
fn discard_rejects_non_transport_packets() {
    let mut frame = ipv4_tcp_frame(80);
    frame[23] = 1; // icmp
    let kept = ParsedPacket::parse(frame.clone(), false).expect("icmp frame should parse");
    assert!(matches!(kept.transport, TransportPacket::Other));
    assert_eq!(kept.get_port(), None);
    assert!(ParsedPacket::parse(frame, true).is_none());
}

#[test]
fn tcp_options_move_the_payload_start() {
    let mut frame = ipv4_tcp_frame(80);
    frame[46] = 0x60; // data offset = 6 words: 4 bytes of options
    frame.extend_from_slice(&[1, 1, 1, 0, 0xAB, 0xCD]); // options and 2 payload bytes
    let p = ParsedPacket::parse(frame, false).expect("frame should parse");
    match p.transport {
        TransportPacket::Tcp(t) => {
            assert_eq!(t.payload_start, 58);
            assert_eq!(t.payload_end, 60);
        }
        _ => panic!("expected a tcp view"),
    }
    assert_eq!(p.payload(), &[0xAB, 0xCD]);
}

#[test]
fn oversized_ip_header_claim_is_rejected() {
    let mut frame = ipv4_tcp_frame(80);
    frame[14] = 0x4F; // header length field claims 15 words: transport at 74
    assert!(ParsedPacket::parse(frame, false).is_none());
}

#[test]
fn oversized_ipv6_payload_claim_is_rejected() {
    let mut frame = ipv6_udp_frame(53);
    frame[18] = 0xFF; // advertises far more payload than the frame holds
    assert!(ParsedPacket::parse(frame, false).is_none());
}

#[test]
fn udp_frame_cut_inside_its_header_is_rejected() {
    let mut frame = ipv4_tcp_frame(80);
    frame[23] = 17; // claimed as udp
    let cut = frame[..38].to_vec(); // 4 of the 8 udp header bytes
    assert!(ParsedPacket::parse(cut, false).is_none());
}

#[test]
fn payload_is_empty_without_a_transport_view() {
    let mut frame = ipv4_tcp_frame(80);
    frame[23] = 1; // icmp
    let p = ParsedPacket::parse(frame, false).expect("icmp frame should parse");
    assert_eq!(p.payload(), &[] as &[u8]);
}
