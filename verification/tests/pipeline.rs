use postal::bridge::{bridge_step, BatchKind};
use postal::channel::PacketChannel;
use postal::filter::{FilterState, TransportKindKey};
use postal::packet_list::PacketList;
use postal::parsed_packet::ParsedPacket;
use postal::session::Session;
use postal::source::{source_step, SourceAction};
use postal::store::PacketStore;

/// An Ethernet+IPv4+TCP frame to the given destination port.
fn frame_to_port(port: u16) -> Vec<u8> {
    let mut f = vec![
        0, 1, 2, 3, 4, 5, 6, 7, 8, 9, 10, 11, // macs
        0x08, 0x00, // ethertype: ipv4
        0x45, 0, 0, 40, 0, 0, 0, 0, 64, 6, 0, 0, // ipv4 header
        10, 0, 0, 1, 10, 0, 0, 2, // addresses
        0xC0, 0x01, 0, 0, // tcp ports (destination patched below)
        0, 0, 0, 0, 0, 0, 0, 0, // sequence, acknowledgement
        0x50, 0, 0, 0, 0, 0, 0, 0, // offset, flags, window, checksum, urgent
    ];
    f[36] = (port >> 8) as u8;
    f[37] = (port & 0xFF) as u8;
    f
}

fn packet_to_port(port: u16) -> ParsedPacket {
    ParsedPacket::parse(frame_to_port(port), false).expect("synthetic frame should parse")
}

#[test]
fn batches_preserve_enqueue_order() {
    let mut ch = PacketChannel::new(10);
    for port in 1..=5u16 {
        assert!(ch.push(packet_to_port(port)));
    }
    assert_eq!(ch.len(), 5);
    let batch = ch.drain();
    assert_eq!(ch.len(), 0);
    let event = bridge_step(false, batch, false).expect("an uncancelled step emits");
    assert_eq!(event.kind, BatchKind::Received);
    let ports: Vec<u16> = event.packets.iter().map(|p| p.get_port().unwrap()).collect();
    assert_eq!(ports, vec![1, 2, 3, 4, 5]);
}

#[test]
fn full_channel_rejects_the_next_packet() {
    let mut ch = PacketChannel::new(2);
    assert!(ch.push(packet_to_port(1)));
    assert!(ch.push(packet_to_port(2)));
    assert!(!ch.push(packet_to_port(3)));
    assert_eq!(ch.len(), 2);
    let batch = ch.drain();
    assert_eq!(batch.len(), 2);
    assert_eq!(batch[0].get_port(), Some(1));
    assert_eq!(batch[1].get_port(), Some(2));
}

#[test]
fn cancelled_source_stops_without_reading_again() {
    assert!(matches!(
        source_step(true, Some(frame_to_port(80)), false),
        SourceAction::Stop
    ));
    assert!(matches!(source_step(true, None, true), SourceAction::Stop));
}

#[test]
fn source_skips_read_errors_and_rejected_frames() {
    assert!(matches!(source_step(false, None, false), SourceAction::Skip));
    assert!(matches!(
        source_step(false, Some(frame_to_port(22)), true),
        SourceAction::Skip
    ));
}

#[test]
fn source_sends_the_parsed_frame() {
    let frame = frame_to_port(443);
    match source_step(false, Some(frame.clone()), true) {
        SourceAction::Send(p) => {
            assert_eq!(p.data, frame);
            assert_eq!(p.get_port(), Some(443));
        }
        _ => panic!("a parsed frame must be sent"),
    }
}

#[test]
fn bridge_terminates_after_cancellation_with_one_drained_batch() {
    // Cancellation resolves during the wait: one final batch, tagged drained.
    let event = bridge_step(false, vec![packet_to_port(7)], true).expect("the step still emits");
    assert_eq!(event.kind, BatchKind::Drained);
    assert_eq!(event.packets.len(), 1);
    // The next step begins cancelled: terminal, no event.
    assert!(bridge_step(true, Vec::new(), true).is_none());
}

#[test]
fn retention_evicts_oldest_and_keeps_survivor_order() {
    let mut store = PacketStore::new(3);
    let batch: Vec<ParsedPacket> = (1..=5u16).map(packet_to_port).collect();
    store.append_batch(batch);
    assert_eq!(store.len(), 3);
    let ports: Vec<u16> = store.packets.iter().map(|p| p.get_port().unwrap()).collect();
    assert_eq!(ports, vec![3, 4, 5]);
    assert_eq!(store.total_captured, 5);
    assert_eq!(store.total_mem, 5 * 54);

    store.append_batch(vec![packet_to_port(6)]);
    let ports: Vec<u16> = store.packets.iter().map(|p| p.get_port().unwrap()).collect();
    assert_eq!(ports, vec![4, 5, 6]);
    assert_eq!(store.total_captured, 6);
}

#[test]
fn clearing_the_store_resets_the_counters() {
    let mut store = PacketStore::new(10);
    store.append_batch(vec![packet_to_port(1), packet_to_port(2)]);
    store.clear();
    assert_eq!(store.len(), 0);
    assert_eq!(store.total_captured, 0);
    assert_eq!(store.total_mem, 0);
}

#[test]
fn shrinking_the_cap_evicts_oldest_entries() {
    let mut store = PacketStore::new(5);
    store.append_batch((1..=5u16).map(packet_to_port).collect());
    store.set_cap(2);
    let ports: Vec<u16> = store.packets.iter().map(|p| p.get_port().unwrap()).collect();
    assert_eq!(ports, vec![4, 5]);
}

#[test]
fn stop_is_idempotent() {
    let mut s = Session::new();
    assert!(!s.is_active());
    s.stop(); // never started: no effect, no fault
    assert!(!s.is_active());

    s.start(true, false);
    assert!(s.is_active());
    s.stop();
    assert!(!s.is_active());
    s.stop(); // already stopped: still no effect, no fault
    assert!(!s.is_active());
}

#[test]
fn failed_open_leaves_the_session_not_running() {
    let mut s = Session::new();
    s.start(false, true);
    assert!(!s.is_active());
}

#[test]
fn default_filter_shows_tcp_only() {
    let f = FilterState::new();
    assert!(f.visible(&packet_to_port(22)));
    let mut frame = frame_to_port(80);
    frame[23] = 17; // same frame, claimed as udp: 20 transport bytes suffice
    let udp = ParsedPacket::parse(frame, false).expect("udp frame should parse");
    assert!(!f.visible(&udp));
}

#[test]
fn port_allow_list_restricts_visibility() {
    let mut f = FilterState::new();
    f.ports = vec![80, 443];
    assert!(f.visible(&packet_to_port(80)));
    assert!(!f.visible(&packet_to_port(22)));
}

#[test]
fn toggles_hide_and_show_kinds() {
    let mut f = FilterState::new();
    f.set_toggle(TransportKindKey::Tcp, false);
    assert!(!f.visible(&packet_to_port(80)));
    f.set_toggle(TransportKindKey::Tcp, true);
    assert!(f.visible(&packet_to_port(80)));
}

#[test]
fn visible_indices_select_the_shown_packets() {
    let packets: Vec<ParsedPacket> = vec![
        packet_to_port(80),
        packet_to_port(22),
        packet_to_port(443),
    ];
    let mut f = FilterState::new();
    f.ports = vec![80, 443];
    let idx = PacketList::visible_indices(&packets, &f);
    assert_eq!(idx, vec![0, 2]);
}
