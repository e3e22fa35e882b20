use bgb_link::packet::BgbPacket;
use bgb_link::transport::{handshake_ok, initial_status_packet, version_packet, LinkTransport};

#[test]
fn handshake_packets() {
    let v = version_packet();
    assert_eq!(v, BgbPacket::new(1, 1, 4, 0, 0));
    let s = initial_status_packet();
    assert_eq!(s, BgbPacket::new(108, 1, 0, 0, 0));
}

#[test]
fn handshake_accepts_only_version() {
    assert!(handshake_ok(&BgbPacket::new(1, 1, 4, 0, 99)));
    assert!(!handshake_ok(&BgbPacket::new(108, 1, 0, 0, 0)));
    assert!(!handshake_ok(&BgbPacket::new(104, 1, 0, 0, 0)));
}

#[test]
fn initiate_builds_master_sync1_with_stepped_clock() {
    let mut t = LinkTransport::new();
    assert!(t.is_idle());
    let pkt = t.initiate(0x29);
    assert_eq!(pkt, BgbPacket::new(104, 0x29, 0x81, 0, 8192));
    assert!(!t.is_idle());
}

#[test]
fn clock_advances_per_exchange_only() {
    let mut t = LinkTransport::new();
    let p1 = t.initiate(0x11);
    assert_eq!(p1.timestamp, 8192);
    // Completing the exchange does not advance the clock.
    let done = t.handle_packet(&BgbPacket::new(105, 0x22, 0x80, 0, 500));
    assert_eq!(done.deliver, Some(0x22));
    let p2 = t.initiate(0x12);
    assert_eq!(p2.timestamp, 16384);
}

#[test]
fn collision_replies_pending_byte_and_delivers_incoming_data() {
    // Both sides sent sync1: ours carried 0x50, the peer's carries 0x77.
    let mut t = LinkTransport::new();
    t.initiate(0x50);
    let incoming = BgbPacket::new(104, 0x77, 0x81, 0, 1234);
    let out = t.handle_packet(&incoming);
    assert_eq!(out.reply, Some(BgbPacket::new(105, 0x50, 0x80, 0, 1234)));
    assert_eq!(out.deliver, Some(0x77));
    assert!(!out.disconnect);
    assert!(t.is_idle());
}

#[test]
fn unsolicited_sync1_gets_null_reply_and_completes_nothing() {
    let mut t = LinkTransport::new();
    let incoming = BgbPacket::new(104, 0x42, 0x81, 0, 777);
    let out = t.handle_packet(&incoming);
    assert_eq!(out.reply, Some(BgbPacket::new(105, 0x00, 0x80, 0, 777)));
    assert_eq!(out.deliver, None);
    assert!(!out.disconnect);
    assert!(t.is_idle());
}

#[test]
fn sync2_completes_outstanding_exchange() {
    let mut t = LinkTransport::new();
    t.initiate(0x29);
    let out = t.handle_packet(&BgbPacket::new(105, 0x55, 0x80, 0, 42));
    assert_eq!(out.reply, None);
    assert_eq!(out.deliver, Some(0x55));
    assert!(!out.disconnect);
    assert!(t.is_idle());
}

#[test]
fn stale_sync2_is_discarded_without_effect() {
    let mut t = LinkTransport::new();
    let out = t.handle_packet(&BgbPacket::new(105, 0x99, 0x80, 0, 42));
    assert_eq!(out.reply, None);
    assert_eq!(out.deliver, None);
    assert!(!out.disconnect);
    assert!(t.is_idle());
}

#[test]
fn sync3_is_echoed_verbatim() {
    let mut t = LinkTransport::new();
    let ack = BgbPacket::new(106, 0x12, 0x34, 0x56, 9001);
    let out = t.handle_packet(&ack);
    assert_eq!(out.reply, Some(ack));
    assert_eq!(out.deliver, None);
}

#[test]
fn status_query_answered_running_with_peer_timestamp() {
    let mut t = LinkTransport::new();
    let out = t.handle_packet(&BgbPacket::new(108, 0, 0x12, 0, 31337));
    assert_eq!(out.reply, Some(BgbPacket::new(108, 1, 0, 0, 31337)));
    assert_eq!(out.deliver, None);
}

#[test]
fn disconnect_request_reported() {
    let mut t = LinkTransport::new();
    let out = t.handle_packet(&BgbPacket::new(109, 0, 0, 0, 0));
    assert!(out.disconnect);
    assert_eq!(out.reply, None);
    assert_eq!(out.deliver, None);
}

#[test]
fn unknown_command_is_tolerated_and_ignored() {
    let mut t = LinkTransport::new();
    t.initiate(0x10);
    let out = t.handle_packet(&BgbPacket::new(0xEE, 1, 2, 3, 4));
    assert_eq!(out.reply, None);
    assert_eq!(out.deliver, None);
    assert!(!out.disconnect);
    // The outstanding exchange is untouched.
    assert!(!t.is_idle());
}

#[test]
fn reassembly_cuts_packets_in_arrival_order() {
    let mut t = LinkTransport::new();
    let a = BgbPacket::new(106, 1, 0, 0, 100).to_bytes();
    let b = BgbPacket::new(108, 2, 0, 0, 200).to_bytes();
    // Deliver one and a half packets, then the rest.
    let mut stream = Vec::new();
    stream.extend_from_slice(&a);
    stream.extend_from_slice(&b[..4]);
    t.push_bytes(&stream);
    assert_eq!(t.next_packet(), Some(BgbPacket::new(106, 1, 0, 0, 100)));
    assert_eq!(t.next_packet(), None);
    t.push_bytes(&b[4..]);
    assert_eq!(t.next_packet(), Some(BgbPacket::new(108, 2, 0, 0, 200)));
    assert_eq!(t.next_packet(), None);
}

#[test]
fn reassembly_keeps_remainder_bytes() {
    let mut t = LinkTransport::new();
    let bytes = [104u8, 0x29, 0x81, 0, 1, 0, 0, 0, 0xAB, 0xCD];
    t.push_bytes(&bytes);
    let pkt = t.next_packet().unwrap();
    assert_eq!(pkt.command, 104);
    assert_eq!(pkt.timestamp, 1);
    // The two remainder bytes wait at the buffer front.
    assert_eq!(t.next_packet(), None);
    t.push_bytes(&[0, 0, 0, 0, 0, 0]);
    let second = t.next_packet().unwrap();
    assert_eq!(second.command, 0xAB);
    assert_eq!(second.data, 0xCD);
}
