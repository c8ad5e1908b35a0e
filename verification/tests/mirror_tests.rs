use pmirror::gtpu_pdu::GtpUPduPacketMirror;
use pmirror::mirror::{
    capture_step, CaptureEvent, LoopDirective, MirrorError, NetworkInterfaceRef, PacketMirror,
};

const SRC_MAC: [u8; 6] = [0x02, 0x11, 0x22, 0x33, 0x44, 0x55];
const DST_MAC: [u8; 6] = [0x02, 0xaa, 0xbb, 0xcc, 0xdd, 0xee];

fn session() -> GtpUPduPacketMirror {
    GtpUPduPacketMirror::construct(
        NetworkInterfaceRef { name: "src0".to_string(), mac: SRC_MAC },
        NetworkInterfaceRef { name: "dst0".to_string(), mac: DST_MAC },
    )
}

/// An Ethernet header with arbitrary addresses and the given ethertype.
fn eth_header(ethertype: [u8; 2]) -> Vec<u8> {
    let mut frame = vec![0x06u8; 6];
    frame.extend_from_slice(&[0x07u8; 6]);
    frame.extend_from_slice(&ethertype);
    frame
}

/// A minimal 20-byte IPv4 header carrying the given protocol.
fn ipv4_header(protocol: u8) -> Vec<u8> {
    let mut header = vec![0u8; 20];
    header[0] = 0x45;
    header[9] = protocol;
    header
}

/// A frame whose UDP payload is a GTP-U message of the given type followed
/// by `inner`.
fn gtpu_frame(message_type: u8, inner: &[u8]) -> Vec<u8> {
    let mut frame = eth_header([0x08, 0x00]);
    frame.extend_from_slice(&ipv4_header(17));
    frame.extend_from_slice(&[0u8; 8]); // UDP header
    let mut gtpu = vec![0x30u8; 8];
    gtpu[1] = message_type;
    frame.extend_from_slice(&gtpu);
    frame.extend_from_slice(inner);
    frame
}

#[test]
fn non_ipv4_frame_rejected() {
    let mut frame = eth_header([0x08, 0x06]); // ARP
    frame.extend_from_slice(&[0u8; 40]);
    let r = session().mirror(&frame);
    assert_eq!(r, Err(MirrorError::NotIPv4));
}

#[test]
fn non_udp_packet_rejected() {
    let mut frame = eth_header([0x08, 0x00]);
    frame.extend_from_slice(&ipv4_header(6)); // TCP
    frame.extend_from_slice(&[0u8; 30]);
    let r = session().mirror(&frame);
    assert_eq!(r, Err(MirrorError::NotUdp));
}

#[test]
fn truncated_frame_rejected() {
    let frame = vec![0u8; 10];
    let r = session().mirror(&frame);
    assert_eq!(r, Err(MirrorError::Malformed));
}

#[test]
fn truncated_ipv4_header_rejected() {
    let mut frame = eth_header([0x08, 0x00]);
    frame.extend_from_slice(&[0u8; 12]);
    let r = session().mirror(&frame);
    assert_eq!(r, Err(MirrorError::Malformed));
}

#[test]
fn undersized_ipv4_header_length_rejected() {
    let mut frame = eth_header([0x08, 0x00]);
    let mut ip = ipv4_header(17);
    ip[0] = 0x44; // 16-byte header length: below the IPv4 minimum
    frame.extend_from_slice(&ip);
    frame.extend_from_slice(&[0u8; 30]);
    let r = session().mirror(&frame);
    assert_eq!(r, Err(MirrorError::Malformed));
}

#[test]
fn overlong_ipv4_header_length_rejected() {
    let mut frame = eth_header([0x08, 0x00]);
    let mut ip = ipv4_header(17);
    ip[0] = 0x4f; // 60-byte header length, but only 20 bytes are present
    frame.extend_from_slice(&ip);
    let r = session().mirror(&frame);
    assert_eq!(r, Err(MirrorError::Malformed));
}

#[test]
fn truncated_udp_header_rejected() {
    let mut frame = eth_header([0x08, 0x00]);
    frame.extend_from_slice(&ipv4_header(17));
    frame.extend_from_slice(&[0u8; 4]); // only half a UDP header
    let r = session().mirror(&frame);
    assert_eq!(r, Err(MirrorError::Malformed));
}

#[test]
fn short_udp_payload_rejected() {
    let mut frame = eth_header([0x08, 0x00]);
    frame.extend_from_slice(&ipv4_header(17));
    frame.extend_from_slice(&[0u8; 8]); // UDP header
    frame.extend_from_slice(&[0x30, 0xff, 0x00, 0x04, 0x00]); // 5 bytes < GTP-U header
    let r = session().mirror(&frame);
    assert_eq!(r, Err(MirrorError::Malformed));
}

#[test]
fn control_message_rejected() {
    // Message type 0x01 (echo request) is a control message, not a PDU.
    let frame = gtpu_frame(0x01, &[0xde, 0xad]);
    let r = session().mirror(&frame);
    assert_eq!(r, Err(MirrorError::NotPdu));
}

#[test]
fn pdu_payload_mirrored() {
    let frame = gtpu_frame(0xff, &[0xde, 0xad, 0xbe]);
    let out = session().mirror(&frame).expect("a PDU frame is mirrored");
    assert_eq!(out.len(), 14 + 3);
    assert_eq!(&out[0..6], &DST_MAC[..]);
    assert_eq!(&out[6..12], &SRC_MAC[..]);
    assert_eq!(&out[12..14], &[0x08u8, 0x00][..]);
    assert_eq!(&out[14..], &[0xdeu8, 0xad, 0xbe][..]);
}

#[test]
fn empty_pdu_gives_minimum_frame() {
    let frame = gtpu_frame(0xff, &[]);
    let out = session().mirror(&frame).expect("an empty PDU is still mirrored");
    assert_eq!(out.len(), 14);
    assert_eq!(&out[0..6], &DST_MAC[..]);
    assert_eq!(&out[6..12], &SRC_MAC[..]);
    assert_eq!(&out[12..14], &[0x08u8, 0x00][..]);
}

#[test]
fn ipv4_options_are_skipped() {
    // A 24-byte IPv4 header (IHL = 6) still locates the UDP payload.
    let mut frame = eth_header([0x08, 0x00]);
    let mut ip = ipv4_header(17);
    ip[0] = 0x46;
    ip.extend_from_slice(&[1, 2, 3, 4]); // one options word
    frame.extend_from_slice(&ip);
    frame.extend_from_slice(&[0u8; 8]); // UDP header
    let mut gtpu = vec![0x30u8; 8];
    gtpu[1] = 0xff;
    frame.extend_from_slice(&gtpu);
    frame.extend_from_slice(&[0x99]);
    let out = session().mirror(&frame).expect("options do not hide the PDU");
    assert_eq!(out.len(), 15);
    assert_eq!(out[14], 0x99);
}

#[test]
fn mirror_is_idempotent() {
    let frame = gtpu_frame(0xff, &[1, 2, 3, 4, 5]);
    let m = session();
    let first = m.mirror(&frame);
    let second = m.mirror(&frame);
    assert_eq!(first, second);
    assert!(first.is_ok());
}

#[test]
fn stream_error_stops_the_loop() {
    let m = session();
    let out = capture_step(&m, &CaptureEvent::StreamError);
    assert_eq!(out.directive, LoopDirective::Stop);
    assert!(out.outbound.is_none());
    assert!(out.failure.is_none());
}

#[test]
fn mirrored_frame_continues_the_loop() {
    let m = session();
    let out = capture_step(&m, &CaptureEvent::Frame(gtpu_frame(0xff, &[9])));
    assert_eq!(out.directive, LoopDirective::Continue);
    let sent = out.outbound.expect("a mirrorable frame is forwarded");
    assert_eq!(sent.len(), 15);
    assert!(out.failure.is_none());
}

#[test]
fn rejected_frame_continues_the_loop() {
    let m = session();
    let out = capture_step(&m, &CaptureEvent::Frame(eth_header([0x86, 0xdd])));
    assert_eq!(out.directive, LoopDirective::Continue);
    assert!(out.outbound.is_none());
    assert_eq!(out.failure, Some(MirrorError::NotIPv4));
}

#[test]
fn constructed_session_keeps_interfaces() {
    let m = session();
    assert_eq!(m.src.name, "src0");
    assert_eq!(m.src.mac, SRC_MAC);
    assert_eq!(m.dst.name, "dst0");
    assert_eq!(m.dst.mac, DST_MAC);
}
