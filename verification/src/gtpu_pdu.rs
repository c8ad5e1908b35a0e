//! The GTP-U PDU profile of the packet mirror: the byte-level description
//! of the Ethernet / IPv4 / UDP / GTP-U layering, the session type that
//! strips the tunnel header and rebuilds the inner payload as a fresh
//! Ethernet frame, and the laws of the pipeline.

use vstd::prelude::*;

use crate::mirror::{MirrorError, NetworkInterfaceRef, PacketMirror, result_view};

verus! {

/// Length of the fixed Ethernet header: two 6-byte addresses and a 2-byte
/// ethertype.
pub const ETHERNET_HEADER_LEN: usize = 14;

/// The ethertype that tags an IPv4 payload.
pub const ETHERTYPE_IPV4: u16 = 0x0800;

/// The shortest well-formed IPv4 header: 20 bytes, no options.
pub const IPV4_MIN_HEADER_LEN: usize = 20;

/// The IPv4 protocol number of UDP.
pub const IPV4_PROTOCOL_UDP: u8 = 17;

/// Length of a UDP header.
pub const UDP_HEADER_LEN: usize = 8;

/// Length of the GTP-U header of a PDU message.
pub const GTPU_HEADER_LEN: usize = 8;

/// Offset of the message type within a GTP-U header.
pub const GTPU_MESSAGE_TYPE_INDEX: usize = 1;

/// The GTP-U message type of a PDU (user data) message.
pub const GTPU_MESSAGE_TYPE_PDU: u8 = 0xff;

/// The ethertype of a frame: the big-endian 16-bit tag after the two
/// hardware addresses.
pub open spec fn spec_ethertype(frame: Seq<u8>) -> int
    recommends
        frame.len() >= ETHERNET_HEADER_LEN,
{
    frame[12] * 0x100 + frame[13]
}

/// The payload of an Ethernet frame: everything after the 14-byte header.
pub open spec fn spec_eth_payload(frame: Seq<u8>) -> Seq<u8>
    recommends
        frame.len() >= ETHERNET_HEADER_LEN,
{
    frame.skip(ETHERNET_HEADER_LEN as int)
}

/// The protocol carried by an IPv4 packet, read from header offset 9.
pub open spec fn spec_ipv4_protocol(ip: Seq<u8>) -> u8
    recommends
        ip.len() >= IPV4_MIN_HEADER_LEN,
{
    ip[9]
}

/// The length in bytes of an IPv4 header: the low nibble of the first byte
/// counts 32-bit words.
pub open spec fn spec_ipv4_header_len(ip: Seq<u8>) -> int
    recommends
        ip.len() >= 1,
{
    (ip[0] % 0x10) * 4
}

/// The payload of an IPv4 packet: everything after its header.
pub open spec fn spec_ipv4_payload(ip: Seq<u8>) -> Seq<u8>
    recommends
        IPV4_MIN_HEADER_LEN <= spec_ipv4_header_len(ip) <= ip.len(),
{
    ip.skip(spec_ipv4_header_len(ip))
}

/// The payload of a UDP datagram: everything after the 8-byte header.
pub open spec fn spec_udp_payload(udp: Seq<u8>) -> Seq<u8>
    recommends
        udp.len() >= UDP_HEADER_LEN,
{
    udp.skip(UDP_HEADER_LEN as int)
}

/// Whether a GTP-U message is a PDU (user data) message.
pub open spec fn spec_is_pdu(message: Seq<u8>) -> bool
    recommends
        message.len() >= GTPU_HEADER_LEN,
{
    message[GTPU_MESSAGE_TYPE_INDEX as int] == GTPU_MESSAGE_TYPE_PDU
}

/// The tunneled payload of a GTP-U PDU message: everything after the
/// 8-byte GTP-U header. It may be empty.
pub open spec fn spec_stripped_pdu(message: Seq<u8>) -> Seq<u8>
    recommends
        message.len() >= GTPU_HEADER_LEN,
{
    message.skip(GTPU_HEADER_LEN as int)
}

/// The outbound frame rebuilt around a stripped payload: destination and
/// source hardware addresses, the IPv4 ethertype, then the payload.
pub open spec fn spec_rebuilt_frame(dst_mac: Seq<u8>, src_mac: Seq<u8>, payload: Seq<u8>) -> Seq<u8> {
    dst_mac + src_mac + seq![0x08u8, 0x00u8] + payload
}

/// The whole pipeline over one captured frame: each layer is accepted or
/// the frame is rejected with the class of the first failing step.
///
/// The steps, in order: the frame must hold an Ethernet header tagged
/// IPv4; its payload must hold an IPv4 header carrying UDP whose declared
/// header length is sound; the UDP payload must hold a GTP-U header whose
/// message type is PDU. A buffer too short for any step is `Malformed`.
/// On success the tunneled payload is rewrapped via `spec_rebuilt_frame`.
pub open spec fn spec_mirror(frame: Seq<u8>, src_mac: Seq<u8>, dst_mac: Seq<u8>) -> Result<
    Seq<u8>,
    MirrorError,
> {
    if frame.len() < ETHERNET_HEADER_LEN {
        Err(MirrorError::Malformed)
    } else if spec_ethertype(frame) != ETHERTYPE_IPV4 {
        Err(MirrorError::NotIPv4)
    } else {
        let ip = spec_eth_payload(frame);
        if ip.len() < IPV4_MIN_HEADER_LEN {
            Err(MirrorError::Malformed)
        } else if spec_ipv4_protocol(ip) != IPV4_PROTOCOL_UDP {
            Err(MirrorError::NotUdp)
        } else if spec_ipv4_header_len(ip) < IPV4_MIN_HEADER_LEN || ip.len() < spec_ipv4_header_len(
            ip,
        ) {
            Err(MirrorError::Malformed)
        } else {
            let udp = spec_ipv4_payload(ip);
            if udp.len() < UDP_HEADER_LEN {
                Err(MirrorError::Malformed)
            } else {
                let message = spec_udp_payload(udp);
                if message.len() < GTPU_HEADER_LEN {
                    Err(MirrorError::Malformed)
                } else if !spec_is_pdu(message) {
                    Err(MirrorError::NotPdu)
                } else {
                    Ok(spec_rebuilt_frame(dst_mac, src_mac, spec_stripped_pdu(message)))
                }
            }
        }
    }
}

/// Read the big-endian ethertype of a frame.
pub fn read_ethertype(frame: &Vec<u8>) -> (r: u16)
    requires
        frame@.len() >= ETHERNET_HEADER_LEN,
    ensures
        r as int == spec_ethertype(frame@),
{
    (frame[12] as u16) * 0x100 + (frame[13] as u16)
}

/// Build the outbound frame: `dst_mac`, `src_mac`, the IPv4 ethertype,
/// then the tail of `frame` from `payload_start` on.
pub fn rebuild_frame(dst_mac: &[u8; 6], src_mac: &[u8; 6], frame: &Vec<u8>, payload_start: usize) -> (out: Vec<
    u8,
>)
    requires
        payload_start <= frame@.len(),
    ensures
        out@ == spec_rebuilt_frame(dst_mac@, src_mac@, frame@.skip(payload_start as int)),
{
    let mut out: Vec<u8> = Vec::new();
    let mut i: usize = 0;
    while i < 6
        invariant
            i <= 6,
            out@ == dst_mac@.take(i as int),
        decreases 6 - i,
    {
        out.push(dst_mac[i]);
        i = i + 1;
        proof {
            assert(out@ =~= dst_mac@.take(i as int));
        }
    }
    i = 0;
    while i < 6
        invariant
            i <= 6,
            out@ == dst_mac@ + src_mac@.take(i as int),
        decreases 6 - i,
    {
        out.push(src_mac[i]);
        i = i + 1;
        proof {
            assert(out@ =~= dst_mac@ + src_mac@.take(i as int));
        }
    }
    out.push(0x08);
    out.push(0x00);
    let ghost prefix: Seq<u8> = dst_mac@ + src_mac@ + seq![0x08u8, 0x00u8];
    proof {
        assert(out@ =~= prefix);
    }
    let mut j: usize = payload_start;
    while j < frame.len()
        invariant
            payload_start <= j <= frame@.len(),
            prefix == dst_mac@ + src_mac@ + seq![0x08u8, 0x00u8],
            out@ == prefix + frame@.subrange(payload_start as int, j as int),
        decreases frame@.len() - j,
    {
        out.push(frame[j]);
        j = j + 1;
        proof {
            assert(out@ =~= prefix + frame@.subrange(payload_start as int, j as int));
        }
    }
    proof {
        assert(out@ =~= spec_rebuilt_frame(dst_mac@, src_mac@, frame@.skip(payload_start as int)));
    }
    out
}

/// A mirroring session for GTP-U PDU traffic: frames whose UDP payload is
/// a GTP-U user-data message have the tunnel header stripped, and the inner
/// payload is rewrapped in a fresh Ethernet frame from the session's source
/// address to its destination address.
pub struct GtpUPduPacketMirror {
    /// The interface the mirrored traffic is captured on.
    pub src: NetworkInterfaceRef,
    /// The interface the rebuilt frames are addressed to.
    pub dst: NetworkInterfaceRef,
}

impl PacketMirror for GtpUPduPacketMirror {
    /// The outcome of `mirror` is `spec_mirror` over the frame bytes and
    /// the session's two hardware addresses.
    open spec fn mirror_spec(&self, frame: Seq<u8>) -> Result<Seq<u8>, MirrorError> {
        spec_mirror(frame, self.src.mac@, self.dst.mac@)
    }

    open spec fn constructed_from(&self, src: NetworkInterfaceRef, dst: NetworkInterfaceRef) -> bool {
        self.src == src && self.dst == dst
    }

    fn construct(src: NetworkInterfaceRef, dst: NetworkInterfaceRef) -> (s: Self) {
        GtpUPduPacketMirror { src, dst }
    }

    /// Run the validation and transformation pipeline over one captured
    /// frame. On success the rebuilt outbound frame is returned for the
    /// caller to send; each early exit names the first failing step.
    fn mirror(&self, frame: &Vec<u8>) -> (r: Result<Vec<u8>, MirrorError>) {
        let n = frame.len();
        if n < ETHERNET_HEADER_LEN {
            return Err(MirrorError::Malformed);
        }
        let ethertype = read_ethertype(frame);
        if ethertype != ETHERTYPE_IPV4 {
            return Err(MirrorError::NotIPv4);
        }
        let ghost ip: Seq<u8> = spec_eth_payload(frame@);
        proof {
            assert(ip.len() == n - ETHERNET_HEADER_LEN);
        }
        if n - ETHERNET_HEADER_LEN < IPV4_MIN_HEADER_LEN {
            return Err(MirrorError::Malformed);
        }
        let protocol = frame[ETHERNET_HEADER_LEN + 9];
        proof {
            assert(spec_ipv4_protocol(ip) == frame@[ETHERNET_HEADER_LEN + 9]);
        }
        if protocol != IPV4_PROTOCOL_UDP {
            return Err(MirrorError::NotUdp);
        }
        let header_len: usize = ((frame[ETHERNET_HEADER_LEN] % 0x10) as usize) * 4;
        proof {
            assert(spec_ipv4_header_len(ip) == header_len);
        }
        if header_len < IPV4_MIN_HEADER_LEN || n - ETHERNET_HEADER_LEN < header_len {
            return Err(MirrorError::Malformed);
        }
        let udp_start = ETHERNET_HEADER_LEN + header_len;
        let ghost udp: Seq<u8> = spec_ipv4_payload(ip);
        proof {
            assert(udp =~= frame@.skip(udp_start as int));
        }
        if n - udp_start < UDP_HEADER_LEN {
            return Err(MirrorError::Malformed);
        }
        let message_start = udp_start + UDP_HEADER_LEN;
        let ghost message: Seq<u8> = spec_udp_payload(udp);
        proof {
            assert(message =~= frame@.skip(message_start as int));
        }
        if n - message_start < GTPU_HEADER_LEN {
            return Err(MirrorError::Malformed);
        }
        let message_type = frame[message_start + GTPU_MESSAGE_TYPE_INDEX];
        proof {
            assert(message[GTPU_MESSAGE_TYPE_INDEX as int] == frame@[message_start
                + GTPU_MESSAGE_TYPE_INDEX]);
        }
        if message_type != GTPU_MESSAGE_TYPE_PDU {
            return Err(MirrorError::NotPdu);
        }
        let payload_start = message_start + GTPU_HEADER_LEN;
        proof {
            assert(spec_stripped_pdu(message) =~= frame@.skip(payload_start as int));
        }
        Ok(rebuild_frame(&self.dst.mac, &self.src.mac, frame, payload_start))
    }
}

/// A frame whose ethertype is not IPv4 is rejected as `NotIPv4`; no
/// outbound frame exists for a caller to send.
pub proof fn lemma_non_ipv4_rejected(frame: Seq<u8>, src_mac: Seq<u8>, dst_mac: Seq<u8>)
    requires
        frame.len() >= ETHERNET_HEADER_LEN,
        spec_ethertype(frame) != ETHERTYPE_IPV4,
    ensures
        spec_mirror(frame, src_mac, dst_mac) == Err::<Seq<u8>, MirrorError>(MirrorError::NotIPv4),
{
}

/// An IPv4 frame whose packet carries a protocol other than UDP is
/// rejected as `NotUdp`; no outbound frame exists for a caller to send.
pub proof fn lemma_non_udp_rejected(frame: Seq<u8>, src_mac: Seq<u8>, dst_mac: Seq<u8>)
    requires
        frame.len() >= ETHERNET_HEADER_LEN,
        spec_ethertype(frame) == ETHERTYPE_IPV4,
        spec_eth_payload(frame).len() >= IPV4_MIN_HEADER_LEN,
        spec_ipv4_protocol(spec_eth_payload(frame)) != IPV4_PROTOCOL_UDP,
    ensures
        spec_mirror(frame, src_mac, dst_mac) == Err::<Seq<u8>, MirrorError>(MirrorError::NotUdp),
{
}

/// A frame whose layering is sound down to the IPv4 payload, but whose
/// UDP payload is shorter than a GTP-U header, is rejected as `Malformed`;
/// no outbound frame exists for a caller to send. This covers both a
/// truncated UDP datagram and a truncated GTP-U message.
pub proof fn lemma_short_pdu_rejected(frame: Seq<u8>, src_mac: Seq<u8>, dst_mac: Seq<u8>)
    requires
        frame.len() >= ETHERNET_HEADER_LEN,
        spec_ethertype(frame) == ETHERTYPE_IPV4,
        spec_eth_payload(frame).len() >= IPV4_MIN_HEADER_LEN,
        spec_ipv4_protocol(spec_eth_payload(frame)) == IPV4_PROTOCOL_UDP,
        IPV4_MIN_HEADER_LEN <= spec_ipv4_header_len(spec_eth_payload(frame)) <= spec_eth_payload(
            frame,
        ).len(),
        spec_udp_payload(spec_ipv4_payload(spec_eth_payload(frame))).len() < GTPU_HEADER_LEN,
    ensures
        spec_mirror(frame, src_mac, dst_mac) == Err::<Seq<u8>, MirrorError>(MirrorError::Malformed),
{
}

/// A GTP-U message of full header length whose message type is not PDU is
/// rejected as `NotPdu`; no outbound frame exists for a caller to send.
pub proof fn lemma_non_pdu_rejected(frame: Seq<u8>, src_mac: Seq<u8>, dst_mac: Seq<u8>)
    requires
        frame.len() >= ETHERNET_HEADER_LEN,
        spec_ethertype(frame) == ETHERTYPE_IPV4,
        spec_eth_payload(frame).len() >= IPV4_MIN_HEADER_LEN,
        spec_ipv4_protocol(spec_eth_payload(frame)) == IPV4_PROTOCOL_UDP,
        IPV4_MIN_HEADER_LEN <= spec_ipv4_header_len(spec_eth_payload(frame)) <= spec_eth_payload(
            frame,
        ).len(),
        spec_ipv4_payload(spec_eth_payload(frame)).len() >= UDP_HEADER_LEN,
        spec_udp_payload(spec_ipv4_payload(spec_eth_payload(frame))).len() >= GTPU_HEADER_LEN,
        !spec_is_pdu(spec_udp_payload(spec_ipv4_payload(spec_eth_payload(frame)))),
    ensures
        spec_mirror(frame, src_mac, dst_mac) == Err::<Seq<u8>, MirrorError>(MirrorError::NotPdu),
{
}

/// A well-formed chain — Ethernet tagged IPv4, IPv4 carrying UDP with a
/// sound header length, a UDP payload holding a GTP-U PDU message — is
/// mirrored: the outcome is exactly one outbound frame holding the two
/// session addresses, the IPv4 ethertype, and the tunneled payload byte
/// for byte. With 6-byte addresses its total length is 14 plus the length
/// of the tunneled payload; a zero-length tunneled payload yields the
/// minimum-size 14-byte frame.
pub proof fn lemma_wellformed_mirrored(frame: Seq<u8>, src_mac: Seq<u8>, dst_mac: Seq<u8>)
    requires
        frame.len() >= ETHERNET_HEADER_LEN,
        spec_ethertype(frame) == ETHERTYPE_IPV4,
        spec_eth_payload(frame).len() >= IPV4_MIN_HEADER_LEN,
        spec_ipv4_protocol(spec_eth_payload(frame)) == IPV4_PROTOCOL_UDP,
        IPV4_MIN_HEADER_LEN <= spec_ipv4_header_len(spec_eth_payload(frame)) <= spec_eth_payload(
            frame,
        ).len(),
        spec_ipv4_payload(spec_eth_payload(frame)).len() >= UDP_HEADER_LEN,
        spec_udp_payload(spec_ipv4_payload(spec_eth_payload(frame))).len() >= GTPU_HEADER_LEN,
        spec_is_pdu(spec_udp_payload(spec_ipv4_payload(spec_eth_payload(frame)))),
    ensures
        spec_mirror(frame, src_mac, dst_mac) == Ok::<Seq<u8>, MirrorError>(
            spec_rebuilt_frame(
                dst_mac,
                src_mac,
                spec_stripped_pdu(spec_udp_payload(spec_ipv4_payload(spec_eth_payload(frame)))),
            ),
        ),
        src_mac.len() == 6 && dst_mac.len() == 6 ==> spec_mirror(
            frame,
            src_mac,
            dst_mac,
        )->Ok_0.len() == 14 + spec_stripped_pdu(
            spec_udp_payload(spec_ipv4_payload(spec_eth_payload(frame))),
        ).len(),
{
}

/// Mirroring keeps no hidden state: any two outcomes that satisfy the
/// pipeline's contract for the same frame and the same pair of addresses
/// are structurally identical.
pub proof fn lemma_mirror_idempotent(
    frame: Seq<u8>,
    src_mac: Seq<u8>,
    dst_mac: Seq<u8>,
    r1: Result<Seq<u8>, MirrorError>,
    r2: Result<Seq<u8>, MirrorError>,
)
    requires
        r1 == spec_mirror(frame, src_mac, dst_mac),
        r2 == spec_mirror(frame, src_mac, dst_mac),
    ensures
        r1 == r2,
{
}

} // verus!
