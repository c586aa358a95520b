//! Packet codec: decoding IPv4/TCP/UDP packets from raw bytes, and
//! building response packets with a correct IPv4 header checksum.

use vstd::prelude::*;
use crate::net::{spec_octet0, spec_octet1, spec_octet2, spec_octet3, octet0, octet1, octet2,
    octet3};

verus! {

/// The two transport protocols the engine relays.
#[derive(Clone, Copy, Debug, PartialEq, Eq, Structural)]
pub enum Protocol {
    Tcp,
    Udp,
}

impl Protocol {
    /// The IPv4 protocol number: 6 for TCP, 17 for UDP.
    pub open spec fn spec_number(self) -> u8 {
        match self {
            Protocol::Tcp => 6,
            Protocol::Udp => 17,
        }
    }

    #[verifier::when_used_as_spec(spec_number)]
    pub fn number(self) -> (n: u8)
        ensures
            n == self.spec_number(),
    {
        match self {
            Protocol::Tcp => 6,
            Protocol::Udp => 17,
        }
    }
}

/// The identity of one flow: addresses, ports and protocol.
#[derive(Clone, Copy, Debug, PartialEq, Eq, Structural)]
pub struct FlowKey {
    pub src_ip: u32,
    pub src_port: u16,
    pub dst_ip: u32,
    pub dst_port: u16,
    pub protocol: Protocol,
}

/// The fields read out of one TCP or UDP packet.
pub struct DecodedPacket {
    pub protocol: Protocol,
    pub src_ip: u32,
    pub src_port: u16,
    pub dst_ip: u32,
    pub dst_port: u16,
    pub payload: Vec<u8>,
}

/// The mathematical model of a decoded packet.
pub struct PacketModel {
    pub protocol: Protocol,
    pub src_ip: u32,
    pub src_port: u16,
    pub dst_ip: u32,
    pub dst_port: u16,
    pub payload: Seq<u8>,
}

impl View for DecodedPacket {
    type V = PacketModel;

    open spec fn view(&self) -> PacketModel {
        PacketModel {
            protocol: self.protocol,
            src_ip: self.src_ip,
            src_port: self.src_port,
            dst_ip: self.dst_ip,
            dst_port: self.dst_port,
            payload: self.payload@,
        }
    }
}

/// The big-endian 16-bit value at offset `i`.
pub open spec fn spec_be16(b: Seq<u8>, i: int) -> u16
    recommends
        0 <= i,
        i + 2 <= b.len(),
{
    ((b[i] as u32) * 0x100 + (b[i + 1] as u32)) as u16
}

/// The big-endian 32-bit value at offset `i`.
pub open spec fn spec_be32(b: Seq<u8>, i: int) -> u32
    recommends
        0 <= i,
        i + 4 <= b.len(),
{
    ((b[i] as u32) * 0x100_0000 + (b[i + 1] as u32) * 0x1_0000 + (b[i + 2] as u32) * 0x100 + (b[i
        + 3] as u32)) as u32
}

/// The high byte of a 16-bit value.
pub open spec fn spec_hi8(x: u16) -> u8 {
    (x / 0x100) as u8
}

/// The low byte of a 16-bit value.
pub open spec fn spec_lo8(x: u16) -> u8 {
    (x % 0x100) as u8
}

/// What `decode` returns on any byte sequence: `None` unless the bytes
/// form an IPv4 packet, at least as long as its declared header length,
/// carrying a complete TCP or UDP header.
pub open spec fn spec_decode(b: Seq<u8>) -> Option<PacketModel> {
    if b.len() < 20 {
        None
    } else if b[0] / 16 != 4 {
        None
    } else {
        let ihl = (b[0] % 16) as int * 4;
        if ihl < 20 || b.len() < ihl {
            None
        } else {
            let src = spec_be32(b, 12);
            let dst = spec_be32(b, 16);
            if b[9] == 6 {
                if b.len() < ihl + 20 {
                    None
                } else {
                    let off = (b[ihl + 12] / 16) as int * 4;
                    if off < 20 || b.len() < ihl + off {
                        None
                    } else {
                        Some(
                            PacketModel {
                                protocol: Protocol::Tcp,
                                src_ip: src,
                                src_port: spec_be16(b, ihl),
                                dst_ip: dst,
                                dst_port: spec_be16(b, ihl + 2),
                                payload: b.subrange(ihl + off, b.len() as int),
                            },
                        )
                    }
                }
            } else if b[9] == 17 {
                if b.len() < ihl + 8 {
                    None
                } else {
                    Some(
                        PacketModel {
                            protocol: Protocol::Udp,
                            src_ip: src,
                            src_port: spec_be16(b, ihl),
                            dst_ip: dst,
                            dst_port: spec_be16(b, ihl + 2),
                            payload: b.subrange(ihl + 8, b.len() as int),
                        },
                    )
                }
            } else {
                None
            }
        }
    }
}

/// Reads the big-endian 16-bit value at offset `i`.
pub fn read_be16(b: &Vec<u8>, i: usize) -> (r: u16)
    requires
        i + 2 <= b@.len(),
    ensures
        r == spec_be16(b@, i as int),
{
    let n = b.len();
    assert(i + 1 < n);
    (b[i] as u16) * 0x100 + (b[i + 1] as u16)
}

/// Reads the big-endian 32-bit value at offset `i`.
pub fn read_be32(b: &Vec<u8>, i: usize) -> (r: u32)
    requires
        i + 4 <= b@.len(),
    ensures
        r == spec_be32(b@, i as int),
{
    let n = b.len();
    assert(i + 3 < n);
    (b[i] as u32) * 0x100_0000 + (b[i + 1] as u32) * 0x1_0000 + (b[i + 2] as u32) * 0x100 + (b[i
        + 3] as u32)
}

/// Copies `b[from..to]` into a fresh vector.
fn copy_range(b: &Vec<u8>, from: usize, to: usize) -> (r: Vec<u8>)
    requires
        from <= to <= b@.len(),
    ensures
        r@ == b@.subrange(from as int, to as int),
{
    let mut r: Vec<u8> = Vec::new();
    let mut j: usize = from;
    while j < to
        invariant
            from <= j <= to <= b@.len(),
            r@ == b@.subrange(from as int, j as int),
        decreases to - j,
    {
        r.push(b[j]);
        j = j + 1;
        proof {
            assert(r@ =~= b@.subrange(from as int, j as int));
        }
    }
    r
}

/// Decodes one raw IP packet. Returns `None` for anything that is not a
/// complete IPv4 TCP or UDP packet; such packets are silently dropped by
/// the engine, never treated as errors.
pub fn decode(bytes: &Vec<u8>) -> (r: Option<DecodedPacket>)
    ensures
        r is Some <==> spec_decode(bytes@) is Some,
        r is Some ==> r->0@ == spec_decode(bytes@)->0,
{
    if bytes.len() < 20 {
        return None;
    }
    if bytes[0] / 16 != 4 {
        return None;
    }
    let ihl = (bytes[0] % 16) as usize * 4;
    if ihl < 20 || bytes.len() < ihl {
        return None;
    }
    let protocol_number = bytes[9];
    let src_ip = read_be32(bytes, 12);
    let dst_ip = read_be32(bytes, 16);
    if protocol_number == 6 {
        if bytes.len() < ihl + 20 {
            return None;
        }
        let off = (bytes[ihl + 12] / 16) as usize * 4;
        if off < 20 || bytes.len() < ihl + off {
            return None;
        }
        let src_port = read_be16(bytes, ihl);
        let dst_port = read_be16(bytes, ihl + 2);
        let payload = copy_range(bytes, ihl + off, bytes.len());
        Some(DecodedPacket { protocol: Protocol::Tcp, src_ip, src_port, dst_ip, dst_port, payload })
    } else if protocol_number == 17 {
        if bytes.len() < ihl + 8 {
            return None;
        }
        let src_port = read_be16(bytes, ihl);
        let dst_port = read_be16(bytes, ihl + 2);
        let payload = copy_range(bytes, ihl + 8, bytes.len());
        Some(DecodedPacket { protocol: Protocol::Udp, src_ip, src_port, dst_ip, dst_port, payload })
    } else {
        None
    }
}

/// The sum of the first `n` big-endian 16-bit words of `b`.
pub open spec fn spec_words_sum(b: Seq<u8>, n: int) -> int
    decreases n,
{
    if n <= 0 {
        0
    } else {
        spec_words_sum(b, n - 1) + spec_be16(b, 2 * (n - 1))
    }
}

/// One carry fold of the ones'-complement sum.
pub open spec fn spec_fold(s: int) -> int {
    s % 0x1_0000 + s / 0x1_0000
}

/// The IPv4 header checksum of a 20-byte header whose checksum field is
/// zero: the ones'-complement sum of its ten 16-bit words, folded and
/// inverted.
pub open spec fn spec_header_checksum(h: Seq<u8>) -> u16
    recommends
        h.len() == 20,
{
    (0xFFFF - spec_fold(spec_fold(spec_words_sum(h, 10)))) as u16
}

/// The 20-byte IPv4 header for a single-fragment packet with TTL 64, no
/// options, and the checksum field still zero.
pub open spec fn spec_ip_header_zero_checksum(
    protocol: Protocol,
    total_len: u16,
    src: u32,
    dst: u32,
) -> Seq<u8> {
    seq![
        0x45u8,
        0u8,
        spec_hi8(total_len),
        spec_lo8(total_len),
        0u8,
        0u8,
        0u8,
        0u8,
        64u8,
        protocol.spec_number(),
        0u8,
        0u8,
        spec_octet0(src) as u8,
        spec_octet1(src) as u8,
        spec_octet2(src) as u8,
        spec_octet3(src) as u8,
        spec_octet0(dst) as u8,
        spec_octet1(dst) as u8,
        spec_octet2(dst) as u8,
        spec_octet3(dst) as u8,
    ]
}

/// The transport header of a response packet. TCP fields beyond the
/// ports are fixed placeholders (sequence and acknowledgement zero,
/// ACK|PSH, full window); the UDP length covers header plus payload.
pub open spec fn spec_transport_header(
    protocol: Protocol,
    src_port: u16,
    dst_port: u16,
    payload_len: int,
) -> Seq<u8> {
    match protocol {
        Protocol::Tcp => seq![
            spec_hi8(src_port),
            spec_lo8(src_port),
            spec_hi8(dst_port),
            spec_lo8(dst_port),
            0u8,
            0u8,
            0u8,
            0u8,
            0u8,
            0u8,
            0u8,
            0u8,
            0x50u8,
            0x18u8,
            0xFFu8,
            0xFFu8,
            0u8,
            0u8,
            0u8,
            0u8,
        ],
        Protocol::Udp => seq![
            spec_hi8(src_port),
            spec_lo8(src_port),
            spec_hi8(dst_port),
            spec_lo8(dst_port),
            spec_hi8((8 + payload_len) as u16),
            spec_lo8((8 + payload_len) as u16),
            0u8,
            0u8,
        ],
    }
}

/// The length of the transport header: 20 bytes for TCP, 8 for UDP.
pub open spec fn spec_transport_len(protocol: Protocol) -> int {
    match protocol {
        Protocol::Tcp => 20,
        Protocol::Udp => 8,
    }
}

/// The full response packet for the given addresses, ports and payload:
/// IPv4 header with its checksum filled in, transport header, payload.
pub open spec fn spec_encode_response(
    src: u32,
    src_port: u16,
    dst: u32,
    dst_port: u16,
    payload: Seq<u8>,
    protocol: Protocol,
) -> Seq<u8> {
    let total_len = (20 + spec_transport_len(protocol) + payload.len()) as u16;
    let h0 = spec_ip_header_zero_checksum(protocol, total_len, src, dst);
    let ck = spec_header_checksum(h0);
    let h = h0.update(10, spec_hi8(ck)).update(11, spec_lo8(ck));
    h + spec_transport_header(protocol, src_port, dst_port, payload.len() as int) + payload
}

/// Builds a response packet travelling from `src` to `dst` (already the
/// reverse direction of the flow being answered) and carrying `payload`.
pub fn encode_response(
    src: u32,
    src_port: u16,
    dst: u32,
    dst_port: u16,
    payload: &Vec<u8>,
    protocol: Protocol,
) -> (r: Vec<u8>)
    requires
        payload@.len() + 40 <= 65535,
    ensures
        r@ == spec_encode_response(src, src_port, dst, dst_port, payload@, protocol),
{
    let transport_len: usize = match protocol {
        Protocol::Tcp => 20,
        Protocol::Udp => 8,
    };
    let total_len: u16 = (20 + transport_len + payload.len()) as u16;
    let mut h: Vec<u8> = Vec::new();
    h.push(0x45u8);
    h.push(0u8);
    h.push((total_len / 0x100) as u8);
    h.push((total_len % 0x100) as u8);
    h.push(0u8);
    h.push(0u8);
    h.push(0u8);
    h.push(0u8);
    h.push(64u8);
    h.push(protocol.number());
    h.push(0u8);
    h.push(0u8);
    h.push(octet0(src) as u8);
    h.push(octet1(src) as u8);
    h.push(octet2(src) as u8);
    h.push(octet3(src) as u8);
    h.push(octet0(dst) as u8);
    h.push(octet1(dst) as u8);
    h.push(octet2(dst) as u8);
    h.push(octet3(dst) as u8);
    proof {
        assert(h@ =~= spec_ip_header_zero_checksum(protocol, total_len, src, dst));
    }
    let ck = header_checksum(&h);
    h.set(10, (ck / 0x100) as u8);
    h.set(11, (ck % 0x100) as u8);
    let mut r = h;
    match protocol {
        Protocol::Tcp => {
            r.push((src_port / 0x100) as u8);
            r.push((src_port % 0x100) as u8);
            r.push((dst_port / 0x100) as u8);
            r.push((dst_port % 0x100) as u8);
            r.push(0u8);
            r.push(0u8);
            r.push(0u8);
            r.push(0u8);
            r.push(0u8);
            r.push(0u8);
            r.push(0u8);
            r.push(0u8);
            r.push(0x50u8);
            r.push(0x18u8);
            r.push(0xFFu8);
            r.push(0xFFu8);
            r.push(0u8);
            r.push(0u8);
            r.push(0u8);
            r.push(0u8);
        },
        Protocol::Udp => {
            let udp_len: u16 = (8 + payload.len()) as u16;
            r.push((src_port / 0x100) as u8);
            r.push((src_port % 0x100) as u8);
            r.push((dst_port / 0x100) as u8);
            r.push((dst_port % 0x100) as u8);
            r.push((udp_len / 0x100) as u8);
            r.push((udp_len % 0x100) as u8);
            r.push(0u8);
            r.push(0u8);
        },
    }
    proof {
        let total_len_s = (20 + spec_transport_len(protocol) + payload@.len()) as u16;
        let h0 = spec_ip_header_zero_checksum(protocol, total_len_s, src, dst);
        let cks = spec_header_checksum(h0);
        assert(r@ =~= h0.update(10, spec_hi8(cks)).update(11, spec_lo8(cks))
            + spec_transport_header(protocol, src_port, dst_port, payload@.len() as int));
    }
    let mut j: usize = 0;
    let end: usize = payload.len();
    while j < end
        invariant
            j <= end == payload@.len(),
            payload@.len() + 40 <= 65535,
            r@ == spec_encode_response(src, src_port, dst, dst_port, payload@, protocol).subrange(
                0,
                spec_encode_response(src, src_port, dst, dst_port, payload@, protocol).len() as int
                    - (end - j),
            ),
        decreases end - j,
    {
        r.push(payload[j]);
        j = j + 1;
        proof {
            let full = spec_encode_response(src, src_port, dst, dst_port, payload@, protocol);
            assert(r@ =~= full.subrange(0, full.len() as int - (end - j)));
        }
    }
    proof {
        let full = spec_encode_response(src, src_port, dst, dst_port, payload@, protocol);
        assert(r@ =~= full);
    }
    r
}

/// The four octets of an address put back together give the address.
proof fn lemma_octets_reassemble(ip: u32)
    ensures
        spec_octet0(ip) * 0x100_0000 + spec_octet1(ip) * 0x1_0000 + spec_octet2(ip) * 0x100
            + spec_octet3(ip) == ip,
        spec_octet0(ip) < 0x100,
        spec_octet1(ip) < 0x100,
        spec_octet2(ip) < 0x100,
        spec_octet3(ip) < 0x100,
{
    assert(ip / 0x100_0000 * 0x100_0000 + (ip / 0x1_0000) % 0x100 * 0x1_0000 + (ip / 0x100) % 0x100
        * 0x100 + ip % 0x100 == ip) by (bit_vector);
    assert(ip / 0x100_0000 < 0x100) by (bit_vector);
}

/// Law: decoding a synthesized response packet yields exactly the
/// protocol, addresses, ports and payload that were encoded.
pub proof fn lemma_decode_encode_response(
    src: u32,
    src_port: u16,
    dst: u32,
    dst_port: u16,
    payload: Seq<u8>,
    protocol: Protocol,
)
    requires
        payload.len() + 40 <= 65535,
    ensures
        spec_decode(spec_encode_response(src, src_port, dst, dst_port, payload, protocol))
            == Some(
            PacketModel {
                protocol: protocol,
                src_ip: src,
                src_port: src_port,
                dst_ip: dst,
                dst_port: dst_port,
                payload: payload,
            },
        ),
{
    let b = spec_encode_response(src, src_port, dst, dst_port, payload, protocol);
    let tlen = spec_transport_len(protocol);
    let total_len = (20 + tlen + payload.len()) as u16;
    let h0 = spec_ip_header_zero_checksum(protocol, total_len, src, dst);
    let ck = spec_header_checksum(h0);
    let h = h0.update(10, spec_hi8(ck)).update(11, spec_lo8(ck));
    let t = spec_transport_header(protocol, src_port, dst_port, payload.len() as int);
    assert(b == h + t + payload);
    assert(b.len() == 20 + tlen + payload.len());
    assert(b[0] == 0x45);
    assert(b[0] / 16 == 4 && (b[0] % 16) as int * 4 == 20);
    assert(b[9] == protocol.spec_number());
    lemma_octets_reassemble(src);
    lemma_octets_reassemble(dst);
    assert(b[12] == spec_octet0(src) as u8 && b[13] == spec_octet1(src) as u8 && b[14]
        == spec_octet2(src) as u8 && b[15] == spec_octet3(src) as u8);
    assert(spec_be32(b, 12) == src);
    assert(b[16] == spec_octet0(dst) as u8 && b[17] == spec_octet1(dst) as u8 && b[18]
        == spec_octet2(dst) as u8 && b[19] == spec_octet3(dst) as u8);
    assert(spec_be32(b, 16) == dst);
    assert(b[20] == spec_hi8(src_port) && b[21] == spec_lo8(src_port));
    assert(spec_be16(b, 20) == src_port);
    assert(b[22] == spec_hi8(dst_port) && b[23] == spec_lo8(dst_port));
    assert(spec_be16(b, 22) == dst_port);
    match protocol {
        Protocol::Tcp => {
            assert(b[9] == 6);
            assert(b[32] == t[12] && t[12] == 0x50);
            assert((b[32] / 16) as int * 4 == 20);
            assert(b.subrange(40, b.len() as int) =~= payload);
        },
        Protocol::Udp => {
            assert(b[9] == 17);
            assert(b.subrange(28, b.len() as int) =~= payload);
        },
    }
}

/// Computes the checksum of a 20-byte IPv4 header whose checksum field
/// is zero.
pub fn header_checksum(h: &Vec<u8>) -> (ck: u16)
    requires
        h@.len() == 20,
    ensures
        ck == spec_header_checksum(h@),
{
    let mut sum: u32 = 0;
    let mut i: usize = 0;
    while i < 10
        invariant
            i <= 10,
            h@.len() == 20,
            sum == spec_words_sum(h@, i as int),
            sum <= i * 0xFFFF,
        decreases 10 - i,
    {
        let w = read_be16(h, 2 * i);
        sum = sum + (w as u32);
        i = i + 1;
    }
    let folded1: u32 = sum % 0x1_0000 + sum / 0x1_0000;
    let folded2: u32 = folded1 % 0x1_0000 + folded1 / 0x1_0000;
    0xFFFFu16 - (folded2 as u16)
}

} // verus!
