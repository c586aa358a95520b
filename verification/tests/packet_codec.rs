use ruray::net::ipv4;
use ruray::packet::{Protocol, decode, encode_response};

fn build_tcp_packet(
    src: [u8; 4],
    src_port: u16,
    dst: [u8; 4],
    dst_port: u16,
    payload: &[u8],
) -> Vec<u8> {
    let total = 40 + payload.len();
    let mut b = vec![
        0x45u8,
        0,
        (total >> 8) as u8,
        (total & 0xFF) as u8,
        0,
        0,
        0,
        0,
        64,
        6,
        0,
        0,
        src[0],
        src[1],
        src[2],
        src[3],
        dst[0],
        dst[1],
        dst[2],
        dst[3],
    ];
    b.extend_from_slice(&[
        (src_port >> 8) as u8,
        (src_port & 0xFF) as u8,
        (dst_port >> 8) as u8,
        (dst_port & 0xFF) as u8,
    ]);
    b.extend_from_slice(&[0; 8]);
    b.extend_from_slice(&[0x50, 0x18, 0xFF, 0xFF, 0, 0, 0, 0]);
    b.extend_from_slice(payload);
    b
}

#[test]
fn decode_tcp_extracts_all_fields() {
    let b = build_tcp_packet([10, 0, 0, 1], 443, [8, 8, 8, 8], 50000, &[1, 2, 3]);
    let p = decode(&b).expect("well-formed TCP packet must decode");
    assert_eq!(p.protocol, Protocol::Tcp);
    assert_eq!(p.src_ip, ipv4(10, 0, 0, 1));
    assert_eq!(p.src_port, 443);
    assert_eq!(p.dst_ip, ipv4(8, 8, 8, 8));
    assert_eq!(p.dst_port, 50000);
    assert_eq!(p.payload, vec![1, 2, 3]);
}

#[test]
fn decode_udp_extracts_all_fields() {
    let payload = [9u8, 8, 7, 6];
    let total = 28 + payload.len();
    let mut b = vec![
        0x45u8,
        0,
        (total >> 8) as u8,
        (total & 0xFF) as u8,
        0,
        0,
        0,
        0,
        64,
        17,
        0,
        0,
        192,
        168,
        55,
        2,
        1,
        1,
        1,
        1,
    ];
    b.extend_from_slice(&[0x9C, 0x40, 0, 53]); // 40000 -> 53
    let udp_len = 8 + payload.len();
    b.extend_from_slice(&[(udp_len >> 8) as u8, (udp_len & 0xFF) as u8, 0, 0]);
    b.extend_from_slice(&payload);
    let p = decode(&b).expect("well-formed UDP packet must decode");
    assert_eq!(p.protocol, Protocol::Udp);
    assert_eq!(p.src_ip, ipv4(192, 168, 55, 2));
    assert_eq!(p.src_port, 40000);
    assert_eq!(p.dst_ip, ipv4(1, 1, 1, 1));
    assert_eq!(p.dst_port, 53);
    assert_eq!(p.payload, payload.to_vec());
}

#[test]
fn decode_rejects_non_ipv4() {
    let mut b = build_tcp_packet([10, 0, 0, 1], 1, [10, 0, 0, 2], 2, &[]);
    b[0] = 0x65; // version 6
    assert!(decode(&b).is_none());
}

#[test]
fn decode_rejects_short_packet() {
    let b = vec![0x45u8; 19];
    assert!(decode(&b).is_none());
}

#[test]
fn decode_rejects_truncated_header() {
    // IHL declares 24 bytes of header but only 20 are present.
    let mut b = build_tcp_packet([10, 0, 0, 1], 1, [10, 0, 0, 2], 2, &[]);
    b[0] = 0x46;
    b.truncate(22);
    assert!(decode(&b).is_none());
}

#[test]
fn decode_rejects_other_protocols() {
    let mut b = build_tcp_packet([10, 0, 0, 1], 1, [10, 0, 0, 2], 2, &[]);
    b[9] = 1; // ICMP
    assert!(decode(&b).is_none());
}

#[test]
fn decode_honors_ihl_and_data_offset() {
    // 24-byte IP header (IHL 6) and 24-byte TCP header (offset 6).
    let payload = [0xAAu8, 0xBB];
    let total = 24 + 24 + payload.len();
    let mut b = vec![
        0x46u8,
        0,
        (total >> 8) as u8,
        (total & 0xFF) as u8,
        0,
        0,
        0,
        0,
        64,
        6,
        0,
        0,
        10,
        0,
        0,
        1,
        10,
        0,
        0,
        2,
        0,
        0,
        0,
        0, // IP options
    ];
    b.extend_from_slice(&[0, 80, 0, 81]);
    b.extend_from_slice(&[0; 8]);
    b.extend_from_slice(&[0x60, 0, 0, 0]); // data offset 6
    b.extend_from_slice(&[0; 4]);
    b.extend_from_slice(&[0; 4]); // TCP options
    b.extend_from_slice(&payload);
    let p = decode(&b).expect("packet with options must decode");
    assert_eq!(p.src_port, 80);
    assert_eq!(p.dst_port, 81);
    assert_eq!(p.payload, payload.to_vec());
}

#[test]
fn encode_response_exact_bytes_and_checksum() {
    let payload = vec![0xDEu8, 0xAD];
    let b = encode_response(
        ipv4(10, 0, 0, 1),
        80,
        ipv4(192, 168, 55, 2),
        12345,
        &payload,
        Protocol::Tcp,
    );
    let expected: Vec<u8> = vec![
        69, 0, 0, 42, 0, 0, 0, 0, 64, 6, 121, 35, 10, 0, 0, 1, 192, 168, 55, 2, 0, 80, 48, 57, 0,
        0, 0, 0, 0, 0, 0, 0, 80, 24, 255, 255, 0, 0, 0, 0, 222, 173,
    ];
    assert_eq!(b, expected);
}

#[test]
fn encode_response_header_checksum_sums_to_ones_complement_zero() {
    let payload = vec![1u8, 2, 3, 4, 5];
    let b = encode_response(
        ipv4(203, 0, 113, 7),
        443,
        ipv4(192, 168, 55, 2),
        55555,
        &payload,
        Protocol::Udp,
    );
    let mut sum: u32 = 0;
    for i in 0..10 {
        sum += ((b[2 * i] as u32) << 8) | (b[2 * i + 1] as u32);
    }
    sum = (sum & 0xFFFF) + (sum >> 16);
    sum = (sum & 0xFFFF) + (sum >> 16);
    assert_eq!(sum, 0xFFFF);
}

#[test]
fn encode_then_decode_round_trips_tcp() {
    let payload = vec![42u8; 100];
    let b = encode_response(
        ipv4(8, 8, 4, 4),
        443,
        ipv4(192, 168, 55, 2),
        61000,
        &payload,
        Protocol::Tcp,
    );
    let p = decode(&b).expect("synthesized response must decode");
    assert_eq!(p.protocol, Protocol::Tcp);
    assert_eq!(p.src_ip, ipv4(8, 8, 4, 4));
    assert_eq!(p.src_port, 443);
    assert_eq!(p.dst_ip, ipv4(192, 168, 55, 2));
    assert_eq!(p.dst_port, 61000);
    assert_eq!(p.payload, payload);
}

#[test]
fn encode_then_decode_round_trips_udp() {
    let payload = vec![7u8, 7, 7];
    let b = encode_response(
        ipv4(1, 1, 1, 1),
        53,
        ipv4(192, 168, 55, 2),
        40000,
        &payload,
        Protocol::Udp,
    );
    let p = decode(&b).expect("synthesized response must decode");
    assert_eq!(p.protocol, Protocol::Udp);
    assert_eq!(p.src_ip, ipv4(1, 1, 1, 1));
    assert_eq!(p.src_port, 53);
    assert_eq!(p.dst_ip, ipv4(192, 168, 55, 2));
    assert_eq!(p.dst_port, 40000);
    assert_eq!(p.payload, payload);
}

#[test]
fn encode_response_ttl_is_64_and_single_fragment() {
    let b = encode_response(ipv4(1, 2, 3, 4), 1, ipv4(5, 6, 7, 8), 2, &vec![], Protocol::Udp);
    assert_eq!(b[8], 64);
    assert_eq!(&b[4..8], &[0, 0, 0, 0]);
    assert_eq!(b.len(), 28);
    assert_eq!(((b[2] as usize) << 8) | b[3] as usize, 28);
}
