use ruray::dns::{resolve_dns_query, synthesize_response};
use ruray::errors::EngineError;
use ruray::fakeip::FakeIpAllocator;
use ruray::net::ipv4;

fn dns_query(id: [u8; 2], name: &[&str]) -> Vec<u8> {
    let mut b = vec![id[0], id[1], 0x01, 0x00, 0, 1, 0, 0, 0, 0, 0, 0];
    for label in name {
        b.push(label.len() as u8);
        b.extend_from_slice(label.as_bytes());
    }
    b.push(0);
    b.extend_from_slice(&[0, 1, 0, 1]);
    b
}

#[test]
fn allocate_same_domain_twice_returns_same_address() {
    let mut a = FakeIpAllocator::new(ipv4(198, 18, 0, 1), ipv4(198, 18, 255, 254));
    let first = a.allocate(&b"a.com".to_vec()).unwrap();
    let second = a.allocate(&b"a.com".to_vec()).unwrap();
    assert_eq!(first, second);
    assert_eq!(first, ipv4(198, 18, 0, 1));
}

#[test]
fn allocate_distinct_domains_never_collides() {
    let mut a = FakeIpAllocator::new(ipv4(198, 18, 0, 1), ipv4(198, 18, 255, 254));
    let x = a.allocate(&b"a.com".to_vec()).unwrap();
    let y = a.allocate(&b"b.com".to_vec()).unwrap();
    let z = a.allocate(&b"c.org".to_vec()).unwrap();
    assert_ne!(x, y);
    assert_ne!(x, z);
    assert_ne!(y, z);
    // And asking again changes nothing.
    assert_eq!(a.allocate(&b"b.com".to_vec()).unwrap(), y);
}

#[test]
fn allocate_beyond_pool_size_is_pool_exhausted() {
    let mut a = FakeIpAllocator::new(ipv4(198, 18, 0, 1), ipv4(198, 18, 0, 2));
    assert_eq!(a.allocate(&b"one".to_vec()).unwrap(), ipv4(198, 18, 0, 1));
    assert_eq!(a.allocate(&b"two".to_vec()).unwrap(), ipv4(198, 18, 0, 2));
    assert_eq!(a.allocate(&b"three".to_vec()), Err(EngineError::PoolExhausted));
    // The known domains still resolve after exhaustion.
    assert_eq!(a.allocate(&b"one".to_vec()).unwrap(), ipv4(198, 18, 0, 1));
}

#[test]
fn is_fake_tests_the_pool_range() {
    let a = FakeIpAllocator::new(ipv4(198, 18, 0, 1), ipv4(198, 18, 255, 254));
    assert!(a.is_fake(ipv4(198, 18, 0, 1)));
    assert!(a.is_fake(ipv4(198, 18, 100, 100)));
    assert!(a.is_fake(ipv4(198, 18, 255, 254)));
    assert!(!a.is_fake(ipv4(198, 18, 0, 0)));
    assert!(!a.is_fake(ipv4(198, 19, 0, 1)));
    assert!(!a.is_fake(ipv4(8, 8, 8, 8)));
}

#[test]
fn domain_of_inverts_allocate() {
    let mut a = FakeIpAllocator::new(ipv4(198, 18, 0, 1), ipv4(198, 18, 255, 254));
    let addr = a.allocate(&b"example.com".to_vec()).unwrap();
    assert_eq!(a.domain_of(addr), Some(b"example.com".to_vec()));
    assert_eq!(a.domain_of(ipv4(198, 18, 0, 50)), None);
    assert_eq!(a.domain_of(ipv4(8, 8, 8, 8)), None);
}

#[test]
fn resolve_dns_query_reads_the_name() {
    let q = dns_query([0xAB, 0xCD], &["example", "com"]);
    assert_eq!(resolve_dns_query(&q), Some(b"example.com".to_vec()));
}

#[test]
fn resolve_dns_query_single_label() {
    let q = dns_query([0, 1], &["localhost"]);
    assert_eq!(resolve_dns_query(&q), Some(b"localhost".to_vec()));
}

#[test]
fn resolve_dns_query_rejects_short_and_malformed() {
    assert_eq!(resolve_dns_query(&vec![0u8; 11]), None);
    // Label runs past the end of the message.
    let mut q = vec![0u8; 12];
    q.push(5);
    q.extend_from_slice(b"ab");
    assert_eq!(resolve_dns_query(&q), None);
    // A compression pointer is not a plain label.
    let mut q2 = vec![0u8; 12];
    q2.extend_from_slice(&[0xC0, 0x0C]);
    assert_eq!(resolve_dns_query(&q2), None);
    // The root name is not a usable domain.
    let mut q3 = vec![0u8; 12];
    q3.push(0);
    assert_eq!(resolve_dns_query(&q3), None);
}

#[test]
fn synthesize_response_shape_and_id() {
    let q = dns_query([0x12, 0x34], &["example", "com"]);
    let r = synthesize_response(&q, ipv4(198, 18, 0, 1));
    assert_eq!(r.len(), q.len() + 16);
    // Transaction ID is untouched, byte for byte.
    assert_eq!(&r[0..2], &q[0..2]);
    // QR and RA are set; ANCOUNT is one.
    assert_eq!(r[2], q[2] | 0x80);
    assert_eq!(r[3], q[3] | 0x80);
    assert_eq!(&r[6..8], &[0, 1]);
    // The question section is untouched.
    assert_eq!(&r[12..q.len()], &q[12..]);
    // The appended answer: pointer to offset 12, type A, class IN,
    // TTL, 4-byte address.
    let a = &r[q.len()..];
    assert_eq!(&a[0..2], &[0xC0, 0x0C]);
    assert_eq!(&a[2..4], &[0, 1]);
    assert_eq!(&a[4..6], &[0, 1]);
    assert_eq!(&a[6..10], &[0, 0, 0, 60]);
    assert_eq!(&a[10..12], &[0, 4]);
    assert_eq!(&a[12..16], &[198, 18, 0, 1]);
}
