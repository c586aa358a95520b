//! DNS messages: parsing the queried name out of the question section
//! and synthesizing a one-answer A-record response.

use vstd::prelude::*;
use crate::bytes::{append_bytes, copy_range};
use crate::net::{octet0, octet1, octet2, octet3, spec_octet0, spec_octet1, spec_octet2,
    spec_octet3};

verus! {

/// The name read from the length-prefixed labels starting at offset
/// `i`, with labels joined by dots: `None` on a truncated message or a
/// length byte that is not a plain label length (64 or more).
pub open spec fn spec_parse_labels(b: Seq<u8>, i: int) -> Option<Seq<u8>>
    decreases b.len() - i,
{
    if i < 0 || i >= b.len() {
        None
    } else if b[i] == 0 {
        Some(Seq::empty())
    } else if b[i] >= 64 {
        None
    } else if i + 1 + b[i] > b.len() {
        None
    } else {
        match spec_parse_labels(b, i + 1 + b[i]) {
            None => None,
            Some(rest) => {
                let label = b.subrange(i + 1, i + 1 + b[i]);
                Some(
                    if rest.len() == 0 {
                        label
                    } else {
                        label + seq![46u8] + rest
                    },
                )
            },
        }
    }
}

/// What `resolve_dns_query` returns: the queried name of a DNS message
/// (12-byte header, then labels terminated by a zero length byte), or
/// `None` when the message is too short, malformed, or asks for the
/// root name.
pub open spec fn spec_resolve_query(b: Seq<u8>) -> Option<Seq<u8>> {
    if b.len() < 12 {
        None
    } else {
        match spec_parse_labels(b, 12) {
            None => None,
            Some(name) => if name.len() == 0 {
                None
            } else {
                Some(name)
            },
        }
    }
}

/// Reads the dot-joined name at offset `i`.
fn parse_labels(b: &Vec<u8>, i: usize) -> (r: Option<Vec<u8>>)
    ensures
        match (r, spec_parse_labels(b@, i as int)) {
            (Some(v), Some(s)) => v@ == s,
            (None, None) => true,
            _ => false,
        },
    decreases b@.len() - i,
{
    let n = b.len();
    if i >= n {
        return None;
    }
    let len_byte = b[i];
    if len_byte == 0 {
        let empty: Vec<u8> = Vec::new();
        return Some(empty);
    }
    if len_byte >= 64 {
        return None;
    }
    if (len_byte as usize) > n - (i + 1) {
        return None;
    }
    let next = i + 1 + (len_byte as usize);
    let label = copy_range(b, i + 1, next);
    match parse_labels(b, next) {
        None => None,
        Some(rest) => {
            if rest.len() == 0 {
                Some(label)
            } else {
                let mut out = label;
                out.push(46u8);
                append_bytes(&mut out, &rest);
                proof {
                    let s = spec_parse_labels(b@, i as int)->0;
                    assert(out@ =~= s);
                }
                Some(out)
            }
        },
    }
}

/// Parses the question section of a DNS message and returns the queried
/// name, labels joined by dots.
pub fn resolve_dns_query(b: &Vec<u8>) -> (r: Option<Vec<u8>>)
    ensures
        match (r, spec_resolve_query(b@)) {
            (Some(v), Some(s)) => v@ == s,
            (None, None) => true,
            _ => false,
        },
{
    if b.len() < 12 {
        return None;
    }
    match parse_labels(b, 12) {
        None => None,
        Some(name) => {
            if name.len() == 0 {
                None
            } else {
                Some(name)
            }
        },
    }
}

/// The synthesized response to a query: the query itself with the QR
/// and RA flag bits set and ANCOUNT set to one, followed by a single
/// A-record answer (compressed name pointer to offset 12, type A,
/// class IN, a 60-second TTL, and the four address octets). Bytes 0 and
/// 1 — the transaction ID — are untouched.
pub open spec fn spec_synthesize_response(q: Seq<u8>, addr: u32) -> Seq<u8>
    recommends
        q.len() >= 12,
{
    q.update(2, (q[2] | 0x80) as u8).update(3, (q[3] | 0x80) as u8).update(6, 0u8).update(7, 1u8)
        + seq![
        0xC0u8,
        0x0Cu8,
        0u8,
        1u8,
        0u8,
        1u8,
        0u8,
        0u8,
        0u8,
        60u8,
        0u8,
        4u8,
        spec_octet0(addr) as u8,
        spec_octet1(addr) as u8,
        spec_octet2(addr) as u8,
        spec_octet3(addr) as u8,
    ]
}

/// Builds the response announcing `addr` as the answer to `query`.
pub fn synthesize_response(query: &Vec<u8>, addr: u32) -> (r: Vec<u8>)
    requires
        query@.len() >= 12,
    ensures
        r@ == spec_synthesize_response(query@, addr),
        r@.len() == query@.len() + 16,
        r@[0] == query@[0],
        r@[1] == query@[1],
{
    let mut r = copy_range(query, 0, query.len());
    proof {
        assert(r@ =~= query@);
    }
    let flags2 = r[2] | 0x80;
    let flags3 = r[3] | 0x80;
    r.set(2, flags2);
    r.set(3, flags3);
    r.set(6, 0u8);
    r.set(7, 1u8);
    r.push(0xC0u8);
    r.push(0x0Cu8);
    r.push(0u8);
    r.push(1u8);
    r.push(0u8);
    r.push(1u8);
    r.push(0u8);
    r.push(0u8);
    r.push(0u8);
    r.push(60u8);
    r.push(0u8);
    r.push(4u8);
    r.push(octet0(addr) as u8);
    r.push(octet1(addr) as u8);
    r.push(octet2(addr) as u8);
    r.push(octet3(addr) as u8);
    proof {
        assert(r@ =~= spec_synthesize_response(query@, addr));
    }
    r
}

} // verus!
