//! Dotted-quad addresses as text: rendering `a.b.c.d` and `a.b.c.d/n`
//! and parsing them back. The grammar is strict: each octet is decimal
//! with no leading zero, so the parseable strings are exactly the
//! canonical renderings.

use vstd::prelude::*;
use crate::net::{Cidr, ipv4, octet0, octet1, octet2, octet3, spec_ipv4, spec_octet0, spec_octet1,
    spec_octet2, spec_octet3};

verus! {

/// The decimal digits of a value below 1000, without leading zeros.
pub open spec fn spec_dec(n: int) -> Seq<u8>
    recommends
        0 <= n < 1000,
{
    if n < 10 {
        seq![(48 + n) as u8]
    } else if n < 100 {
        seq![(48 + n / 10) as u8, (48 + n % 10) as u8]
    } else {
        seq![(48 + n / 100) as u8, (48 + (n / 10) % 100 % 10) as u8, (48 + n % 10) as u8]
    }
}

/// The canonical text of an address: four octets joined by dots.
pub open spec fn spec_render_ipv4(ip: u32) -> Seq<u8> {
    spec_dec(spec_octet0(ip) as int) + seq![46u8] + spec_dec(spec_octet1(ip) as int) + seq![46u8]
        + spec_dec(spec_octet2(ip) as int) + seq![46u8] + spec_dec(spec_octet3(ip) as int)
}

/// The canonical text of a CIDR block: the address, a slash, the
/// prefix length.
pub open spec fn spec_render_cidr(c: Cidr) -> Seq<u8> {
    spec_render_ipv4(c.addr) + seq![47u8] + spec_dec(c.prefix as int)
}

/// Whether a byte is a decimal digit.
pub open spec fn spec_is_digit(c: u8) -> bool {
    48 <= c <= 57
}

/// Parses one decimal octet at position `i`: one to three digits, no
/// leading zero, value at most 255. Returns the value and the position
/// after it.
pub open spec fn spec_parse_octet(b: Seq<u8>, i: int) -> Option<(int, int)> {
    if i < 0 || i >= b.len() || !spec_is_digit(b[i]) {
        None
    } else if b[i] == 48 {
        Some((0, i + 1))
    } else {
        let d0 = b[i] - 48;
        if i + 1 < b.len() && spec_is_digit(b[i + 1]) {
            let d1 = b[i + 1] - 48;
            if i + 2 < b.len() && spec_is_digit(b[i + 2]) {
                let v = d0 * 100 + d1 * 10 + (b[i + 2] - 48);
                if v <= 255 {
                    Some((v, i + 3))
                } else {
                    None
                }
            } else {
                Some((d0 * 10 + d1, i + 2))
            }
        } else {
            Some((d0 as int, i + 1))
        }
    }
}

/// Parses a whole dotted-quad address: four octets joined by dots,
/// nothing before or after.
pub open spec fn spec_parse_ipv4(b: Seq<u8>) -> Option<u32> {
    match spec_parse_octet(b, 0) {
        None => None,
        Some((v0, p0)) => if p0 < b.len() && b[p0] == 46 {
            match spec_parse_octet(b, p0 + 1) {
                None => None,
                Some((v1, p1)) => if p1 < b.len() && b[p1] == 46 {
                    match spec_parse_octet(b, p1 + 1) {
                        None => None,
                        Some((v2, p2)) => if p2 < b.len() && b[p2] == 46 {
                            match spec_parse_octet(b, p2 + 1) {
                                None => None,
                                Some((v3, p3)) => if p3 == b.len() {
                                    Some(spec_ipv4(v0 as u8, v1 as u8, v2 as u8, v3 as u8))
                                } else {
                                    None
                                },
                            }
                        } else {
                            None
                        },
                    }
                } else {
                    None
                },
            }
        } else {
            None
        },
    }
}

/// Parses a CIDR block: an address, a slash, and a prefix length of at
/// most 32 with no leading zero.
pub open spec fn spec_parse_cidr(b: Seq<u8>) -> Option<Cidr> {
    match spec_parse_octet(b, 0) {
        None => None,
        Some((v0, p0)) => if p0 < b.len() && b[p0] == 46 {
            match spec_parse_octet(b, p0 + 1) {
                None => None,
                Some((v1, p1)) => if p1 < b.len() && b[p1] == 46 {
                    match spec_parse_octet(b, p1 + 1) {
                        None => None,
                        Some((v2, p2)) => if p2 < b.len() && b[p2] == 46 {
                            match spec_parse_octet(b, p2 + 1) {
                                None => None,
                                Some((v3, p3)) => if p3 < b.len() && b[p3] == 47 {
                                    match spec_parse_octet(b, p3 + 1) {
                                        None => None,
                                        Some((vp, pp)) => if pp == b.len() && vp <= 32 {
                                            Some(
                                                Cidr {
                                                    addr: spec_ipv4(
                                                        v0 as u8,
                                                        v1 as u8,
                                                        v2 as u8,
                                                        v3 as u8,
                                                    ),
                                                    prefix: vp as u8,
                                                },
                                            )
                                        } else {
                                            None
                                        },
                                    }
                                } else {
                                    None
                                },
                            }
                        } else {
                            None
                        },
                    }
                } else {
                    None
                },
            }
        } else {
            None
        },
    }
}

/// Appends the decimal digits of a byte value, without leading zeros.
/// Everything pushed is an ASCII digit.
pub fn push_dec(out: &mut Vec<u8>, v: u8)
    ensures
        final(out)@ == old(out)@ + spec_dec(v as int),
        forall|k: int| old(out)@.len() <= k < final(out)@.len() ==> 48 <= #[trigger] final(out)@[k]
            < 58,
{
    if v < 10 {
        out.push(48 + v);
    } else if v < 100 {
        out.push(48 + v / 10);
        out.push(48 + v % 10);
    } else {
        out.push(48 + v / 100);
        out.push(48 + (v / 10) % 10);
        out.push(48 + v % 10);
    }
    proof {
        assert((v as int / 10) % 100 % 10 == (v as int / 10) % 10) by {
            assert(v as int / 10 < 100);
        }
        assert(out@ =~= old(out)@ + spec_dec(v as int));
    }
}

/// Renders an address as `a.b.c.d`. Every byte is an ASCII digit or a
/// dot.
pub fn render_ipv4(ip: u32) -> (r: Vec<u8>)
    ensures
        r@ == spec_render_ipv4(ip),
        forall|k: int| 0 <= k < r@.len() ==> 46 <= #[trigger] r@[k] < 58,
{
    let mut r: Vec<u8> = Vec::new();
    push_dec(&mut r, octet0(ip) as u8);
    r.push(46u8);
    push_dec(&mut r, octet1(ip) as u8);
    r.push(46u8);
    push_dec(&mut r, octet2(ip) as u8);
    r.push(46u8);
    push_dec(&mut r, octet3(ip) as u8);
    proof {
        assert(spec_octet0(ip) < 0x100 && spec_octet1(ip) < 0x100 && spec_octet2(ip) < 0x100
            && spec_octet3(ip) < 0x100);
        assert(r@ =~= spec_render_ipv4(ip));
    }
    r
}

/// Renders a CIDR block as `a.b.c.d/n`.
pub fn render_cidr(c: &Cidr) -> (r: Vec<u8>)
    ensures
        r@ == spec_render_cidr(*c),
        forall|k: int| 0 <= k < r@.len() ==> 46 <= #[trigger] r@[k] < 58,
{
    let mut r = render_ipv4(c.addr);
    r.push(47u8);
    push_dec(&mut r, c.prefix);
    proof {
        assert(r@ =~= spec_render_cidr(*c));
    }
    r
}

/// Parses one octet at position `i`.
fn parse_octet(b: &Vec<u8>, i: usize) -> (r: Option<(u8, usize)>)
    ensures
        match (r, spec_parse_octet(b@, i as int)) {
            (Some((v, p)), Some((sv, sp))) => v == sv && p == sp && i < p <= b@.len(),
            (None, None) => true,
            _ => false,
        },
{
    let n = b.len();
    if i >= n {
        return None;
    }
    let c0 = b[i];
    if !(48 <= c0 && c0 <= 57) {
        return None;
    }
    if c0 == 48 {
        return Some((0, i + 1));
    }
    let d0 = c0 - 48;
    if i + 1 < n && 48 <= b[i + 1] && b[i + 1] <= 57 {
        let d1 = b[i + 1] - 48;
        if i + 2 < n && 48 <= b[i + 2] && b[i + 2] <= 57 {
            let d2 = b[i + 2] - 48;
            let v: u32 = (d0 as u32) * 100 + (d1 as u32) * 10 + (d2 as u32);
            if v <= 255 {
                Some((v as u8, i + 3))
            } else {
                None
            }
        } else {
            Some((d0 * 10 + d1, i + 2))
        }
    } else {
        Some((d0, i + 1))
    }
}

/// Parses a dotted-quad address; `None` for anything that is not the
/// canonical text of one.
pub fn parse_ipv4(b: &Vec<u8>) -> (r: Option<u32>)
    ensures
        r == spec_parse_ipv4(b@),
{
    let n = b.len();
    let (v0, p0) = match parse_octet(b, 0) {
        None => {
            return None;
        },
        Some(x) => x,
    };
    if !(p0 < n && b[p0] == 46) {
        return None;
    }
    let (v1, p1) = match parse_octet(b, p0 + 1) {
        None => {
            return None;
        },
        Some(x) => x,
    };
    if !(p1 < n && b[p1] == 46) {
        return None;
    }
    let (v2, p2) = match parse_octet(b, p1 + 1) {
        None => {
            return None;
        },
        Some(x) => x,
    };
    if !(p2 < n && b[p2] == 46) {
        return None;
    }
    let (v3, p3) = match parse_octet(b, p2 + 1) {
        None => {
            return None;
        },
        Some(x) => x,
    };
    if p3 != n {
        return None;
    }
    Some(ipv4(v0, v1, v2, v3))
}

/// Parses a CIDR block; `None` for anything that is not the canonical
/// text of one.
pub fn parse_cidr(b: &Vec<u8>) -> (r: Option<Cidr>)
    ensures
        r == spec_parse_cidr(b@),
        r matches Some(c) ==> c.wf(),
{
    let n = b.len();
    let (v0, p0) = match parse_octet(b, 0) {
        None => {
            return None;
        },
        Some(x) => x,
    };
    if !(p0 < n && b[p0] == 46) {
        return None;
    }
    let (v1, p1) = match parse_octet(b, p0 + 1) {
        None => {
            return None;
        },
        Some(x) => x,
    };
    if !(p1 < n && b[p1] == 46) {
        return None;
    }
    let (v2, p2) = match parse_octet(b, p1 + 1) {
        None => {
            return None;
        },
        Some(x) => x,
    };
    if !(p2 < n && b[p2] == 46) {
        return None;
    }
    let (v3, p3) = match parse_octet(b, p2 + 1) {
        None => {
            return None;
        },
        Some(x) => x,
    };
    if !(p3 < n && b[p3] == 47) {
        return None;
    }
    let (vp, pp) = match parse_octet(b, p3 + 1) {
        None => {
            return None;
        },
        Some(x) => x,
    };
    if !(pp == n && vp <= 32) {
        return None;
    }
    Some(Cidr { addr: ipv4(v0, v1, v2, v3), prefix: vp })
}

/// Whether the bytes are the canonical text of an address or of a CIDR
/// block — the shapes accepted for a bypass entry.
pub fn is_valid_ip_or_cidr(b: &Vec<u8>) -> (r: bool)
    ensures
        r == (spec_parse_ipv4(b@) is Some || spec_parse_cidr(b@) is Some),
{
    match parse_ipv4(b) {
        Some(_) => true,
        None => match parse_cidr(b) {
            Some(_) => true,
            None => false,
        },
    }
}

/// Parsing the rendering of an octet value finds that value, whatever
/// follows, as long as what follows does not begin with a digit.
proof fn lemma_parse_octet_of_dec(b: Seq<u8>, i: int, o: int)
    requires
        0 <= o <= 255,
        0 <= i,
        i + spec_dec(o).len() <= b.len(),
        forall|k: int| 0 <= k < spec_dec(o).len() ==> b[i + k] == spec_dec(o)[k],
        i + spec_dec(o).len() == b.len() || !spec_is_digit(b[i + spec_dec(o).len()]),
    ensures
        spec_parse_octet(b, i) == Some((o, i + spec_dec(o).len())),
{
    if o < 10 {
        assert(b[i + 0] == spec_dec(o)[0]);
        assert(b[i] == (48 + o) as u8);
    } else if o < 100 {
        assert(b[i + 0] == spec_dec(o)[0] && b[i + 1] == spec_dec(o)[1]);
        assert(b[i] == (48 + o / 10) as u8 && b[i + 1] == (48 + o % 10) as u8);
        assert((b[i] - 48) * 10 + (b[i + 1] - 48) == o);
    } else {
        assert(b[i + 0] == spec_dec(o)[0] && b[i + 1] == spec_dec(o)[1] && b[i + 2] == spec_dec(
            o,
        )[2]);
        assert(b[i] == (48 + o / 100) as u8);
        assert(b[i + 1] == (48 + (o / 10) % 100 % 10) as u8);
        assert(b[i + 2] == (48 + o % 10) as u8);
        assert((o / 10) % 100 % 10 == (o / 10) % 10) by {
            assert(o / 10 < 100);
        }
        assert((b[i] - 48) * 100 + (b[i + 1] - 48) * 10 + (b[i + 2] - 48) == o) by {
            assert(o / 100 * 100 + (o / 10) % 10 * 10 + o % 10 == o) by (nonlinear_arith)
                requires
                    100 <= o <= 255,
            ;
        }
    }
}

/// Law: parsing the canonical text of an address gives back exactly
/// that address.
pub proof fn lemma_parse_render_ipv4(ip: u32)
    ensures
        spec_parse_ipv4(spec_render_ipv4(ip)) == Some(ip),
{
    let o0 = spec_octet0(ip) as int;
    let o1 = spec_octet1(ip) as int;
    let o2 = spec_octet2(ip) as int;
    let o3 = spec_octet3(ip) as int;
    let b = spec_render_ipv4(ip);
    let l0 = spec_dec(o0).len() as int;
    let l1 = spec_dec(o1).len() as int;
    let l2 = spec_dec(o2).len() as int;
    let l3 = spec_dec(o3).len() as int;
    assert(0 <= o0 < 256 && 0 <= o1 < 256 && 0 <= o2 < 256 && 0 <= o3 < 256);
    assert(b.len() == l0 + 1 + l1 + 1 + l2 + 1 + l3);
    assert(forall|k: int| 0 <= k < l0 ==> b[k] == spec_dec(o0)[k]);
    assert(b[l0] == 46);
    assert(forall|k: int| 0 <= k < l1 ==> b[l0 + 1 + k] == spec_dec(o1)[k]);
    assert(b[l0 + 1 + l1] == 46);
    assert(forall|k: int| 0 <= k < l2 ==> b[l0 + 1 + l1 + 1 + k] == spec_dec(o2)[k]);
    assert(b[l0 + 1 + l1 + 1 + l2] == 46);
    assert(forall|k: int| 0 <= k < l3 ==> b[l0 + 1 + l1 + 1 + l2 + 1 + k] == spec_dec(o3)[k]);
    lemma_parse_octet_of_dec(b, 0, o0);
    lemma_parse_octet_of_dec(b, l0 + 1, o1);
    lemma_parse_octet_of_dec(b, l0 + 1 + l1 + 1, o2);
    lemma_parse_octet_of_dec(b, l0 + 1 + l1 + 1 + l2 + 1, o3);
    assert(spec_ipv4(o0 as u8, o1 as u8, o2 as u8, o3 as u8) == ip) by {
        assert(ip / 0x100_0000 * 0x100_0000 + (ip / 0x1_0000) % 0x100 * 0x1_0000 + (ip / 0x100)
            % 0x100 * 0x100 + ip % 0x100 == ip) by (bit_vector);
        assert(ip / 0x100_0000 < 0x100) by (bit_vector);
    }
}

/// Law: parsing the canonical text of a CIDR block gives back exactly
/// that block.
pub proof fn lemma_parse_render_cidr(c: Cidr)
    requires
        c.wf(),
    ensures
        spec_parse_cidr(spec_render_cidr(c)) == Some(c),
{
    let ip = c.addr;
    let o0 = spec_octet0(ip) as int;
    let o1 = spec_octet1(ip) as int;
    let o2 = spec_octet2(ip) as int;
    let o3 = spec_octet3(ip) as int;
    let op = c.prefix as int;
    let b = spec_render_cidr(c);
    let l0 = spec_dec(o0).len() as int;
    let l1 = spec_dec(o1).len() as int;
    let l2 = spec_dec(o2).len() as int;
    let l3 = spec_dec(o3).len() as int;
    let lp = spec_dec(op).len() as int;
    assert(0 <= o0 < 256 && 0 <= o1 < 256 && 0 <= o2 < 256 && 0 <= o3 < 256 && 0 <= op <= 32);
    assert(b.len() == l0 + 1 + l1 + 1 + l2 + 1 + l3 + 1 + lp);
    assert(forall|k: int| 0 <= k < l0 ==> b[k] == spec_dec(o0)[k]);
    assert(b[l0] == 46);
    assert(forall|k: int| 0 <= k < l1 ==> b[l0 + 1 + k] == spec_dec(o1)[k]);
    assert(b[l0 + 1 + l1] == 46);
    assert(forall|k: int| 0 <= k < l2 ==> b[l0 + 1 + l1 + 1 + k] == spec_dec(o2)[k]);
    assert(b[l0 + 1 + l1 + 1 + l2] == 46);
    assert(forall|k: int| 0 <= k < l3 ==> b[l0 + 1 + l1 + 1 + l2 + 1 + k] == spec_dec(o3)[k]);
    assert(b[l0 + 1 + l1 + 1 + l2 + 1 + l3] == 47);
    assert(forall|k: int|
        0 <= k < lp ==> b[l0 + 1 + l1 + 1 + l2 + 1 + l3 + 1 + k] == spec_dec(op)[k]);
    lemma_parse_octet_of_dec(b, 0, o0);
    lemma_parse_octet_of_dec(b, l0 + 1, o1);
    lemma_parse_octet_of_dec(b, l0 + 1 + l1 + 1, o2);
    lemma_parse_octet_of_dec(b, l0 + 1 + l1 + 1 + l2 + 1, o3);
    lemma_parse_octet_of_dec(b, l0 + 1 + l1 + 1 + l2 + 1 + l3 + 1, op);
    assert(spec_ipv4(o0 as u8, o1 as u8, o2 as u8, o3 as u8) == ip) by {
        assert(ip / 0x100_0000 * 0x100_0000 + (ip / 0x1_0000) % 0x100 * 0x1_0000 + (ip / 0x100)
            % 0x100 * 0x100 + ip % 0x100 == ip) by (bit_vector);
        assert(ip / 0x100_0000 < 0x100) by (bit_vector);
    }
}

} // verus!
