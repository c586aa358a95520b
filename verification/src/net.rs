//! IPv4 addresses as 32-bit values, address-range predicates and CIDR blocks.

use vstd::prelude::*;

verus! {

/// The 32-bit value of the dotted address `a.b.c.d`.
pub open spec fn spec_ipv4(a: u8, b: u8, c: u8, d: u8) -> u32 {
    ((a as u32) * 0x100_0000 + (b as u32) * 0x1_0000 + (c as u32) * 0x100 + (d as u32)) as u32
}

/// Builds the 32-bit form of the dotted address `a.b.c.d`.
#[verifier::when_used_as_spec(spec_ipv4)]
pub fn ipv4(a: u8, b: u8, c: u8, d: u8) -> (r: u32)
    ensures
        r == spec_ipv4(a, b, c, d),
{
    (a as u32) * 0x100_0000 + (b as u32) * 0x1_0000 + (c as u32) * 0x100 + (d as u32)
}

/// The first (highest) octet of an address.
pub open spec fn spec_octet0(ip: u32) -> u32 {
    ip / 0x100_0000
}

/// The second octet of an address.
pub open spec fn spec_octet1(ip: u32) -> u32 {
    (ip / 0x1_0000) % 0x100
}

/// The third octet of an address.
pub open spec fn spec_octet2(ip: u32) -> u32 {
    (ip / 0x100) % 0x100
}

/// The fourth (lowest) octet of an address.
pub open spec fn spec_octet3(ip: u32) -> u32 {
    ip % 0x100
}

#[verifier::when_used_as_spec(spec_octet0)]
pub fn octet0(ip: u32) -> (r: u32)
    ensures
        r == spec_octet0(ip),
{
    ip / 0x100_0000
}

#[verifier::when_used_as_spec(spec_octet1)]
pub fn octet1(ip: u32) -> (r: u32)
    ensures
        r == spec_octet1(ip),
{
    (ip / 0x1_0000) % 0x100
}

#[verifier::when_used_as_spec(spec_octet2)]
pub fn octet2(ip: u32) -> (r: u32)
    ensures
        r == spec_octet2(ip),
{
    (ip / 0x100) % 0x100
}

#[verifier::when_used_as_spec(spec_octet3)]
pub fn octet3(ip: u32) -> (r: u32)
    ensures
        r == spec_octet3(ip),
{
    ip % 0x100
}

/// `127.0.0.0/8`.
pub open spec fn spec_is_loopback(ip: u32) -> bool {
    spec_octet0(ip) == 127
}

/// RFC 1918 private ranges: `10.0.0.0/8`, `172.16.0.0/12`, `192.168.0.0/16`.
pub open spec fn spec_is_private(ip: u32) -> bool {
    ||| spec_octet0(ip) == 10
    ||| (spec_octet0(ip) == 172 && 16 <= spec_octet1(ip) <= 31)
    ||| (spec_octet0(ip) == 192 && spec_octet1(ip) == 168)
}

/// `169.254.0.0/16`.
pub open spec fn spec_is_link_local(ip: u32) -> bool {
    spec_octet0(ip) == 169 && spec_octet1(ip) == 254
}

/// `224.0.0.0/4`.
pub open spec fn spec_is_multicast(ip: u32) -> bool {
    224 <= spec_octet0(ip) <= 239
}

/// The limited broadcast address `255.255.255.255`.
pub open spec fn spec_is_broadcast(ip: u32) -> bool {
    ip == 0xFFFF_FFFFu32
}

/// Reserved ranges: `0.0.0.0/8` and `240.0.0.0/4`.
pub open spec fn spec_is_reserved(ip: u32) -> bool {
    spec_octet0(ip) == 0 || spec_octet0(ip) >= 240
}

/// Any address range that must never be proxied, regardless of port.
pub open spec fn spec_is_special(ip: u32) -> bool {
    ||| spec_is_loopback(ip)
    ||| spec_is_private(ip)
    ||| spec_is_link_local(ip)
    ||| spec_is_multicast(ip)
    ||| spec_is_broadcast(ip)
    ||| spec_is_reserved(ip)
}

#[verifier::when_used_as_spec(spec_is_loopback)]
pub fn is_loopback(ip: u32) -> (r: bool)
    ensures
        r == spec_is_loopback(ip),
{
    octet0(ip) == 127
}

#[verifier::when_used_as_spec(spec_is_private)]
pub fn is_private(ip: u32) -> (r: bool)
    ensures
        r == spec_is_private(ip),
{
    let o0 = octet0(ip);
    let o1 = octet1(ip);
    o0 == 10 || (o0 == 172 && 16 <= o1 && o1 <= 31) || (o0 == 192 && o1 == 168)
}

#[verifier::when_used_as_spec(spec_is_link_local)]
pub fn is_link_local(ip: u32) -> (r: bool)
    ensures
        r == spec_is_link_local(ip),
{
    octet0(ip) == 169 && octet1(ip) == 254
}

#[verifier::when_used_as_spec(spec_is_multicast)]
pub fn is_multicast(ip: u32) -> (r: bool)
    ensures
        r == spec_is_multicast(ip),
{
    let o0 = octet0(ip);
    224 <= o0 && o0 <= 239
}

#[verifier::when_used_as_spec(spec_is_broadcast)]
pub fn is_broadcast(ip: u32) -> (r: bool)
    ensures
        r == spec_is_broadcast(ip),
{
    ip == 0xFFFF_FFFFu32
}

#[verifier::when_used_as_spec(spec_is_reserved)]
pub fn is_reserved(ip: u32) -> (r: bool)
    ensures
        r == spec_is_reserved(ip),
{
    let o0 = octet0(ip);
    o0 == 0 || o0 >= 240
}

#[verifier::when_used_as_spec(spec_is_special)]
pub fn is_special(ip: u32) -> (r: bool)
    ensures
        r == spec_is_special(ip),
{
    is_loopback(ip) || is_private(ip) || is_link_local(ip) || is_multicast(ip)
        || is_broadcast(ip) || is_reserved(ip)
}

/// A CIDR block `addr/prefix`.
#[derive(Clone, Copy, Debug, PartialEq, Eq, Structural)]
pub struct Cidr {
    pub addr: u32,
    pub prefix: u8,
}

impl Cidr {
    /// A block is well formed when its prefix length is at most 32 bits.
    pub open spec fn wf(self) -> bool {
        self.prefix <= 32
    }

    /// The mask keeping the high `prefix` bits of an address.
    pub open spec fn spec_mask(self) -> u32 {
        if self.prefix == 0 {
            0u32
        } else {
            (0xFFFF_FFFFu32 << ((32 - self.prefix) as u32)) as u32
        }
    }

    /// An address lies in the block when it agrees with `addr` on the
    /// high `prefix` bits.
    pub open spec fn spec_contains(self, ip: u32) -> bool {
        ip & self.spec_mask() == self.addr & self.spec_mask()
    }

    pub fn mask(&self) -> (r: u32)
        requires
            self.wf(),
        ensures
            r == self.spec_mask(),
    {
        if self.prefix == 0 {
            0u32
        } else {
            0xFFFF_FFFFu32 << ((32 - self.prefix) as u32)
        }
    }

    pub fn contains(&self, ip: u32) -> (r: bool)
        requires
            self.wf(),
        ensures
            r == self.spec_contains(ip),
    {
        let m = self.mask();
        ip & m == self.addr & m
    }
}

} // verus!
