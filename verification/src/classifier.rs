//! Flow classification: per-destination choice between bypassing the
//! proxy, relaying through it, or connecting directly when the proxy
//! engine is unhealthy (fail-open policy).

use vstd::prelude::*;
use crate::net::{Cidr, spec_is_special, is_special};

verus! {

/// What to do with a flow.
#[derive(Clone, Copy, Debug, PartialEq, Eq, Structural)]
pub enum FlowDecision {
    /// Never send through the virtual interface path: local, reserved or
    /// explicitly excluded destinations.
    Bypass,
    /// Relay through the SOCKS5 endpoint of the proxy engine.
    Proxy,
    /// Proxy engine unhealthy: connect directly instead of failing the
    /// flow (fail-open).
    Direct,
}

/// Ports of fixed system services (DNS, DHCP, NTP, NetBIOS, SNMP, LDAP,
/// Kerberos, SMB, WS-Discovery, mDNS, LLMNR, RPC) that are never
/// proxied.
pub open spec fn spec_is_system_port(p: u16) -> bool {
    ||| p == 53
    ||| p == 67
    ||| p == 68
    ||| p == 123
    ||| (137 <= p <= 139)
    ||| p == 161
    ||| p == 162
    ||| p == 389
    ||| p == 636
    ||| p == 445
    ||| p == 3702
    ||| p == 5353
    ||| p == 5355
    ||| p == 88
    ||| p == 464
    ||| p == 135
}

#[verifier::when_used_as_spec(spec_is_system_port)]
pub fn is_system_port(p: u16) -> (r: bool)
    ensures
        r == spec_is_system_port(p),
{
    p == 53 || p == 67 || p == 68 || p == 123 || (137 <= p && p <= 139) || p == 161 || p == 162
        || p == 389 || p == 636 || p == 445 || p == 3702 || p == 5353 || p == 5355 || p == 88
        || p == 464 || p == 135
}

/// Whether some block of the bypass list contains the address.
pub open spec fn spec_matches_bypass(list: Seq<Cidr>, ip: u32) -> bool {
    exists|i: int| 0 <= i < list.len() && #[trigger] list[i].spec_contains(ip)
}

/// Decides whether one destination is bypassed or proxied.
pub struct FlowClassifier {
    /// Configured bypass blocks (a plain address is a /32 block).
    pub bypass: Vec<Cidr>,
    /// Current health of the supervised proxy engine.
    pub proxy_healthy: bool,
}

impl FlowClassifier {
    /// Every configured block has a valid prefix length.
    pub open spec fn wf(self) -> bool {
        forall|i: int| 0 <= i < self.bypass@.len() ==> (#[trigger] self.bypass@[i]).wf()
    }

    /// The classification of a destination: Bypass for special ranges,
    /// listed blocks and system-service ports; otherwise Proxy while the
    /// proxy engine is healthy and Direct while it is not.
    pub open spec fn spec_decide(self, dst_ip: u32, dst_port: u16) -> FlowDecision {
        if spec_is_special(dst_ip) || spec_matches_bypass(self.bypass@, dst_ip)
            || spec_is_system_port(dst_port) {
            FlowDecision::Bypass
        } else if self.proxy_healthy {
            FlowDecision::Proxy
        } else {
            FlowDecision::Direct
        }
    }

    /// Builds a classifier from the configured bypass blocks and the
    /// current proxy health.
    pub fn new(bypass: Vec<Cidr>, proxy_healthy: bool) -> (c: FlowClassifier)
        requires
            forall|i: int| 0 <= i < bypass@.len() ==> (#[trigger] bypass@[i]).wf(),
        ensures
            c.wf(),
            c.bypass@ == bypass@,
            c.proxy_healthy == proxy_healthy,
    {
        FlowClassifier { bypass, proxy_healthy }
    }

    /// Classifies one destination address and port.
    pub fn decide(&self, dst_ip: u32, dst_port: u16) -> (d: FlowDecision)
        requires
            self.wf(),
        ensures
            d == self.spec_decide(dst_ip, dst_port),
    {
        if is_special(dst_ip) || is_system_port(dst_port) {
            return FlowDecision::Bypass;
        }
        let mut i: usize = 0;
        let n = self.bypass.len();
        while i < n
            invariant
                i <= n == self.bypass@.len(),
                self.wf(),
                forall|k: int| 0 <= k < i ==> !(#[trigger] self.bypass@[k]).spec_contains(dst_ip),
            decreases n - i,
        {
            if self.bypass[i].contains(dst_ip) {
                return FlowDecision::Bypass;
            }
            i = i + 1;
        }
        if self.proxy_healthy {
            FlowDecision::Proxy
        } else {
            FlowDecision::Direct
        }
    }
}

/// Law: every private, loopback, link-local, multicast, broadcast or
/// reserved destination is bypassed, whatever the port and whatever the
/// configuration.
pub proof fn lemma_special_ranges_always_bypass(c: FlowClassifier, dst_ip: u32, dst_port: u16)
    requires
        spec_is_special(dst_ip),
    ensures
        c.spec_decide(dst_ip, dst_port) == FlowDecision::Bypass,
{
}

/// Law: every destination matching the configured bypass list, and every
/// destination port in the system-service set, is bypassed.
pub proof fn lemma_bypass_list_and_system_ports_bypass(
    c: FlowClassifier,
    dst_ip: u32,
    dst_port: u16,
)
    requires
        spec_matches_bypass(c.bypass@, dst_ip) || spec_is_system_port(dst_port),
    ensures
        c.spec_decide(dst_ip, dst_port) == FlowDecision::Bypass,
{
}

} // verus!
