//! Route-table control: the split default route, host-pinned routes
//! for the proxy endpoint and DNS resolvers, rollback on a failed
//! install, and restoration on disable.
//!
//! The controller only decides; it emits route operations that the
//! platform layer applies to the OS table one by one and reports back.
//! Enabling never deletes an existing entry — the two half-space
//! routes `0.0.0.0/1` and `128.0.0.0/1` win by longest-prefix match
//! without touching the original default route — so disabling only
//! deletes what enabling added.

use vstd::prelude::*;
use vstd::multiset::Multiset;
use crate::net::ipv4;

verus! {

/// One route-table entry: `dest/prefix` via `gateway`.
#[derive(Clone, Copy, Debug, PartialEq, Eq, Structural)]
pub struct Route {
    pub dest: u32,
    pub prefix: u8,
    pub gateway: u32,
}

/// One mutation of the OS route table.
#[derive(Clone, Copy, Debug, PartialEq, Eq, Structural)]
pub enum RouteOp {
    Add(Route),
    Del(Route),
}

/// The effect of one operation on a route table seen as a multiset:
/// adding inserts an entry; deleting removes one occurrence, and is a
/// no-op when the entry is already gone (an entry removed externally
/// must not fail a disable).
pub open spec fn spec_apply_op(m: Multiset<Route>, op: RouteOp) -> Multiset<Route> {
    match op {
        RouteOp::Add(r) => m.insert(r),
        RouteOp::Del(r) => if m.count(r) > 0 {
            m.remove(r)
        } else {
            m
        },
    }
}

/// The effect of a sequence of operations, applied left to right.
pub open spec fn spec_apply_ops(m: Multiset<Route>, ops: Seq<RouteOp>) -> Multiset<Route>
    decreases ops.len(),
{
    if ops.len() == 0 {
        m
    } else {
        spec_apply_ops(spec_apply_op(m, ops[0]), ops.drop_first())
    }
}

/// The Add operations for the routes of `s`, in order.
pub open spec fn spec_add_ops(s: Seq<Route>) -> Seq<RouteOp> {
    s.map(|i: int, r: Route| RouteOp::Add(r))
}

/// The Del operations for the routes of `s`, in reverse order.
pub open spec fn spec_del_ops_reversed(s: Seq<Route>) -> Seq<RouteOp> {
    s.reverse().map(|i: int, r: Route| RouteOp::Del(r))
}

/// Adds an entry to an in-memory route table.
pub fn route_table_add(table: &mut Vec<Route>, r: Route)
    ensures
        final(table)@.to_multiset() == old(table)@.to_multiset().insert(r),
        final(table)@ == old(table)@.push(r),
{
    table.push(r);
    proof {
        broadcast use vstd::seq_lib::group_to_multiset_ensures;

        assert(table@.to_multiset() =~= old(table)@.to_multiset().insert(r));
    }
}

/// Removes one occurrence of an entry from an in-memory route table,
/// reporting whether it was present.
pub fn route_table_remove(table: &mut Vec<Route>, r: Route) -> (found: bool)
    ensures
        found == old(table)@.contains(r),
        found ==> final(table)@.to_multiset() == old(table)@.to_multiset().remove(r),
        !found ==> final(table)@ == old(table)@,
{
    let n = table.len();
    let mut i: usize = 0;
    while i < n
        invariant
            i <= n == table@.len(),
            table@ == old(table)@,
            forall|k: int| 0 <= k < i ==> table@[k] != r,
        decreases n - i,
    {
        if table[i] == r {
            table.remove(i);
            proof {
                broadcast use vstd::seq_lib::group_to_multiset_ensures;

                assert(table@.to_multiset() =~= old(table)@.to_multiset().remove(r));
            }
            return true;
        }
        i = i + 1;
    }
    proof {
        assert(!old(table)@.contains(r));
    }
    false
}

/// Applies one operation to an in-memory route table.
pub fn apply_route_op(table: &mut Vec<Route>, op: RouteOp)
    ensures
        final(table)@.to_multiset() == spec_apply_op(old(table)@.to_multiset(), op),
{
    proof {
        broadcast use vstd::seq_lib::group_to_multiset_ensures;

    }
    match op {
        RouteOp::Add(r) => route_table_add(table, r),
        RouteOp::Del(r) => {
            route_table_remove(table, r);
        },
    }
}

/// Applies a sequence of operations to an in-memory route table, left
/// to right.
pub fn apply_route_ops(table: &mut Vec<Route>, ops: &Vec<RouteOp>)
    ensures
        final(table)@.to_multiset() == spec_apply_ops(old(table)@.to_multiset(), ops@),
{
    let n = ops.len();
    let mut i: usize = 0;
    proof {
        assert(ops@.skip(0) =~= ops@);
    }
    while i < n
        invariant
            i <= n == ops@.len(),
            spec_apply_ops(old(table)@.to_multiset(), ops@) == spec_apply_ops(
                table@.to_multiset(),
                ops@.skip(i as int),
            ),
        decreases n - i,
    {
        let ghost before = table@.to_multiset();
        apply_route_op(table, ops[i]);
        i = i + 1;
        proof {
            assert(ops@.skip(i - 1).drop_first() =~= ops@.skip(i as int));
            assert(ops@.skip(i - 1)[0] == ops@[i - 1]);
        }
    }
    proof {
        assert(ops@.skip(n as int).len() == 0);
    }
}

/// Applying operations in sequence is applying the first batch, then
/// the second.
pub proof fn lemma_apply_ops_concat(m: Multiset<Route>, s1: Seq<RouteOp>, s2: Seq<RouteOp>)
    ensures
        spec_apply_ops(m, s1 + s2) == spec_apply_ops(spec_apply_ops(m, s1), s2),
    decreases s1.len(),
{
    if s1.len() == 0 {
        assert(s1 + s2 =~= s2);
    } else {
        assert((s1 + s2)[0] == s1[0]);
        assert((s1 + s2).drop_first() =~= s1.drop_first() + s2);
        lemma_apply_ops_concat(spec_apply_op(m, s1[0]), s1.drop_first(), s2);
    }
}

/// Law: adding a batch of routes and then deleting the same routes in
/// reverse order leaves the route table, seen as a multiset of
/// entries, exactly as it was.
pub proof fn lemma_adds_then_dels_restore(m: Multiset<Route>, s: Seq<Route>)
    ensures
        spec_apply_ops(m, spec_add_ops(s) + spec_del_ops_reversed(s)) == m,
    decreases s.len(),
{
    if s.len() == 0 {
        assert(spec_add_ops(s) + spec_del_ops_reversed(s) =~= Seq::<RouteOp>::empty());
    } else {
        let a = s[0];
        let rest = s.drop_first();
        let ops = spec_add_ops(s) + spec_del_ops_reversed(s);
        assert(ops[0] == RouteOp::Add(a));
        assert(s.reverse() =~= rest.reverse().push(a));
        assert(ops.drop_first() =~= (spec_add_ops(rest) + spec_del_ops_reversed(rest)) + seq![
            RouteOp::Del(a),
        ]) by {
            assert(spec_add_ops(s).drop_first() =~= spec_add_ops(rest));
            assert(spec_del_ops_reversed(s) =~= spec_del_ops_reversed(rest) + seq![
                RouteOp::Del(a),
            ]);
        }
        lemma_adds_then_dels_restore(m.insert(a), rest);
        lemma_apply_ops_concat(
            m.insert(a),
            spec_add_ops(rest) + spec_del_ops_reversed(rest),
            seq![RouteOp::Del(a)],
        );
        let dels = seq![RouteOp::Del(a)];
        assert(spec_apply_op(m.insert(a), RouteOp::Del(a)) == m) by {
            assert(m.insert(a).count(a) > 0);
            assert(m.insert(a).remove(a) =~= m);
        }
        assert(dels[0] == RouteOp::Del(a) && dels.drop_first().len() == 0);
        assert(spec_apply_ops(m, dels.drop_first()) == m);
        assert(spec_apply_ops(m.insert(a), dels) == m);
    }
}

/// The install phases of the controller.
#[derive(Clone, Copy, Debug, PartialEq, Eq, Structural)]
pub enum RoutePhase {
    /// No route of ours is installed; the backup is empty.
    Idle,
    /// Part of the plan is installed; a failure rolls the prefix back.
    Installing,
    /// The whole plan is installed.
    Enabled,
}

/// Decides which routes to install and, on failure or disable, which
/// to delete. `backup` holds the snapshot of the default-route entries
/// taken before the first install; it is non-empty only while routes
/// are installed.
pub struct RouteController {
    pub phase: RoutePhase,
    pub backup: Vec<Route>,
    pub planned: Vec<Route>,
    pub installed: usize,
}

impl RouteController {
    /// Phase consistency: nothing planned or backed up while idle, and
    /// the installed prefix never passes the plan.
    pub open spec fn wf(self) -> bool {
        &&& (self.phase is Idle ==> self.installed == 0 && self.planned@.len() == 0
            && self.backup@.len() == 0)
        &&& (self.phase is Installing ==> self.installed <= self.planned@.len())
        &&& (self.phase is Enabled ==> self.installed == self.planned@.len())
    }

    /// A controller that has installed nothing.
    pub fn new() -> (c: RouteController)
        ensures
            c.wf(),
            c.phase is Idle,
    {
        RouteController { phase: RoutePhase::Idle, backup: Vec::new(), planned: Vec::new(), installed: 0 }
    }

    /// Starts an install: snapshots the current default-route entries
    /// and records the plan. Route installation is strictly sequential:
    /// the caller applies `next_add` operations one at a time and
    /// reports each outcome before the packet loop may start.
    pub fn begin_enable(&mut self, snapshot: Vec<Route>, plan: Vec<Route>)
        requires
            old(self).wf(),
            old(self).phase is Idle,
        ensures
            final(self).wf(),
            final(self).phase is Installing,
            final(self).backup@ == snapshot@,
            final(self).planned@ == plan@,
            final(self).installed == 0,
    {
        self.phase = RoutePhase::Installing;
        self.backup = snapshot;
        self.planned = plan;
        self.installed = 0;
    }

    /// The next route to add, if the install is still under way.
    pub fn next_add(&self) -> (r: Option<Route>)
        requires
            self.wf(),
        ensures
            r == if self.phase is Installing && self.installed < self.planned@.len() {
                Some(self.planned@[self.installed as int])
            } else {
                None::<Route>
            },
    {
        if let RoutePhase::Installing = self.phase {
            if self.installed < self.planned.len() {
                return Some(self.planned[self.installed]);
            }
        }
        None
    }

    /// Records that the pending route was added. Once the whole plan is
    /// in, the controller is enabled.
    pub fn add_succeeded(&mut self)
        requires
            old(self).wf(),
            old(self).phase is Installing,
            old(self).installed < old(self).planned@.len(),
        ensures
            final(self).wf(),
            final(self).installed == old(self).installed + 1,
            final(self).planned@ == old(self).planned@,
            final(self).backup@ == old(self).backup@,
            final(self).phase == if old(self).installed + 1 == old(self).planned@.len() {
                RoutePhase::Enabled
            } else {
                RoutePhase::Installing
            },
    {
        let n = self.planned.len();
        self.installed = self.installed + 1;
        if self.installed == n {
            self.phase = RoutePhase::Enabled;
        }
    }

    /// Tears down whatever is installed and returns to idle: the
    /// rollback of a failed install, and the disable path. The
    /// operations delete, in reverse order, exactly the routes added so
    /// far — applied to the table they were added to, they restore the
    /// pre-enable snapshot (`lemma_adds_then_dels_restore`). Calling it
    /// while idle is a no-op, so disable is idempotent.
    pub fn disable(&mut self) -> (ops: Vec<RouteOp>)
        requires
            old(self).wf(),
        ensures
            final(self).wf(),
            final(self).phase is Idle,
            ops@ == spec_del_ops_reversed(old(self).planned@.subrange(0, old(self).installed as int)),
    {
        let k = self.installed;
        let mut ops: Vec<RouteOp> = Vec::new();
        let ghost prefix = self.planned@.subrange(0, k as int);
        let mut j: usize = 0;
        while j < k
            invariant
                j <= k <= self.planned@.len(),
                prefix == self.planned@.subrange(0, k as int),
                self.planned@ == old(self).planned@,
                self.installed == old(self).installed,
                self.backup@ == old(self).backup@,
                self.phase == old(self).phase,
                ops@.len() == j,
                forall|i: int| 0 <= i < j ==> ops@[i] == RouteOp::Del(prefix[k - 1 - i]),
            decreases k - j,
        {
            ops.push(RouteOp::Del(self.planned[k - 1 - j]));
            j = j + 1;
        }
        proof {
            assert(ops@ =~= spec_del_ops_reversed(prefix));
        }
        self.phase = RoutePhase::Idle;
        self.backup = Vec::new();
        self.planned = Vec::new();
        self.installed = 0;
        ops
    }
}

/// The route plan for enabling the engine: host-pinned routes through
/// the original default gateway for the proxy endpoint and each DNS
/// resolver (so the engine's own traffic is never captured — no
/// routing loop), then the two half-space routes through the virtual
/// interface's gateway; in strict mode, broadcast and multicast are
/// additionally pinned to the virtual interface against leaks.
pub fn plan_enable(
    tun_gateway: u32,
    original_gateway: u32,
    proxy_ip: u32,
    dns_servers: &Vec<u32>,
    strict: bool,
) -> (plan: Vec<Route>)
    ensures
        plan@.len() == dns_servers@.len() + if strict {
            5int
        } else {
            3int
        },
        plan@[0] == (Route { dest: proxy_ip, prefix: 32, gateway: original_gateway }),
        forall|i: int|
            0 <= i < dns_servers@.len() ==> plan@[1 + i as int] == (Route {
                dest: dns_servers@[i],
                prefix: 32,
                gateway: original_gateway,
            }),
        plan@[dns_servers@.len() as int + 1] == (Route { dest: 0, prefix: 1, gateway: tun_gateway }),
        plan@[dns_servers@.len() as int + 2] == (Route {
            dest: 0x8000_0000,
            prefix: 1,
            gateway: tun_gateway,
        }),
        strict ==> plan@[dns_servers@.len() as int + 3] == (Route {
            dest: 0xFFFF_FFFF,
            prefix: 32,
            gateway: tun_gateway,
        }),
        strict ==> plan@[dns_servers@.len() as int + 4] == (Route {
            dest: ipv4(224, 0, 0, 0),
            prefix: 4,
            gateway: tun_gateway,
        }),
{
    let mut plan: Vec<Route> = Vec::new();
    plan.push(Route { dest: proxy_ip, prefix: 32, gateway: original_gateway });
    let n = dns_servers.len();
    let mut i: usize = 0;
    while i < n
        invariant
            i <= n == dns_servers@.len(),
            plan@.len() == 1 + i,
            plan@[0] == (Route { dest: proxy_ip, prefix: 32, gateway: original_gateway }),
            forall|k: int|
                0 <= k < i ==> plan@[1 + k] == (Route {
                    dest: dns_servers@[k],
                    prefix: 32,
                    gateway: original_gateway,
                }),
        decreases n - i,
    {
        plan.push(Route { dest: dns_servers[i], prefix: 32, gateway: original_gateway });
        i = i + 1;
    }
    plan.push(Route { dest: 0, prefix: 1, gateway: tun_gateway });
    plan.push(Route { dest: 0x8000_0000, prefix: 1, gateway: tun_gateway });
    if strict {
        plan.push(Route { dest: 0xFFFF_FFFF, prefix: 32, gateway: tun_gateway });
        plan.push(Route { dest: ipv4(224, 0, 0, 0), prefix: 4, gateway: tun_gateway });
    }
    plan
}

} // verus!
