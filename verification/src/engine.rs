//! The engine: per-packet dispatch, the connection table, the
//! supervisor of the external proxy process, and the start/stop
//! orchestration. The engine decides; the platform layer performs the
//! returned actions (spawning, terminating, opening streams, writing
//! packets) and reports back.

use vstd::prelude::*;
use crate::classifier::{FlowClassifier, FlowDecision};
use crate::config::TunConfig;
use crate::dns::{resolve_dns_query, spec_resolve_query, spec_synthesize_response,
    synthesize_response};
use crate::errors::EngineError;
use crate::fakeip::FakeIpAllocator;
use crate::net::Cidr;
use crate::packet::{FlowKey, PacketModel, Protocol, decode, encode_response,
    spec_decode, spec_encode_response};
use crate::routes::{RouteController, RouteOp};

verus! {

/// A live handle of the supervised proxy process.
#[derive(Clone, Copy, Debug, PartialEq, Eq, Structural)]
pub struct ProcessHandle {
    pub pid: u32,
}

/// Tracks the one external proxy process. At most one handle is live
/// at any time; starting always supersedes whatever ran before.
pub struct ProxyProcessSupervisor {
    pub handle: Option<ProcessHandle>,
}

impl ProxyProcessSupervisor {
    /// A supervisor tracking nothing.
    pub fn new() -> (s: ProxyProcessSupervisor)
        ensures
            s.handle is None,
    {
        ProxyProcessSupervisor { handle: None }
    }

    /// Begins a start: whatever process is tracked is handed back to
    /// be terminated first, so that the new instance supersedes it.
    pub fn begin_start(&mut self) -> (prev: Option<ProcessHandle>)
        ensures
            final(self).handle is None,
            prev == old(self).handle,
    {
        let prev = self.handle;
        self.handle = None;
        prev
    }

    /// Records the newly spawned process once it survived its grace
    /// period still alive.
    pub fn confirm_started(&mut self, pid: u32)
        requires
            old(self).handle is None,
        ensures
            final(self).handle == (Some(ProcessHandle { pid })),
    {
        self.handle = Some(ProcessHandle { pid });
    }

    /// Stops: returns the handle to terminate, tracking nothing
    /// afterwards. Safe to call when nothing runs.
    pub fn stop(&mut self) -> (prev: Option<ProcessHandle>)
        ensures
            final(self).handle is None,
            prev == old(self).handle,
    {
        let prev = self.handle;
        self.handle = None;
        prev
    }

    /// Whether a process is currently tracked.
    pub fn is_tracking(&self) -> (r: bool)
        ensures
            r == (self.handle is Some),
    {
        match self.handle {
            Some(_) => true,
            None => false,
        }
    }
}

/// What the platform layer must do with one packet read from the
/// virtual interface.
pub enum PacketAction {
    /// Malformed, non-IPv4, other protocol, or a failed DNS path:
    /// silently dropped, never an error.
    Drop,
    /// Write this synthesized DNS response packet back into the
    /// virtual interface.
    AnswerDns(Vec<u8>),
    /// Send this DNS query payload to the given resolver and write its
    /// answer back attributed to the original flow.
    RelayDns(u32, Vec<u8>),
    /// First packet of a proxied flow: open a SOCKS5 relay for it and
    /// hand it this payload.
    OpenFlow(FlowKey, Vec<u8>),
    /// Bypassed destination, or proxy unhealthy: connect directly.
    DirectFlow(FlowKey, Vec<u8>),
    /// Payload for a flow whose relay is already live.
    ForwardExisting(FlowKey, Vec<u8>),
}

/// The model of a packet action, payloads as byte sequences.
pub enum PacketActionModel {
    Drop,
    AnswerDns(Seq<u8>),
    RelayDns(u32, Seq<u8>),
    OpenFlow(FlowKey, Seq<u8>),
    DirectFlow(FlowKey, Seq<u8>),
    ForwardExisting(FlowKey, Seq<u8>),
}

impl View for PacketAction {
    type V = PacketActionModel;

    open spec fn view(&self) -> PacketActionModel {
        match self {
            PacketAction::Drop => PacketActionModel::Drop,
            PacketAction::AnswerDns(b) => PacketActionModel::AnswerDns(b@),
            PacketAction::RelayDns(ip, b) => PacketActionModel::RelayDns(*ip, b@),
            PacketAction::OpenFlow(k, b) => PacketActionModel::OpenFlow(*k, b@),
            PacketAction::DirectFlow(k, b) => PacketActionModel::DirectFlow(*k, b@),
            PacketAction::ForwardExisting(k, b) => PacketActionModel::ForwardExisting(*k, b@),
        }
    }
}

/// Whether a decoded packet is a DNS query by destination port.
pub open spec fn spec_is_dns_query(p: PacketModel) -> bool {
    p.protocol is Udp && p.dst_port == 53
}

/// The flow identity of a decoded packet.
pub open spec fn spec_flow_key(p: PacketModel) -> FlowKey {
    FlowKey {
        src_ip: p.src_ip,
        src_port: p.src_port,
        dst_ip: p.dst_ip,
        dst_port: p.dst_port,
        protocol: p.protocol,
    }
}

/// One engine session: configuration, classifier, FakeIP allocator,
/// route controller, process supervisor and the connection table.
pub struct Engine {
    pub config: TunConfig,
    pub classifier: FlowClassifier,
    pub allocator: FakeIpAllocator,
    pub routes: RouteController,
    pub supervisor: ProxyProcessSupervisor,
    /// Flows with a live relay.
    pub flows: Vec<FlowKey>,
    pub running: bool,
    pub device_open: bool,
    /// Bytes handed to the engine from the virtual interface.
    pub bytes_received: u64,
    /// Bytes written back into the virtual interface.
    pub bytes_sent: u64,
}

/// Everything the platform layer must tear down on a stop: the process
/// to terminate and the route deletions restoring the table.
#[derive(Debug)]
pub struct StopPlan {
    pub terminate: Option<ProcessHandle>,
    pub route_ops: Vec<RouteOp>,
}

impl Engine {
    /// Component well-formedness plus uniqueness of the connection
    /// table's keys.
    pub open spec fn wf(self) -> bool {
        &&& self.config.wf()
        &&& self.classifier.wf()
        &&& self.allocator.wf()
        &&& self.routes.wf()
        &&& forall|i: int, j: int| 0 <= i < j < self.flows@.len() ==> self.flows@[i] != self.flows@[j]
    }

    /// A stopped engine for the given configuration: classifier fed
    /// from the configured bypass list (proxy initially unhealthy),
    /// FakeIP allocator over the configured pool, nothing installed,
    /// nothing tracked, no flows.
    pub fn new(config: TunConfig) -> (e: Engine)
        requires
            config.wf(),
        ensures
            e.wf(),
            e.config == config,
            e.classifier.bypass@ == config.bypass@,
            !e.classifier.proxy_healthy,
            e.allocator@.domains.len() == 0,
            e.allocator@.start == config.fake_ip_start,
            e.allocator@.end == config.fake_ip_end,
            e.routes.phase is Idle,
            e.supervisor.handle is None,
            e.flows@.len() == 0,
            !e.running,
            !e.device_open,
            e.bytes_received == 0,
            e.bytes_sent == 0,
    {
        let mut bypass: Vec<Cidr> = Vec::new();
        let n = config.bypass.len();
        let mut i: usize = 0;
        while i < n
            invariant
                i <= n == config.bypass@.len(),
                bypass@ == config.bypass@.subrange(0, i as int),
            decreases n - i,
        {
            bypass.push(config.bypass[i]);
            i = i + 1;
            proof {
                assert(bypass@ =~= config.bypass@.subrange(0, i as int));
            }
        }
        proof {
            assert(bypass@ =~= config.bypass@);
        }
        let classifier = FlowClassifier::new(bypass, false);
        let allocator = FakeIpAllocator::new(config.fake_ip_start, config.fake_ip_end);
        Engine {
            config,
            classifier,
            allocator,
            routes: RouteController::new(),
            supervisor: ProxyProcessSupervisor::new(),
            flows: Vec::new(),
            running: false,
            device_open: false,
            bytes_received: 0,
            bytes_sent: 0,
        }
    }

    /// Counts bytes read from the virtual interface, saturating.
    pub fn note_received(&mut self, n: u64)
        ensures
            final(self).bytes_received == if old(self).bytes_received + n <= u64::MAX {
                old(self).bytes_received + n
            } else {
                u64::MAX as int
            },
            *final(self) == (Engine { bytes_received: final(self).bytes_received, ..*old(self) }),
    {
        self.bytes_received = self.bytes_received.saturating_add(n);
    }

    /// Counts bytes written back into the virtual interface,
    /// saturating.
    pub fn note_sent(&mut self, n: u64)
        ensures
            final(self).bytes_sent == if old(self).bytes_sent + n <= u64::MAX {
                old(self).bytes_sent + n
            } else {
                u64::MAX as int
            },
            *final(self) == (Engine { bytes_sent: final(self).bytes_sent, ..*old(self) }),
    {
        self.bytes_sent = self.bytes_sent.saturating_add(n);
    }

    /// Records the current health of the proxy engine, which the
    /// classifier's fail-open policy depends on.
    pub fn set_proxy_health(&mut self, healthy: bool)
        requires
            old(self).wf(),
        ensures
            final(self).wf(),
            final(self).classifier.proxy_healthy == healthy,
            final(self).classifier.bypass@ == old(self).classifier.bypass@,
            final(self).config == old(self).config,
            final(self).allocator == old(self).allocator,
            final(self).routes == old(self).routes,
            final(self).supervisor == old(self).supervisor,
            final(self).flows@ == old(self).flows@,
            final(self).running == old(self).running,
            final(self).device_open == old(self).device_open,
    {
        self.classifier.proxy_healthy = healthy;
    }

    /// Whether a flow already has a live relay.
    pub fn flow_exists(&self, key: FlowKey) -> (r: bool)
        ensures
            r == self.flows@.contains(key),
    {
        let n = self.flows.len();
        let mut i: usize = 0;
        while i < n
            invariant
                i <= n == self.flows@.len(),
                forall|k: int| 0 <= k < i ==> self.flows@[k] != key,
            decreases n - i,
        {
            if self.flows[i] == key {
                return true;
            }
            i = i + 1;
        }
        proof {
            assert(!self.flows@.contains(key));
        }
        false
    }

    /// Removes a flow from the connection table when its relay ends —
    /// peer close, error, or teardown.
    pub fn remove_flow(&mut self, key: FlowKey)
        requires
            old(self).wf(),
        ensures
            final(self).wf(),
            !final(self).flows@.contains(key),
            old(self).flows@.contains(key) ==> final(self).flows@.len() == old(self).flows@.len()
                - 1,
            !old(self).flows@.contains(key) ==> final(self).flows@ == old(self).flows@,
            forall|k: FlowKey|
                k != key ==> (final(self).flows@.contains(k) == old(self).flows@.contains(k)),
            final(self).config == old(self).config,
            final(self).classifier == old(self).classifier,
            final(self).allocator == old(self).allocator,
            final(self).routes == old(self).routes,
            final(self).supervisor == old(self).supervisor,
            final(self).running == old(self).running,
            final(self).device_open == old(self).device_open,
    {
        let n = self.flows.len();
        let mut i: usize = 0;
        while i < n
            invariant
                i <= n == self.flows@.len(),
                *self == *old(self),
                old(self).wf(),
                forall|k: int| 0 <= k < i ==> self.flows@[k] != key,
            decreases n - i,
        {
            if self.flows[i] == key {
                self.flows.remove(i);
                proof {
                    let before = old(self).flows@;
                    let after = self.flows@;
                    assert(forall|x: int| 0 <= x < i ==> after[x] == before[x]);
                    assert(forall|x: int|
                        i <= x < after.len() ==> after[x] == before[x + 1]);
                    assert(forall|x: int, y: int|
                        0 <= x < y < after.len() ==> after[x] != after[y]);
                    assert(!after.contains(key)) by {
                        if after.contains(key) {
                            let w = choose|w: int| 0 <= w < after.len() && after[w] == key;
                            if w < i {
                                assert(before[w] == key && before[i as int] == key);
                            } else {
                                assert(before[w + 1] == key && before[i as int] == key);
                            }
                        }
                    }
                    assert forall|k: FlowKey| k != key implies (after.contains(k)
                        == before.contains(k)) by {
                        if after.contains(k) {
                            let w = choose|w: int| 0 <= w < after.len() && after[w] == k;
                            if w < i {
                                assert(before[w] == k);
                            } else {
                                assert(before[w + 1] == k);
                            }
                            assert(before.contains(k));
                        }
                        if before.contains(k) {
                            let w = choose|w: int| 0 <= w < before.len() && before[w] == k;
                            if w < i {
                                assert(after[w] == k);
                            } else {
                                assert(w != i);
                                assert(after[w - 1] == k);
                            }
                            assert(after.contains(k));
                        }
                    }
                }
                return ;
            }
            i = i + 1;
        }
        proof {
            assert(!self.flows@.contains(key));
        }
    }

    /// Decides what to do with one packet read from the virtual
    /// interface: drop anything malformed; with FakeIP on, answer DNS
    /// queries from the pool; with DNS hijack on, relay queries to the
    /// configured resolver; otherwise classify the destination and
    /// open, feed or bypass its flow.
    pub fn handle_packet(&mut self, bytes: &Vec<u8>) -> (action: PacketAction)
        requires
            old(self).wf(),
            bytes@.len() + 56 <= 65535,
        ensures
            final(self).wf(),
            final(self).config == old(self).config,
            final(self).classifier == old(self).classifier,
            final(self).routes == old(self).routes,
            final(self).supervisor == old(self).supervisor,
            final(self).running == old(self).running,
            final(self).device_open == old(self).device_open,
            match spec_decode(bytes@) {
                None => action@ is Drop && final(self).allocator == old(self).allocator && final(self).flows@ == old(self).flows@,
                Some(p) => {
                    if spec_is_dns_query(p) && old(self).config.fake_ip {
                        match spec_resolve_query(p.payload) {
                            None => action@ is Drop && final(self).allocator == old(self).allocator
                                && final(self).flows@ == old(self).flows@,
                            Some(name) => match old(self).allocator@.alloc_result(name) {
                                Ok(addr) => action@ == PacketActionModel::AnswerDns(
                                    spec_encode_response(
                                        p.dst_ip,
                                        p.dst_port,
                                        p.src_ip,
                                        p.src_port,
                                        spec_synthesize_response(p.payload, addr),
                                        Protocol::Udp,
                                    ),
                                ) && final(self).allocator@ == old(self).allocator@.alloc_next(name)
                                    && final(self).flows@ == old(self).flows@,
                                Err(_) => action@ is Drop && final(self).allocator@ == old(self).allocator@ && final(self).flows@ == old(self).flows@,
                            },
                        }
                    } else if spec_is_dns_query(p) && old(self).config.dns_hijack {
                        action@ == PacketActionModel::RelayDns(old(self).config.dns_server, p.payload)
                            && final(self).allocator == old(self).allocator && final(self).flows@
                            == old(self).flows@
                    } else {
                        let key = spec_flow_key(p);
                        match old(self).classifier.spec_decide(p.dst_ip, p.dst_port) {
                            FlowDecision::Bypass => action@ == PacketActionModel::DirectFlow(
                                key,
                                p.payload,
                            ) && final(self).allocator == old(self).allocator && final(self).flows@
                                == old(self).flows@,
                            FlowDecision::Direct => action@ == PacketActionModel::DirectFlow(
                                key,
                                p.payload,
                            ) && final(self).allocator == old(self).allocator && final(self).flows@
                                == old(self).flows@,
                            FlowDecision::Proxy => if old(self).flows@.contains(key) {
                                action@ == PacketActionModel::ForwardExisting(key, p.payload)
                                    && final(self).allocator == old(self).allocator && final(self).flows@ == old(self).flows@
                            } else {
                                action@ == PacketActionModel::OpenFlow(key, p.payload) && final(self).allocator == old(self).allocator && final(self).flows@ == old(self).flows@.push(key)
                            },
                        }
                    }
                },
            },
    {
        let decoded = decode(bytes);
        match decoded {
            None => PacketAction::Drop,
            Some(p) => {
                let is_dns = match p.protocol {
                    Protocol::Udp => p.dst_port == 53,
                    Protocol::Tcp => false,
                };
                if is_dns && self.config.fake_ip {
                    match resolve_dns_query(&p.payload) {
                        None => PacketAction::Drop,
                        Some(name) => {
                            match self.allocator.allocate(&name) {
                                Ok(addr) => {
                                    let resp = synthesize_response(&p.payload, addr);
                                    let pkt = encode_response(
                                        p.dst_ip,
                                        p.dst_port,
                                        p.src_ip,
                                        p.src_port,
                                        &resp,
                                        Protocol::Udp,
                                    );
                                    PacketAction::AnswerDns(pkt)
                                },
                                Err(_) => PacketAction::Drop,
                            }
                        },
                    }
                } else if is_dns && self.config.dns_hijack {
                    PacketAction::RelayDns(self.config.dns_server, p.payload)
                } else {
                    let key = FlowKey {
                        src_ip: p.src_ip,
                        src_port: p.src_port,
                        dst_ip: p.dst_ip,
                        dst_port: p.dst_port,
                        protocol: p.protocol,
                    };
                    match self.classifier.decide(p.dst_ip, p.dst_port) {
                        FlowDecision::Bypass => PacketAction::DirectFlow(key, p.payload),
                        FlowDecision::Direct => PacketAction::DirectFlow(key, p.payload),
                        FlowDecision::Proxy => {
                            if self.flow_exists(key) {
                                PacketAction::ForwardExisting(key, p.payload)
                            } else {
                                self.flows.push(key);
                                proof {
                                    let after = self.flows@;
                                    let before = old(self).flows@;
                                    assert(forall|x: int, y: int|
                                        0 <= x < y < after.len() ==> after[x] != after[y]) by {
                                        assert(forall|x: int|
                                            0 <= x < before.len() ==> after[x] == before[x]);
                                        assert(after[before.len() as int] == key);
                                        assert(forall|x: int|
                                            0 <= x < before.len() ==> before[x] != key) by {
                                            assert(!before.contains(key));
                                        }
                                    }
                                }
                                PacketAction::OpenFlow(key, p.payload)
                            }
                        },
                    }
                }
            },
        }
    }

    /// Stops the engine: tears down every live flow, closes the
    /// device, and returns what the platform layer must finish — the
    /// process to terminate and the route deletions restoring the
    /// pre-start table. The packet loop and the flows go down before
    /// the routes. Safe to call when already stopped.
    pub fn stop(&mut self) -> (plan: StopPlan)
        requires
            old(self).wf(),
        ensures
            final(self).wf(),
            final(self).flows@.len() == 0,
            !final(self).running,
            !final(self).device_open,
            final(self).supervisor.handle is None,
            final(self).routes.phase is Idle,
            plan.terminate == old(self).supervisor.handle,
            plan.route_ops@ == crate::routes::spec_del_ops_reversed(
                old(self).routes.planned@.subrange(0, old(self).routes.installed as int),
            ),
            final(self).config == old(self).config,
            final(self).classifier == old(self).classifier,
            final(self).allocator == old(self).allocator,
    {
        self.flows = Vec::new();
        self.running = false;
        self.device_open = false;
        let terminate = self.supervisor.stop();
        let route_ops = self.routes.disable();
        StopPlan { terminate, route_ops }
    }

    /// Replaces the configuration of a stopped engine: the classifier
    /// is fed from the new bypass list and the FakeIP allocator starts
    /// afresh over the new pool. A running session must be stopped
    /// first — the configuration is immutable while one runs.
    pub fn reconfigure(&mut self, config: TunConfig)
        requires
            old(self).wf(),
            !old(self).running,
            config.wf(),
        ensures
            final(self).wf(),
            final(self).config == config,
            final(self).classifier.bypass@ == config.bypass@,
            final(self).classifier.proxy_healthy == old(self).classifier.proxy_healthy,
            final(self).allocator@.domains.len() == 0,
            final(self).allocator@.start == config.fake_ip_start,
            final(self).allocator@.end == config.fake_ip_end,
            final(self).routes == old(self).routes,
            final(self).supervisor == old(self).supervisor,
            final(self).flows@ == old(self).flows@,
            !final(self).running,
            final(self).device_open == old(self).device_open,
    {
        let mut bypass: Vec<Cidr> = Vec::new();
        let n = config.bypass.len();
        let mut i: usize = 0;
        while i < n
            invariant
                i <= n == config.bypass@.len(),
                bypass@ == config.bypass@.subrange(0, i as int),
            decreases n - i,
        {
            bypass.push(config.bypass[i]);
            i = i + 1;
            proof {
                assert(bypass@ =~= config.bypass@.subrange(0, i as int));
            }
        }
        proof {
            assert(bypass@ =~= config.bypass@);
        }
        let healthy = self.classifier.proxy_healthy;
        self.classifier = FlowClassifier::new(bypass, healthy);
        self.allocator = FakeIpAllocator::new(config.fake_ip_start, config.fake_ip_end);
        self.config = config;
    }

    /// Begins a start. Fails fast without elevation and without a
    /// healthy SOCKS5 endpoint, changing nothing; otherwise any
    /// previous session is stopped first — starting supersedes — and
    /// the returned plan tears its remains down.
    pub fn begin_start(&mut self, is_admin: bool, proxy_healthy: bool) -> (r: Result<
        StopPlan,
        EngineError,
    >)
        requires
            old(self).wf(),
        ensures
            final(self).wf(),
            !is_admin ==> r == Err::<StopPlan, EngineError>(EngineError::Privilege) && *final(self)
                == *old(self),
            is_admin && !proxy_healthy ==> r == Err::<StopPlan, EngineError>(
                EngineError::ProxyUnavailable,
            ) && *final(self) == *old(self),
            is_admin && proxy_healthy ==> r is Ok && {
                let plan = r->Ok_0;
                &&& final(self).flows@.len() == 0
                &&& !final(self).running
                &&& !final(self).device_open
                &&& final(self).supervisor.handle is None
                &&& final(self).routes.phase is Idle
                &&& plan.terminate == old(self).supervisor.handle
                &&& plan.route_ops@ == crate::routes::spec_del_ops_reversed(
                    old(self).routes.planned@.subrange(0, old(self).routes.installed as int),
                )
                &&& final(self).classifier.proxy_healthy
                &&& final(self).classifier.bypass@ == old(self).classifier.bypass@
                &&& final(self).config == old(self).config
                &&& final(self).allocator == old(self).allocator
            },
    {
        if !is_admin {
            return Err(EngineError::Privilege);
        }
        if !proxy_healthy {
            return Err(EngineError::ProxyUnavailable);
        }
        let plan = self.stop();
        self.set_proxy_health(true);
        Ok(plan)
    }

    /// Records a completed start: routes fully installed, device open,
    /// the spawned process confirmed alive. Exactly one process handle
    /// and one device session are live afterwards.
    pub fn confirm_started(&mut self, pid: u32)
        requires
            old(self).wf(),
            old(self).supervisor.handle is None,
            old(self).routes.phase is Enabled,
        ensures
            final(self).wf(),
            final(self).supervisor.handle == (Some(ProcessHandle { pid })),
            final(self).running,
            final(self).device_open,
            spec_session(*final(self)) == (SessionModel { process: Some(pid), device: true }),
            final(self).flows@ == old(self).flows@,
            final(self).config == old(self).config,
            final(self).classifier == old(self).classifier,
            final(self).allocator == old(self).allocator,
            final(self).routes == old(self).routes,
            final(self).bytes_received == 0,
            final(self).bytes_sent == 0,
    {
        self.supervisor.confirm_started(pid);
        self.running = true;
        self.device_open = true;
        self.bytes_received = 0;
        self.bytes_sent = 0;
    }
}

/// The live resources of a session: the supervised process and the
/// device.
#[derive(Clone, Copy, Debug, PartialEq, Eq, Structural)]
pub struct SessionModel {
    pub process: Option<u32>,
    pub device: bool,
}

/// The session resources an engine currently holds.
pub open spec fn spec_session(e: Engine) -> SessionModel {
    SessionModel {
        process: match e.supervisor.handle {
            Some(h) => Some(h.pid),
            None => None,
        },
        device: e.device_open,
    }
}

/// How many process handles a session holds: never more than one by
/// construction.
pub open spec fn spec_live_processes(s: SessionModel) -> int {
    if s.process is Some {
        1
    } else {
        0
    }
}

/// A completed start: the session holds the new process and the open
/// device, and surrenders the previous process for termination.
pub open spec fn spec_start_session(s: SessionModel, pid: u32) -> (SessionModel, Option<u32>) {
    (SessionModel { process: Some(pid), device: true }, s.process)
}

/// Law: starting twice in succession leaves exactly one live process
/// handle and one live device — the second start's session — and the
/// second start surrenders exactly the first start's process for
/// termination.
pub proof fn lemma_second_start_supersedes(s: SessionModel, pid1: u32, pid2: u32)
    ensures
        ({
            let (s1, k1) = spec_start_session(s, pid1);
            let (s2, k2) = spec_start_session(s1, pid2);
            &&& s2.process == Some(pid2)
            &&& s2.device
            &&& spec_live_processes(s2) == 1
            &&& k2 == Some(pid1)
        }),
{
}

} // verus!
