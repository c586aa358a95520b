//! The SOCKS5 relay: wire messages of the handshake and CONNECT
//! exchange, and the per-flow state machine
//! Connecting → Handshaking → Connected → Relaying → Closed.
//!
//! The machine only decides; the platform layer opens the stream,
//! performs each returned action and feeds the next event back in.
//! A handshake or connect failure falls back to a direct connection
//! for that flow (fail-open), never surfacing as a connection reset.

use vstd::prelude::*;
use crate::net::{octet0, octet1, octet2, octet3, spec_octet0, spec_octet1, spec_octet2,
    spec_octet3};
use crate::packet::{FlowKey, encode_response, spec_encode_response, spec_hi8, spec_lo8};

verus! {

/// The method-negotiation request: version 5, one method, no-auth.
pub open spec fn spec_handshake_request() -> Seq<u8> {
    seq![5u8, 1u8, 0u8]
}

/// Builds the method-negotiation request.
pub fn handshake_request() -> (r: Vec<u8>)
    ensures
        r@ == spec_handshake_request(),
{
    let mut r: Vec<u8> = Vec::new();
    r.push(5u8);
    r.push(1u8);
    r.push(0u8);
    proof {
        assert(r@ =~= spec_handshake_request());
    }
    r
}

/// The CONNECT request for an IPv4 destination: version 5, command 1,
/// reserved 0, address type 1, the four address octets, the port in
/// big-endian.
pub open spec fn spec_connect_request(dst_ip: u32, dst_port: u16) -> Seq<u8> {
    seq![
        5u8,
        1u8,
        0u8,
        1u8,
        spec_octet0(dst_ip) as u8,
        spec_octet1(dst_ip) as u8,
        spec_octet2(dst_ip) as u8,
        spec_octet3(dst_ip) as u8,
        spec_hi8(dst_port),
        spec_lo8(dst_port),
    ]
}

/// Builds the CONNECT request for an IPv4 destination.
pub fn connect_request(dst_ip: u32, dst_port: u16) -> (r: Vec<u8>)
    ensures
        r@ == spec_connect_request(dst_ip, dst_port),
{
    let mut r: Vec<u8> = Vec::new();
    r.push(5u8);
    r.push(1u8);
    r.push(0u8);
    r.push(1u8);
    r.push(octet0(dst_ip) as u8);
    r.push(octet1(dst_ip) as u8);
    r.push(octet2(dst_ip) as u8);
    r.push(octet3(dst_ip) as u8);
    r.push((dst_port / 0x100) as u8);
    r.push((dst_port % 0x100) as u8);
    proof {
        assert(r@ =~= spec_connect_request(dst_ip, dst_port));
    }
    r
}

/// A SOCKS5 UDP datagram for an IPv4 destination: reserved zeros, no
/// fragmentation, address type 1, the four address octets, the port in
/// big-endian, then the payload.
pub open spec fn spec_udp_datagram(dst_ip: u32, dst_port: u16, payload: Seq<u8>) -> Seq<u8> {
    seq![
        0u8,
        0u8,
        0u8,
        1u8,
        spec_octet0(dst_ip) as u8,
        spec_octet1(dst_ip) as u8,
        spec_octet2(dst_ip) as u8,
        spec_octet3(dst_ip) as u8,
        spec_hi8(dst_port),
        spec_lo8(dst_port),
    ] + payload
}

/// Builds the SOCKS5 UDP datagram carrying `payload` toward an IPv4
/// destination.
pub fn udp_datagram(dst_ip: u32, dst_port: u16, payload: &Vec<u8>) -> (r: Vec<u8>)
    ensures
        r@ == spec_udp_datagram(dst_ip, dst_port, payload@),
{
    let mut r: Vec<u8> = Vec::new();
    r.push(0u8);
    r.push(0u8);
    r.push(0u8);
    r.push(1u8);
    r.push(octet0(dst_ip) as u8);
    r.push(octet1(dst_ip) as u8);
    r.push(octet2(dst_ip) as u8);
    r.push(octet3(dst_ip) as u8);
    r.push((dst_port / 0x100) as u8);
    r.push((dst_port % 0x100) as u8);
    crate::bytes::append_bytes(&mut r, payload);
    proof {
        assert(r@ =~= spec_udp_datagram(dst_ip, dst_port, payload@));
    }
    r
}

/// A server's method reply accepts the no-auth method exactly when it
/// is the two bytes `[5, 0]`.
pub open spec fn spec_handshake_reply_ok(b: Seq<u8>) -> bool {
    b.len() == 2 && b[0] == 5 && b[1] == 0
}

/// Checks a method reply.
pub fn handshake_reply_ok(b: &Vec<u8>) -> (r: bool)
    ensures
        r == spec_handshake_reply_ok(b@),
{
    b.len() == 2 && b[0] == 5 && b[1] == 0
}

/// A CONNECT reply reports success exactly when it is ten bytes long
/// and its second byte is zero.
pub open spec fn spec_connect_reply_ok(b: Seq<u8>) -> bool {
    b.len() == 10 && b[1] == 0
}

/// Checks a CONNECT reply.
pub fn connect_reply_ok(b: &Vec<u8>) -> (r: bool)
    ensures
        r == spec_connect_reply_ok(b@),
{
    b.len() == 10 && b[1] == 0
}

/// The phases a flow's relay passes through.
#[derive(Clone, Copy, Debug, PartialEq, Eq, Structural)]
pub enum RelayPhase {
    /// Opening the TCP stream to the proxy endpoint.
    Connecting,
    /// Method request sent, waiting for the method reply.
    Handshaking,
    /// CONNECT sent, waiting for the CONNECT reply.
    Connected,
    /// Bytes flow in both directions.
    Relaying,
    /// Resources released; the flow is done.
    Closed,
}

/// What the platform layer observed for a flow.
pub enum RelayEvent {
    /// The stream to the proxy endpoint is open.
    StreamOpened,
    /// The stream to the proxy endpoint could not be opened.
    StreamOpenFailed,
    /// The server's method reply.
    HandshakeReply(Vec<u8>),
    /// The server's CONNECT reply.
    ConnectReply(Vec<u8>),
    /// Payload of an inbound packet of this flow, headed for the
    /// remote peer.
    InboundPayload(Vec<u8>),
    /// Bytes the proxy stream delivered, headed back into the virtual
    /// interface.
    StreamData(Vec<u8>),
    /// The stream reached end of file or failed.
    StreamClosed,
    /// The engine is tearing the flow down.
    Teardown,
}

/// The model of an event, payloads as byte sequences.
pub enum RelayEventModel {
    StreamOpened,
    StreamOpenFailed,
    HandshakeReply(Seq<u8>),
    ConnectReply(Seq<u8>),
    InboundPayload(Seq<u8>),
    StreamData(Seq<u8>),
    StreamClosed,
    Teardown,
}

impl View for RelayEvent {
    type V = RelayEventModel;

    open spec fn view(&self) -> RelayEventModel {
        match self {
            RelayEvent::StreamOpened => RelayEventModel::StreamOpened,
            RelayEvent::StreamOpenFailed => RelayEventModel::StreamOpenFailed,
            RelayEvent::HandshakeReply(b) => RelayEventModel::HandshakeReply(b@),
            RelayEvent::ConnectReply(b) => RelayEventModel::ConnectReply(b@),
            RelayEvent::InboundPayload(b) => RelayEventModel::InboundPayload(b@),
            RelayEvent::StreamData(b) => RelayEventModel::StreamData(b@),
            RelayEvent::StreamClosed => RelayEventModel::StreamClosed,
            RelayEvent::Teardown => RelayEventModel::Teardown,
        }
    }
}

/// What the platform layer must do next for a flow.
pub enum RelayAction {
    /// Write these bytes to the proxy stream.
    SendToStream(Vec<u8>),
    /// Write this response packet into the virtual interface.
    WriteBack(Vec<u8>),
    /// Abandon the SOCKS5 path and try a direct connection for this
    /// flow.
    FallbackDirect,
    /// Close the proxy stream and release the flow's resources.
    CloseStream,
    /// Nothing to do.
    DoNothing,
}

/// The model of an action, payloads as byte sequences.
pub enum RelayActionModel {
    SendToStream(Seq<u8>),
    WriteBack(Seq<u8>),
    FallbackDirect,
    CloseStream,
    DoNothing,
}

impl View for RelayAction {
    type V = RelayActionModel;

    open spec fn view(&self) -> RelayActionModel {
        match self {
            RelayAction::SendToStream(b) => RelayActionModel::SendToStream(b@),
            RelayAction::WriteBack(b) => RelayActionModel::WriteBack(b@),
            RelayAction::FallbackDirect => RelayActionModel::FallbackDirect,
            RelayAction::CloseStream => RelayActionModel::CloseStream,
            RelayAction::DoNothing => RelayActionModel::DoNothing,
        }
    }
}

/// The transition relation of the relay: from phase and event to the
/// next phase and the action to perform. Stream data written back into
/// the virtual interface is framed by the packet codec with source and
/// destination swapped relative to the flow. A teardown closes the
/// flow from any phase; events that make no sense in the current phase
/// change nothing.
pub open spec fn spec_relay_step(phase: RelayPhase, flow: FlowKey, ev: RelayEventModel) -> (
    RelayPhase,
    RelayActionModel,
) {
    match (phase, ev) {
        (RelayPhase::Connecting, RelayEventModel::StreamOpened) => (
            RelayPhase::Handshaking,
            RelayActionModel::SendToStream(spec_handshake_request()),
        ),
        (RelayPhase::Connecting, RelayEventModel::StreamOpenFailed) => (
            RelayPhase::Closed,
            RelayActionModel::FallbackDirect,
        ),
        (RelayPhase::Handshaking, RelayEventModel::HandshakeReply(b)) => if spec_handshake_reply_ok(
            b,
        ) {
            (
                RelayPhase::Connected,
                RelayActionModel::SendToStream(spec_connect_request(flow.dst_ip, flow.dst_port)),
            )
        } else {
            (RelayPhase::Closed, RelayActionModel::FallbackDirect)
        },
        (RelayPhase::Connected, RelayEventModel::ConnectReply(b)) => if spec_connect_reply_ok(b) {
            (RelayPhase::Relaying, RelayActionModel::DoNothing)
        } else {
            (RelayPhase::Closed, RelayActionModel::FallbackDirect)
        },
        (RelayPhase::Relaying, RelayEventModel::InboundPayload(p)) => (
            RelayPhase::Relaying,
            RelayActionModel::SendToStream(p),
        ),
        (RelayPhase::Relaying, RelayEventModel::StreamData(d)) => (
            RelayPhase::Relaying,
            RelayActionModel::WriteBack(
                spec_encode_response(
                    flow.dst_ip,
                    flow.dst_port,
                    flow.src_ip,
                    flow.src_port,
                    d,
                    flow.protocol,
                ),
            ),
        ),
        (RelayPhase::Relaying, RelayEventModel::StreamClosed) => (
            RelayPhase::Closed,
            RelayActionModel::CloseStream,
        ),
        (_, RelayEventModel::Teardown) => (RelayPhase::Closed, RelayActionModel::CloseStream),
        (p, _) => (p, RelayActionModel::DoNothing),
    }
}

/// One flow's relay: its identity and its current phase.
pub struct Socks5Relay {
    pub flow: FlowKey,
    pub phase: RelayPhase,
}

impl Socks5Relay {
    /// A fresh relay for a flow, about to open its stream.
    pub fn new(flow: FlowKey) -> (r: Socks5Relay)
        ensures
            r.flow == flow,
            r.phase == RelayPhase::Connecting,
    {
        Socks5Relay { flow, phase: RelayPhase::Connecting }
    }

    /// Feeds one event in and returns the action to perform, following
    /// `spec_relay_step` exactly.
    pub fn step(&mut self, event: RelayEvent) -> (action: RelayAction)
        requires
            old(self).phase is Relaying ==> (event@ matches RelayEventModel::StreamData(d) ==> d.len()
                + 40 <= 65535),
        ensures
            final(self).flow == old(self).flow,
            (final(self).phase, action@) == spec_relay_step(
                old(self).phase,
                old(self).flow,
                event@,
            ),
    {
        match event {
            RelayEvent::StreamOpened => {
                if let RelayPhase::Connecting = self.phase {
                    self.phase = RelayPhase::Handshaking;
                    RelayAction::SendToStream(handshake_request())
                } else {
                    RelayAction::DoNothing
                }
            },
            RelayEvent::StreamOpenFailed => {
                if let RelayPhase::Connecting = self.phase {
                    self.phase = RelayPhase::Closed;
                    RelayAction::FallbackDirect
                } else {
                    RelayAction::DoNothing
                }
            },
            RelayEvent::HandshakeReply(b) => {
                if let RelayPhase::Handshaking = self.phase {
                    if handshake_reply_ok(&b) {
                        self.phase = RelayPhase::Connected;
                        RelayAction::SendToStream(
                            connect_request(self.flow.dst_ip, self.flow.dst_port),
                        )
                    } else {
                        self.phase = RelayPhase::Closed;
                        RelayAction::FallbackDirect
                    }
                } else {
                    RelayAction::DoNothing
                }
            },
            RelayEvent::ConnectReply(b) => {
                if let RelayPhase::Connected = self.phase {
                    if connect_reply_ok(&b) {
                        self.phase = RelayPhase::Relaying;
                        RelayAction::DoNothing
                    } else {
                        self.phase = RelayPhase::Closed;
                        RelayAction::FallbackDirect
                    }
                } else {
                    RelayAction::DoNothing
                }
            },
            RelayEvent::InboundPayload(p) => {
                if let RelayPhase::Relaying = self.phase {
                    RelayAction::SendToStream(p)
                } else {
                    RelayAction::DoNothing
                }
            },
            RelayEvent::StreamData(d) => {
                if let RelayPhase::Relaying = self.phase {
                    let packet = encode_response(
                        self.flow.dst_ip,
                        self.flow.dst_port,
                        self.flow.src_ip,
                        self.flow.src_port,
                        &d,
                        self.flow.protocol,
                    );
                    RelayAction::WriteBack(packet)
                } else {
                    RelayAction::DoNothing
                }
            },
            RelayEvent::StreamClosed => {
                if let RelayPhase::Relaying = self.phase {
                    self.phase = RelayPhase::Closed;
                    RelayAction::CloseStream
                } else {
                    RelayAction::DoNothing
                }
            },
            RelayEvent::Teardown => {
                self.phase = RelayPhase::Closed;
                RelayAction::CloseStream
            },
        }
    }
}

} // verus!
