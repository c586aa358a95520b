use ruray::config::TunConfig;
use ruray::engine::{Engine, PacketAction, ProcessHandle};
use ruray::net::ipv4;
use ruray::packet::{Protocol, decode};
use ruray::routes::{Route, plan_enable, apply_route_ops, route_table_add};

fn engine_config(fake_ip: bool, dns_hijack: bool) -> TunConfig {
    let mut cfg = TunConfig::default();
    cfg.fake_ip = fake_ip;
    cfg.dns_hijack = dns_hijack;
    cfg.dns_server = ipv4(1, 1, 1, 1);
    cfg
}

fn tcp_packet_to(dst: [u8; 4], dst_port: u16) -> Vec<u8> {
    let mut b = vec![
        0x45u8, 0, 0, 40, 0, 0, 0, 0, 64, 6, 0, 0, 192, 168, 55, 2, dst[0], dst[1], dst[2], dst[3],
    ];
    b.extend_from_slice(&[0xC3, 0x50, (dst_port >> 8) as u8, (dst_port & 0xFF) as u8]); // src 50000
    b.extend_from_slice(&[0; 8]);
    b.extend_from_slice(&[0x50, 0x18, 0xFF, 0xFF, 0, 0, 0, 0]);
    b
}

fn udp_dns_packet(dst: [u8; 4], dns: &[u8]) -> Vec<u8> {
    let total = 28 + dns.len();
    let mut b = vec![
        0x45u8,
        0,
        (total >> 8) as u8,
        (total & 0xFF) as u8,
        0,
        0,
        0,
        0,
        64,
        17,
        0,
        0,
        192,
        168,
        55,
        2,
        dst[0],
        dst[1],
        dst[2],
        dst[3],
    ];
    let udp_len = 8 + dns.len();
    b.extend_from_slice(&[0x9C, 0x40, 0, 53]); // src 40000, dst 53
    b.extend_from_slice(&[(udp_len >> 8) as u8, (udp_len & 0xFF) as u8, 0, 0]);
    b.extend_from_slice(dns);
    b
}

fn query_for(id: [u8; 2], name: &[&str]) -> Vec<u8> {
    let mut b = vec![id[0], id[1], 0x01, 0x00, 0, 1, 0, 0, 0, 0, 0, 0];
    for label in name {
        b.push(label.len() as u8);
        b.extend_from_slice(label.as_bytes());
    }
    b.push(0);
    b.extend_from_slice(&[0, 1, 0, 1]);
    b
}

fn install_routes(e: &mut Engine, table: &mut Vec<Route>) {
    let plan = plan_enable(
        ipv4(192, 168, 55, 1),
        ipv4(192, 168, 1, 1),
        ipv4(203, 0, 113, 9),
        &vec![ipv4(8, 8, 8, 8)],
        false,
    );
    e.routes.begin_enable(table.clone(), plan);
    while let Some(r) = e.routes.next_add() {
        route_table_add(table, r);
        e.routes.add_succeeded();
    }
}

#[test]
fn starting_twice_leaves_exactly_one_process_and_device() {
    let mut e = Engine::new(engine_config(false, false));
    let mut table: Vec<Route> = Vec::new();

    let plan1 = e.begin_start(true, true).unwrap();
    assert_eq!(plan1.terminate, None);
    install_routes(&mut e, &mut table);
    e.confirm_started(41);
    assert_eq!(e.supervisor.handle, Some(ProcessHandle { pid: 41 }));
    assert!(e.running && e.device_open);

    // The second start supersedes the first: its plan terminates the
    // first process, and afterwards exactly the new session is live.
    let plan2 = e.begin_start(true, true).unwrap();
    assert_eq!(plan2.terminate, Some(ProcessHandle { pid: 41 }));
    assert_eq!(e.supervisor.handle, None);
    apply_route_ops(&mut table, &plan2.route_ops);
    install_routes(&mut e, &mut table);
    e.confirm_started(42);
    assert_eq!(e.supervisor.handle, Some(ProcessHandle { pid: 42 }));
    assert!(e.running && e.device_open);
}

#[test]
fn start_without_elevation_fails_fast() {
    let mut e = Engine::new(engine_config(false, false));
    let r = e.begin_start(false, true);
    assert_eq!(r.unwrap_err(), ruray::errors::EngineError::Privilege);
    assert!(!e.running);
}

#[test]
fn start_without_proxy_endpoint_fails_fast() {
    let mut e = Engine::new(engine_config(false, false));
    let r = e.begin_start(true, false);
    assert_eq!(r.unwrap_err(), ruray::errors::EngineError::ProxyUnavailable);
    assert!(!e.running);
}

#[test]
fn stop_with_three_live_flows_empties_the_table_and_restores_routes() {
    let mut e = Engine::new(engine_config(false, false));
    let mut table: Vec<Route> = vec![Route { dest: 0, prefix: 0, gateway: ipv4(192, 168, 1, 1) }];
    let before = table.clone();

    e.begin_start(true, true).unwrap();
    install_routes(&mut e, &mut table);
    e.confirm_started(7);

    for (dst, port) in [([93, 184, 216, 34], 443u16), ([151, 101, 1, 140], 80), ([104, 16, 0, 1], 8443)] {
        match e.handle_packet(&tcp_packet_to(dst, port)) {
            PacketAction::OpenFlow(_, _) => {}
            _ => panic!("first packet of a proxied flow opens it"),
        }
    }
    assert_eq!(e.flows.len(), 3);

    let plan = e.stop();
    assert_eq!(e.flows.len(), 0);
    assert!(!e.running && !e.device_open);
    assert_eq!(plan.terminate, Some(ProcessHandle { pid: 7 }));
    apply_route_ops(&mut table, &plan.route_ops);
    assert_eq!(table.len(), before.len());
    assert!(table.iter().all(|r| before.contains(r)));
}

#[test]
fn second_packet_of_a_flow_forwards_to_its_relay() {
    let mut e = Engine::new(engine_config(false, false));
    e.set_proxy_health(true);
    let pkt = tcp_packet_to([93, 184, 216, 34], 443);
    match e.handle_packet(&pkt) {
        PacketAction::OpenFlow(_, _) => {}
        _ => panic!("first packet opens the flow"),
    }
    match e.handle_packet(&pkt) {
        PacketAction::ForwardExisting(k, _) => {
            assert_eq!(k.dst_ip, ipv4(93, 184, 216, 34));
            assert_eq!(k.dst_port, 443);
        }
        _ => panic!("second packet feeds the existing flow"),
    }
    assert_eq!(e.flows.len(), 1);
}

#[test]
fn unhealthy_proxy_gives_direct_flows() {
    let mut e = Engine::new(engine_config(false, false));
    e.set_proxy_health(false);
    match e.handle_packet(&tcp_packet_to([93, 184, 216, 34], 80)) {
        PacketAction::DirectFlow(k, _) => {
            assert_eq!(k.dst_ip, ipv4(93, 184, 216, 34));
        }
        _ => panic!("with the proxy unhealthy the flow falls back to direct"),
    }
    assert_eq!(e.flows.len(), 0);
}

#[test]
fn private_destination_is_not_proxied_by_the_engine() {
    let mut e = Engine::new(engine_config(false, false));
    e.set_proxy_health(true);
    match e.handle_packet(&tcp_packet_to([192, 168, 1, 5], 443)) {
        PacketAction::DirectFlow(_, _) => {}
        _ => panic!("private destinations bypass the proxy"),
    }
}

#[test]
fn malformed_packets_are_silently_dropped() {
    let mut e = Engine::new(engine_config(false, false));
    match e.handle_packet(&vec![0u8; 10]) {
        PacketAction::Drop => {}
        _ => panic!("short packets are dropped"),
    }
}

#[test]
fn dns_hijack_relays_to_the_configured_resolver_preserving_the_id() {
    let mut e = Engine::new(engine_config(false, true));
    e.set_proxy_health(true);
    let query = query_for([0xBE, 0xEF], &["example", "com"]);
    let pkt = udp_dns_packet([8, 8, 8, 8], &query);
    let (resolver, payload) = match e.handle_packet(&pkt) {
        PacketAction::RelayDns(ip, b) => (ip, b),
        _ => panic!("a hijacked DNS query is relayed"),
    };
    assert_eq!(resolver, ipv4(1, 1, 1, 1));
    assert_eq!(payload, query);

    // The resolver's answer keeps the query's transaction ID; framed
    // and written back, the ID survives byte for byte.
    let mut answer = payload.clone();
    answer[2] |= 0x80;
    let back = ruray::packet::encode_response(
        ipv4(8, 8, 8, 8),
        53,
        ipv4(192, 168, 55, 2),
        40000,
        &answer,
        Protocol::Udp,
    );
    let p = decode(&back).unwrap();
    assert_eq!(&p.payload[0..2], &[0xBE, 0xEF]);
}

#[test]
fn fake_ip_answers_the_first_query_from_the_pool_start() {
    let mut e = Engine::new(engine_config(true, false));
    let query = query_for([0x12, 0x34], &["example", "com"]);
    let pkt = udp_dns_packet([8, 8, 8, 8], &query);
    let answer_packet = match e.handle_packet(&pkt) {
        PacketAction::AnswerDns(b) => b,
        _ => panic!("with FakeIP on, DNS queries are answered locally"),
    };
    let p = decode(&answer_packet).unwrap();
    assert_eq!(p.protocol, Protocol::Udp);
    assert_eq!(p.src_ip, ipv4(8, 8, 8, 8));
    assert_eq!(p.src_port, 53);
    assert_eq!(p.dst_ip, ipv4(192, 168, 55, 2));
    assert_eq!(p.dst_port, 40000);
    // The synthesized answer carries the pool's first address and the
    // query's transaction ID.
    assert_eq!(&p.payload[0..2], &[0x12, 0x34]);
    assert_eq!(&p.payload[p.payload.len() - 4..], &[198, 18, 0, 1]);
    // The mapping is recorded both ways.
    assert_eq!(e.allocator.domain_of(ipv4(198, 18, 0, 1)), Some(b"example.com".to_vec()));
}

#[test]
fn byte_counters_saturate_and_reset_on_start() {
    let mut e = Engine::new(engine_config(false, false));
    e.note_received(100);
    e.note_received(u64::MAX);
    assert_eq!(e.bytes_received, u64::MAX);
    e.note_sent(7);
    assert_eq!(e.bytes_sent, 7);
    let mut table: Vec<Route> = Vec::new();
    e.begin_start(true, true).unwrap();
    install_routes(&mut e, &mut table);
    e.confirm_started(1);
    assert_eq!(e.bytes_received, 0);
    assert_eq!(e.bytes_sent, 0);
}

#[test]
fn reconfigure_replaces_pool_and_bypass_of_a_stopped_engine() {
    let mut e = Engine::new(engine_config(true, false));
    e.set_proxy_health(true);
    let query = query_for([1, 1], &["a", "com"]);
    e.handle_packet(&udp_dns_packet([8, 8, 8, 8], &query));
    assert!(e.allocator.domain_of(ipv4(198, 18, 0, 1)).is_some());

    let mut cfg = engine_config(true, false);
    cfg.fake_ip_start = ipv4(10, 99, 0, 1);
    cfg.fake_ip_end = ipv4(10, 99, 0, 10);
    cfg.bypass = vec![ruray::net::Cidr { addr: ipv4(100, 64, 0, 0), prefix: 10 }];
    e.reconfigure(cfg);
    // The allocator starts afresh over the new pool; the health flag
    // survives; the new bypass list applies.
    assert!(e.allocator.domain_of(ipv4(198, 18, 0, 1)).is_none());
    let answer = match e.handle_packet(&udp_dns_packet([8, 8, 8, 8], &query)) {
        PacketAction::AnswerDns(b) => b,
        _ => panic!("FakeIP still answers after reconfiguration"),
    };
    let p = decode(&answer).unwrap();
    assert_eq!(&p.payload[p.payload.len() - 4..], &[10, 99, 0, 1]);
    match e.handle_packet(&tcp_packet_to([100, 64, 1, 2], 443)) {
        PacketAction::DirectFlow(_, _) => {}
        _ => panic!("the new bypass list must apply"),
    }
}

#[test]
fn remove_flow_drops_only_that_flow() {
    let mut e = Engine::new(engine_config(false, false));
    e.set_proxy_health(true);
    let a = tcp_packet_to([93, 184, 216, 34], 443);
    let b = tcp_packet_to([151, 101, 1, 140], 80);
    e.handle_packet(&a);
    e.handle_packet(&b);
    assert_eq!(e.flows.len(), 2);
    let key = match decode(&a) {
        Some(p) => ruray::packet::FlowKey {
            src_ip: p.src_ip,
            src_port: p.src_port,
            dst_ip: p.dst_ip,
            dst_port: p.dst_port,
            protocol: p.protocol,
        },
        None => unreachable!(),
    };
    e.remove_flow(key);
    assert_eq!(e.flows.len(), 1);
    assert!(!e.flow_exists(key));
}
