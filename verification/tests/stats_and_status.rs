use ruray::config::TunConfig;
use ruray::engine::Engine;
use ruray::net::ipv4;
use ruray::stats::{NetworkInterfaceStats, NetworkSpeedStats, NetworkStatsManager,
    get_network_speed, speed_per_second, sum_received, sum_sent};
use ruray::status::{ipv4_to_string, proxy_status_of};

fn iface(name: &str, sent: u64, received: u64) -> NetworkInterfaceStats {
    NetworkInterfaceStats {
        name: name.to_string(),
        bytes_sent: sent,
        bytes_received: received,
        packets_sent: 0,
        packets_received: 0,
    }
}

#[test]
fn sums_add_all_interfaces() {
    let stats = vec![iface("eth0", 100, 2000), iface("wlan0", 50, 300)];
    assert_eq!(sum_sent(&stats), 150);
    assert_eq!(sum_received(&stats), 2300);
    assert_eq!(sum_sent(&Vec::new()), 0);
}

#[test]
fn sums_saturate_instead_of_overflowing() {
    let stats = vec![iface("a", u64::MAX, u64::MAX), iface("b", 1, 5)];
    assert_eq!(sum_sent(&stats), u64::MAX);
    assert_eq!(sum_received(&stats), u64::MAX);
}

#[test]
fn speed_is_bytes_per_second() {
    assert_eq!(speed_per_second(1000, 1000), 1000);
    assert_eq!(speed_per_second(1500, 500), 3000);
    assert_eq!(speed_per_second(0, 1000), 0);
    assert_eq!(speed_per_second(1000, 0), 0);
    assert_eq!(speed_per_second(u64::MAX, 1), u64::MAX);
}

#[test]
fn manager_computes_speeds_from_successive_observations() {
    let mut m = NetworkStatsManager::new();
    m.update(1000, &vec![iface("eth0", 1000, 5000)]);
    // The first observation only sets the baseline.
    assert_eq!(get_network_speed(&m).upload_speed, 0);
    m.update(3000, &vec![iface("eth0", 5000, 15000)]);
    let s = get_network_speed(&m);
    assert_eq!(s.upload_speed, 2000); // 4000 bytes over 2 s
    assert_eq!(s.download_speed, 5000); // 10000 bytes over 2 s
    assert_eq!(s.total_upload, 4000);
    assert_eq!(s.total_download, 10000);
}

#[test]
fn manager_ignores_a_clock_that_did_not_advance() {
    let mut m = NetworkStatsManager::new();
    m.update(1000, &vec![iface("eth0", 1000, 1000)]);
    m.update(2000, &vec![iface("eth0", 2000, 2000)]);
    let before = get_network_speed(&m);
    m.update(2000, &vec![iface("eth0", 9000, 9000)]);
    assert_eq!(get_network_speed(&m), before);
}

#[test]
fn manager_reset_zeroes_the_session() {
    let mut m = NetworkStatsManager::new();
    m.update(1000, &vec![iface("eth0", 1000, 1000)]);
    m.update(2000, &vec![iface("eth0", 3000, 3000)]);
    m.reset(3000, &vec![iface("eth0", 3000, 3000)]);
    let s = get_network_speed(&m);
    assert_eq!(
        s,
        NetworkSpeedStats { upload_speed: 0, download_speed: 0, total_upload: 0, total_download: 0 }
    );
    m.update(4000, &vec![iface("eth0", 3500, 3000)]);
    assert_eq!(get_network_speed(&m).total_upload, 500);
}

#[test]
fn sample_reads_the_machine_counters() {
    let mut m = NetworkStatsManager::new();
    m.sample(1000);
    assert!(m.last.is_some());
    assert!(m.baseline.is_some());
    assert_eq!(m.last.unwrap().at_ms, 1000);
}

#[test]
fn ipv4_to_string_renders_dotted_text() {
    assert_eq!(ipv4_to_string(ipv4(192, 168, 1, 1)), "192.168.1.1");
    assert_eq!(ipv4_to_string(ipv4(0, 0, 0, 0)), "0.0.0.0");
    assert_eq!(ipv4_to_string(ipv4(255, 255, 255, 255)), "255.255.255.255");
    assert_eq!(ipv4_to_string(ipv4(8, 8, 8, 8)), "8.8.8.8");
}

#[test]
fn proxy_status_disconnected_without_process() {
    let speeds =
        NetworkSpeedStats { upload_speed: 10, download_speed: 20, total_upload: 30, total_download: 40 };
    let st = proxy_status_of(false, true, Some("srv".to_string()), "pac".to_string(), 5, speeds);
    assert!(!st.is_running);
    assert_eq!(st.status, "disconnected");
    assert_eq!(st.upload_speed, 0);
    assert_eq!(st.total_download, 0);
}

#[test]
fn proxy_status_connected_with_server_and_health() {
    let speeds =
        NetworkSpeedStats { upload_speed: 10, download_speed: 20, total_upload: 30, total_download: 40 };
    let st = proxy_status_of(true, true, Some("srv".to_string()), "global".to_string(), 99, speeds);
    assert!(st.is_running);
    assert_eq!(st.status, "connected");
    assert_eq!(st.current_server.as_deref(), Some("srv"));
    assert_eq!(st.proxy_mode, "global");
    assert_eq!(st.uptime, 99);
    assert_eq!(st.upload_speed, 10);
    assert_eq!(st.download_speed, 20);
    assert_eq!(st.total_upload, 30);
    assert_eq!(st.total_download, 40);
}

#[test]
fn proxy_status_connecting_when_unhealthy_or_serverless() {
    let speeds =
        NetworkSpeedStats { upload_speed: 0, download_speed: 0, total_upload: 0, total_download: 0 };
    let st = proxy_status_of(true, false, Some("srv".to_string()), "pac".to_string(), 1, speeds);
    assert_eq!(st.status, "connecting");
    let st2 = proxy_status_of(true, true, None, "pac".to_string(), 1, speeds);
    assert_eq!(st2.status, "connecting");
}

#[test]
fn engine_status_reports_the_session() {
    let mut cfg = TunConfig::default();
    cfg.address = ipv4(10, 9, 8, 7);
    let mut e = Engine::new(cfg);
    e.note_received(123);
    e.note_sent(45);
    let st = e.status();
    assert!(!st.is_running);
    assert_eq!(st.device_name, "ruray-tun");
    assert_eq!(st.ip_address, "10.9.8.7");
    assert_eq!(st.bytes_received, 123);
    assert_eq!(st.bytes_sent, 45);
    assert!(st.error.is_none());
    assert!(st.process_id.is_none());
}
