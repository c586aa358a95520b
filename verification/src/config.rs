//! Configuration: the virtual-interface settings the engine runs with,
//! and the persisted application settings consumed from the GUI layer.
//! Reading and writing the configuration file is platform work; this
//! module owns the values and their defaults.

use vstd::prelude::*;
use std::collections::HashMap;
use crate::net::{Cidr, ipv4};

verus! {

/// Default routing-rule kind.
pub fn default_rule_type() -> (r: String)
    ensures
        r@ == "field"@,
{
    String::from_str("field")
}

/// Default domain strategy of the routing configuration.
pub fn default_domain_strategy() -> (r: String)
    ensures
        r@ == "AsIs"@,
{
    String::from_str("AsIs")
}

/// Default theme color of the application.
pub fn default_theme_color() -> (r: String)
    ensures
        r@ == "green"@,
{
    String::from_str("green")
}

/// Default inbound authentication method.
pub fn default_auth_method() -> (r: String)
    ensures
        r@ == "noauth"@,
{
    String::from_str("noauth")
}

/// Default DNS server consulted for hijacked queries.
pub fn default_dns_server() -> (r: String)
    ensures
        r@ == "8.8.8.8"@,
{
    String::from_str("8.8.8.8")
}

/// One routing rule of the outbound configuration.
#[derive(Debug, Clone)]
pub struct RoutingRule {
    pub rule_type: String,
    pub ip: Option<Vec<String>>,
    pub domain: Option<Vec<String>>,
    pub outbound_tag: String,
}

/// The routing section of the outbound configuration.
#[derive(Debug, Clone)]
pub struct RoutingConfig {
    pub domain_strategy: String,
    pub rules: Vec<RoutingRule>,
}

/// The default routing configuration: keep domains as they are, and
/// send private addresses to the direct outbound.
pub open spec fn spec_is_default_routing_config(c: RoutingConfig) -> bool {
    &&& c.domain_strategy@ == "AsIs"@
    &&& c.rules@.len() == 1
    &&& c.rules@[0].rule_type@ == "field"@
    &&& c.rules@[0].ip matches Some(ips) && ips@.len() == 1 && ips@[0]@ == "geoip:private"@
    &&& c.rules@[0].domain is None
    &&& c.rules@[0].outbound_tag@ == "direct"@
}

impl Default for RoutingConfig {
    fn default() -> (c: RoutingConfig)
        ensures
            spec_is_default_routing_config(c),
    {
        let mut ips: Vec<String> = Vec::new();
        ips.push(String::from_str("geoip:private"));
        let mut rules: Vec<RoutingRule> = Vec::new();
        rules.push(
            RoutingRule {
                rule_type: String::from_str("field"),
                ip: Some(ips),
                domain: None,
                outbound_tag: String::from_str("direct"),
            },
        );
        RoutingConfig { domain_strategy: String::from_str("AsIs"), rules }
    }
}

/// The connection settings of one server entry.
#[derive(Debug, Clone)]
pub struct ServerConfig {
    pub protocol: String,
    pub address: String,
    pub port: u16,
    pub uuid: Option<String>,
    pub password: Option<String>,
    pub method: Option<String>,
    pub network: Option<String>,
    pub security: Option<String>,
    pub sni: Option<String>,
    pub alpn: Option<Vec<String>>,
    pub path: Option<String>,
    pub host: Option<String>,
    pub headers: Option<HashMap<String, String>>,
}

/// The virtual-interface configuration. Immutable while a session
/// runs: changing it requires stop, reconfigure, start.
#[derive(Debug, Clone)]
pub struct TunConfig {
    /// Name of the virtual interface.
    pub name: String,
    /// Address of the interface.
    pub address: u32,
    /// Netmask of the interface.
    pub netmask: u32,
    /// Gateway the split default route points at.
    pub gateway: u32,
    /// Maximum transmission unit.
    pub mtu: u16,
    /// Whether the TUN mode is enabled at all.
    pub enabled: bool,
    /// DNS server that hijacked queries are relayed to.
    pub dns_server: u32,
    /// Whether DNS queries are hijacked and relayed to `dns_server`.
    pub dns_hijack: bool,
    /// Whether DNS answers are synthesized from the FakeIP pool.
    pub fake_ip: bool,
    /// First address of the FakeIP pool.
    pub fake_ip_start: u32,
    /// Last address of the FakeIP pool.
    pub fake_ip_end: u32,
    /// Destinations never sent through the proxy.
    pub bypass: Vec<Cidr>,
}

/// The default interface configuration: a /30 around 192.168.55.1,
/// MTU 1500, DNS 8.8.8.8, FakeIP pool 198.18.0.1 – 198.18.255.254,
/// everything off.
pub open spec fn spec_is_default_tun_config(c: TunConfig) -> bool {
    &&& c.name@ == "ruray-tun"@
    &&& c.address == ipv4(192, 168, 55, 1)
    &&& c.netmask == ipv4(255, 255, 255, 252)
    &&& c.gateway == ipv4(192, 168, 55, 1)
    &&& c.mtu == 1500
    &&& !c.enabled
    &&& c.dns_server == ipv4(8, 8, 8, 8)
    &&& !c.dns_hijack
    &&& !c.fake_ip
    &&& c.fake_ip_start == ipv4(198, 18, 0, 1)
    &&& c.fake_ip_end == ipv4(198, 18, 255, 254)
    &&& c.bypass@.len() == 0
}

impl TunConfig {
    /// The FakeIP pool bounds are a real range.
    pub open spec fn wf(self) -> bool {
        &&& self.fake_ip_start <= self.fake_ip_end
        &&& forall|i: int| 0 <= i < self.bypass@.len() ==> (#[trigger] self.bypass@[i]).wf()
    }
}

impl Default for TunConfig {
    fn default() -> (c: TunConfig)
        ensures
            spec_is_default_tun_config(c),
            c.wf(),
    {
        TunConfig {
            name: String::from_str("ruray-tun"),
            address: ipv4(192, 168, 55, 1),
            netmask: ipv4(255, 255, 255, 252),
            gateway: ipv4(192, 168, 55, 1),
            mtu: 1500,
            enabled: false,
            dns_server: ipv4(8, 8, 8, 8),
            dns_hijack: false,
            fake_ip: false,
            fake_ip_start: ipv4(198, 18, 0, 1),
            fake_ip_end: ipv4(198, 18, 255, 254),
            bypass: Vec::new(),
        }
    }
}

/// The persisted application settings.
#[derive(Debug, Clone)]
pub struct AppConfig {
    pub version: String,
    pub servers: Vec<ServerConfig>,
    pub current_server: Option<String>,
    pub proxy_mode: String,
    pub auto_start: bool,
    pub minimize_to_tray: bool,
    pub start_minimized: bool,
    pub theme: String,
    pub theme_color: String,
    pub language: String,
    pub log_level: String,
    pub log_path: String,
    pub http_port: u16,
    pub socks_port: u16,
    pub pac_port: u16,
    pub inbound_sniffing_enabled: bool,
    pub inbound_udp_enabled: bool,
    pub inbound_auth_method: String,
    pub inbound_allow_transparent: bool,
    pub xray_path: Option<String>,
    pub routing_config: RoutingConfig,
    pub tun_config: TunConfig,
    pub tun_enabled: bool,
    pub created_at: String,
    pub updated_at: String,
}

/// The default application settings.
pub open spec fn spec_is_default_app_config(c: AppConfig) -> bool {
    &&& c.version@ == "1.0.0"@
    &&& c.servers@.len() == 0
    &&& c.current_server is None
    &&& c.proxy_mode@ == "pac"@
    &&& !c.auto_start
    &&& c.minimize_to_tray
    &&& !c.start_minimized
    &&& c.theme@ == "dark"@
    &&& c.theme_color@ == "green"@
    &&& c.language@ == "zh-CN"@
    &&& c.log_level@ == "info"@
    &&& c.log_path@ == "./log/ruray.log"@
    &&& c.http_port == 10086
    &&& c.socks_port == 10087
    &&& c.pac_port == 8090
    &&& !c.inbound_sniffing_enabled
    &&& !c.inbound_udp_enabled
    &&& c.inbound_auth_method@ == "noauth"@
    &&& !c.inbound_allow_transparent
    &&& c.xray_path is None
    &&& spec_is_default_routing_config(c.routing_config)
    &&& spec_is_default_tun_config(c.tun_config)
    &&& !c.tun_enabled
    &&& c.created_at@.len() == 0
    &&& c.updated_at@.len() == 0
}

impl Default for AppConfig {
    fn default() -> (c: AppConfig)
        ensures
            spec_is_default_app_config(c),
    {
        AppConfig {
            version: String::from_str("1.0.0"),
            servers: Vec::new(),
            current_server: None,
            proxy_mode: String::from_str("pac"),
            auto_start: false,
            minimize_to_tray: true,
            start_minimized: false,
            theme: String::from_str("dark"),
            theme_color: String::from_str("green"),
            language: String::from_str("zh-CN"),
            log_level: String::from_str("info"),
            log_path: String::from_str("./log/ruray.log"),
            http_port: 10086,
            socks_port: 10087,
            pac_port: 8090,
            inbound_sniffing_enabled: false,
            inbound_udp_enabled: false,
            inbound_auth_method: String::from_str("noauth"),
            inbound_allow_transparent: false,
            xray_path: None,
            routing_config: RoutingConfig::default(),
            tun_config: TunConfig::default(),
            tun_enabled: false,
            created_at: String::new(),
            updated_at: String::new(),
        }
    }
}

/// Settles the configuration the application starts with: the stored
/// settings when the platform layer found and parsed any, the defaults
/// otherwise.
pub fn init_app_config(stored: Option<AppConfig>) -> (c: AppConfig)
    ensures
        match stored {
            Some(s) => c == s,
            None => spec_is_default_app_config(c),
        },
{
    match stored {
        Some(s) => s,
        None => AppConfig::default(),
    }
}

} // verus!
