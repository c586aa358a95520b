//! Status reporting: the session state of the virtual interface and
//! of the proxy, as the GUI layer consumes them.

use vstd::prelude::*;
use crate::bytes::string_from_ascii;
use crate::engine::Engine;
use crate::parse::{render_ipv4, spec_render_ipv4};
use crate::stats::NetworkSpeedStats;

verus! {

/// The state of the virtual-interface session.
#[derive(Debug, Clone)]
pub struct TunStatus {
    pub is_running: bool,
    pub device_name: String,
    pub ip_address: String,
    pub bytes_received: u64,
    pub bytes_sent: u64,
    pub error: Option<String>,
    pub process_id: Option<u32>,
}

/// The state of the proxy connection.
#[derive(Debug, Clone)]
pub struct ProxyStatus {
    pub is_running: bool,
    pub status: String,
    pub current_server: Option<String>,
    pub proxy_mode: String,
    pub uptime: u64,
    pub upload_speed: u64,
    pub download_speed: u64,
    pub total_upload: u64,
    pub total_download: u64,
}

/// The characters of an address's canonical dotted text.
pub open spec fn spec_ipv4_chars(ip: u32) -> Seq<char> {
    spec_render_ipv4(ip).map(|i: int, c: u8| c as char)
}

/// Renders an address as its dotted text.
pub fn ipv4_to_string(ip: u32) -> (r: String)
    ensures
        r@ == spec_ipv4_chars(ip),
{
    let b = render_ipv4(ip);
    string_from_ascii(b)
}

/// The user-visible connection state: disconnected without a running
/// proxy process, connected with a current server and a healthy
/// process, connecting in between.
pub open spec fn spec_status_text(is_running: bool, has_server: bool, healthy: bool) -> Seq<char> {
    if !is_running {
        "disconnected"@
    } else if has_server && healthy {
        "connected"@
    } else {
        "connecting"@
    }
}

/// Builds the proxy status: the connection state from process and
/// health, and the speeds only while the proxy runs.
pub fn proxy_status_of(
    is_running: bool,
    healthy: bool,
    current_server: Option<String>,
    proxy_mode: String,
    uptime: u64,
    speeds: NetworkSpeedStats,
) -> (st: ProxyStatus)
    ensures
        st.is_running == is_running,
        st.status@ == spec_status_text(is_running, current_server is Some, healthy),
        st.current_server == current_server,
        st.proxy_mode == proxy_mode,
        st.uptime == uptime,
        st.upload_speed == if is_running {
            speeds.upload_speed
        } else {
            0u64
        },
        st.download_speed == if is_running {
            speeds.download_speed
        } else {
            0u64
        },
        st.total_upload == if is_running {
            speeds.total_upload
        } else {
            0u64
        },
        st.total_download == if is_running {
            speeds.total_download
        } else {
            0u64
        },
{
    let has_server = match &current_server {
        Some(_) => true,
        None => false,
    };
    let status = if !is_running {
        String::from_str("disconnected")
    } else if has_server && healthy {
        String::from_str("connected")
    } else {
        String::from_str("connecting")
    };
    ProxyStatus {
        is_running,
        status,
        current_server,
        proxy_mode,
        uptime,
        upload_speed: if is_running {
            speeds.upload_speed
        } else {
            0
        },
        download_speed: if is_running {
            speeds.download_speed
        } else {
            0
        },
        total_upload: if is_running {
            speeds.total_upload
        } else {
            0
        },
        total_download: if is_running {
            speeds.total_download
        } else {
            0
        },
    }
}

impl Engine {
    /// The session state of the virtual interface: running flag,
    /// device name and address, byte counters, and the supervised
    /// process's id.
    pub fn status(&self) -> (st: TunStatus)
        ensures
            st.is_running == self.running,
            st.device_name@ == self.config.name@,
            st.ip_address@ == spec_ipv4_chars(self.config.address),
            st.bytes_received == self.bytes_received,
            st.bytes_sent == self.bytes_sent,
            st.error is None,
            st.process_id == match self.supervisor.handle {
                Some(h) => Some(h.pid),
                None => None::<u32>,
            },
    {
        TunStatus {
            is_running: self.running,
            device_name: self.config.name.clone(),
            ip_address: ipv4_to_string(self.config.address),
            bytes_received: self.bytes_received,
            bytes_sent: self.bytes_sent,
            error: None,
            process_id: match self.supervisor.handle {
                Some(h) => Some(h.pid),
                None => None,
            },
        }
    }
}

} // verus!
