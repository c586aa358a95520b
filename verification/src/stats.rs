//! Network statistics: interface counters summed over all interfaces,
//! and upload/download speeds computed from successive snapshots. The
//! counters come from the OS through a trusted reading; everything
//! computed from them is verified, in integer arithmetic.

use vstd::prelude::*;

verus! {

/// The counters of one network interface.
#[derive(Debug, Clone)]
pub struct NetworkInterfaceStats {
    pub name: String,
    pub bytes_sent: u64,
    pub bytes_received: u64,
    pub packets_sent: u64,
    pub packets_received: u64,
}

/// Current speeds and session totals, in bytes and bytes per second.
#[derive(Clone, Copy, Debug, PartialEq, Eq, Structural)]
pub struct NetworkSpeedStats {
    pub upload_speed: u64,
    pub download_speed: u64,
    pub total_upload: u64,
    pub total_download: u64,
}

/// One observation: when it was taken and the summed counters then.
#[derive(Clone, Copy, Debug, PartialEq, Eq, Structural)]
pub struct NetworkSnapshot {
    pub at_ms: u64,
    pub total_sent: u64,
    pub total_received: u64,
}

/// Holds the last observation, the session baseline, and the speeds
/// computed from them.
pub struct NetworkStatsManager {
    pub last: Option<NetworkSnapshot>,
    pub baseline: Option<NetworkSnapshot>,
    pub current: NetworkSpeedStats,
}

/// Caps a value at the largest u64.
pub open spec fn spec_cap64(x: int) -> int {
    if x > u64::MAX {
        u64::MAX as int
    } else {
        x
    }
}

/// A difference that bottoms out at zero, as counters may reset.
pub open spec fn spec_sat_sub(a: int, b: int) -> int {
    if a >= b {
        a - b
    } else {
        0
    }
}

/// The sum of all interfaces' sent-byte counters.
pub open spec fn spec_total_sent(s: Seq<NetworkInterfaceStats>) -> int
    decreases s.len(),
{
    if s.len() == 0 {
        0
    } else {
        spec_total_sent(s.drop_last()) + s.last().bytes_sent
    }
}

/// The sum of all interfaces' received-byte counters.
pub open spec fn spec_total_received(s: Seq<NetworkInterfaceStats>) -> int
    decreases s.len(),
{
    if s.len() == 0 {
        0
    } else {
        spec_total_received(s.drop_last()) + s.last().bytes_received
    }
}

/// A speed in bytes per second from a byte difference and the elapsed
/// milliseconds, capped at the largest u64; zero when no time passed.
pub open spec fn spec_speed(diff: int, elapsed_ms: int) -> int {
    if elapsed_ms <= 0 {
        0
    } else {
        spec_cap64(diff * 1000 / elapsed_ms)
    }
}

/// Sums the sent-byte counters of all interfaces, saturating.
pub fn sum_sent(stats: &Vec<NetworkInterfaceStats>) -> (r: u64)
    ensures
        r == spec_cap64(spec_total_sent(stats@)),
{
    let n = stats.len();
    let mut r: u64 = 0;
    let mut i: usize = 0;
    while i < n
        invariant
            i <= n == stats@.len(),
            r == spec_cap64(spec_total_sent(stats@.subrange(0, i as int))),
        decreases n - i,
    {
        r = r.saturating_add(stats[i].bytes_sent);
        i = i + 1;
        proof {
            assert(stats@.subrange(0, i as int).drop_last() =~= stats@.subrange(0, i - 1));
            assert(stats@.subrange(0, i as int).last() == stats@[i - 1]);
        }
    }
    proof {
        assert(stats@.subrange(0, n as int) =~= stats@);
    }
    r
}

/// Sums the received-byte counters of all interfaces, saturating.
pub fn sum_received(stats: &Vec<NetworkInterfaceStats>) -> (r: u64)
    ensures
        r == spec_cap64(spec_total_received(stats@)),
{
    let n = stats.len();
    let mut r: u64 = 0;
    let mut i: usize = 0;
    while i < n
        invariant
            i <= n == stats@.len(),
            r == spec_cap64(spec_total_received(stats@.subrange(0, i as int))),
        decreases n - i,
    {
        r = r.saturating_add(stats[i].bytes_received);
        i = i + 1;
        proof {
            assert(stats@.subrange(0, i as int).drop_last() =~= stats@.subrange(0, i - 1));
            assert(stats@.subrange(0, i as int).last() == stats@[i - 1]);
        }
    }
    proof {
        assert(stats@.subrange(0, n as int) =~= stats@);
    }
    r
}

/// Computes a speed in bytes per second.
pub fn speed_per_second(diff: u64, elapsed_ms: u64) -> (r: u64)
    ensures
        r == spec_speed(diff as int, elapsed_ms as int),
{
    if elapsed_ms == 0 {
        return 0;
    }
    let q: u128 = (diff as u128) * 1000 / (elapsed_ms as u128);
    if q > u64::MAX as u128 {
        u64::MAX
    } else {
        q as u64
    }
}

impl NetworkStatsManager {
    /// The baseline and the last snapshot are taken together.
    pub open spec fn wf(self) -> bool {
        self.baseline is Some <==> self.last is Some
    }

    /// A manager that has observed nothing: speeds and totals zero.
    pub fn new() -> (m: NetworkStatsManager)
        ensures
            m.wf(),
            m.last is None,
            m.baseline is None,
            m.current == (NetworkSpeedStats {
                upload_speed: 0,
                download_speed: 0,
                total_upload: 0,
                total_download: 0,
            }),
    {
        NetworkStatsManager {
            last: None,
            baseline: None,
            current: NetworkSpeedStats {
                upload_speed: 0,
                download_speed: 0,
                total_upload: 0,
                total_download: 0,
            },
        }
    }

    /// Feeds one observation in: on the first, it becomes the
    /// baseline; afterwards, speeds come from the difference to the
    /// previous snapshot over the elapsed time, and the session totals
    /// from the difference to the baseline. An observation that moved
    /// the clock backwards (or not at all) leaves the speeds as they
    /// were.
    pub fn update(&mut self, now_ms: u64, stats: &Vec<NetworkInterfaceStats>)
        requires
            old(self).wf(),
        ensures
            final(self).wf(),
            final(self).last == (Some(
                NetworkSnapshot {
                    at_ms: now_ms,
                    total_sent: spec_cap64(spec_total_sent(stats@)) as u64,
                    total_received: spec_cap64(spec_total_received(stats@)) as u64,
                },
            )),
            old(self).baseline is None ==> final(self).baseline == final(self).last
                && final(self).current == old(self).current,
            old(self).baseline is Some ==> final(self).baseline == old(self).baseline,
            match (old(self).baseline, old(self).last) {
                (Some(base), Some(prev)) => {
                let cur_sent = spec_cap64(spec_total_sent(stats@));
                let cur_recv = spec_cap64(spec_total_received(stats@));
                if now_ms > prev.at_ms {
                    final(self).current == (NetworkSpeedStats {
                        upload_speed: spec_speed(
                            spec_sat_sub(cur_sent, prev.total_sent as int),
                            now_ms - prev.at_ms,
                        ) as u64,
                        download_speed: spec_speed(
                            spec_sat_sub(cur_recv, prev.total_received as int),
                            now_ms - prev.at_ms,
                        ) as u64,
                        total_upload: spec_sat_sub(cur_sent, base.total_sent as int) as u64,
                        total_download: spec_sat_sub(cur_recv, base.total_received as int) as u64,
                    })
                } else {
                    final(self).current == old(self).current
                }
                },
                _ => true,
            },
    {
        let cur_sent = sum_sent(stats);
        let cur_recv = sum_received(stats);
        let snapshot = NetworkSnapshot { at_ms: now_ms, total_sent: cur_sent, total_received: cur_recv };
        match (self.last, self.baseline) {
            (Some(prev), Some(base)) => {
                if now_ms > prev.at_ms {
                    let elapsed = now_ms - prev.at_ms;
                    let upload_speed = speed_per_second(cur_sent.saturating_sub(prev.total_sent), elapsed);
                    let download_speed = speed_per_second(
                        cur_recv.saturating_sub(prev.total_received),
                        elapsed,
                    );
                    let total_upload = cur_sent.saturating_sub(base.total_sent);
                    let total_download = cur_recv.saturating_sub(base.total_received);
                    self.current = NetworkSpeedStats {
                        upload_speed,
                        download_speed,
                        total_upload,
                        total_download,
                    };
                }
                self.last = Some(snapshot);
            },
            _ => {
                self.baseline = Some(snapshot);
                self.last = Some(snapshot);
            },
        }
    }

    /// Starts the session totals afresh from this observation.
    pub fn reset(&mut self, now_ms: u64, stats: &Vec<NetworkInterfaceStats>)
        ensures
            final(self).wf(),
            final(self).last == (Some(
                NetworkSnapshot {
                    at_ms: now_ms,
                    total_sent: spec_cap64(spec_total_sent(stats@)) as u64,
                    total_received: spec_cap64(spec_total_received(stats@)) as u64,
                },
            )),
            final(self).baseline == final(self).last,
            final(self).current == (NetworkSpeedStats {
                upload_speed: 0,
                download_speed: 0,
                total_upload: 0,
                total_download: 0,
            }),
    {
        let cur_sent = sum_sent(stats);
        let cur_recv = sum_received(stats);
        let snapshot = NetworkSnapshot { at_ms: now_ms, total_sent: cur_sent, total_received: cur_recv };
        self.baseline = Some(snapshot);
        self.last = Some(snapshot);
        self.current = NetworkSpeedStats {
            upload_speed: 0,
            download_speed: 0,
            total_upload: 0,
            total_download: 0,
        };
    }

    /// Reads the OS interface counters once and feeds them in.
    pub fn sample(&mut self, now_ms: u64)
        requires
            old(self).wf(),
        ensures
            final(self).wf(),
            final(self).last is Some,
            final(self).baseline is Some,
            final(self).last->0.at_ms == now_ms,
    {
        let stats = read_interface_stats();
        self.update(now_ms, &stats);
    }
}

/// The current speeds and session totals.
pub fn get_network_speed(manager: &NetworkStatsManager) -> (r: NetworkSpeedStats)
    ensures
        r == manager.current,
{
    manager.current
}

/// Relies on sysinfo's `Networks`: a freshly refreshed list of the
/// OS's network interfaces, each with the total bytes and packets it
/// has sent and received. What comes back depends on the machine, so
/// nothing is promised of it; everything computed from it is.
#[verifier::external_body]
fn read_interface_stats() -> Vec<NetworkInterfaceStats> {
    let networks = sysinfo::Networks::new_with_refreshed_list();
    let mut out = Vec::new();
    for (name, data) in networks.iter() {
        out.push(NetworkInterfaceStats {
            name: name.clone(),
            bytes_sent: data.total_transmitted(),
            bytes_received: data.total_received(),
            packets_sent: data.total_packets_transmitted(),
            packets_received: data.total_packets_received(),
        });
    }
    out
}

} // verus!
