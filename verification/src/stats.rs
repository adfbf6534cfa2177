//! Statistics of streams.
use vstd::prelude::*;
use crate::metrics::SrtStats;

verus! {

/// Statistics of a UDP stream.
#[derive(Debug, Clone, Copy, Default)]
pub struct UdpStats {
    pub total_packets: u64,
    pub total_bytes: u64,
    pub packets_per_sec: u64,
    pub bitrate_bps: u64,
}

/// Running counters of a UDP stream.
#[derive(Debug)]
pub struct UdpStatsAtomic {
    pub total_packets: u64,
    pub total_bytes: u64,
    pub packets_per_sec: u64,
    pub bitrate_bps: u64,
}

impl UdpStatsAtomic {
    /// Counters that start at zero.
    pub fn new() -> (r: Self)
        ensures
            r.total_packets == 0,
            r.total_bytes == 0,
            r.packets_per_sec == 0,
            r.bitrate_bps == 0,
    {
        UdpStatsAtomic { total_packets: 0, total_bytes: 0, packets_per_sec: 0, bitrate_bps: 0 }
    }

    /// The counters as they stand.
    pub fn snapshot(&self) -> (r: UdpStats)
        ensures
            r == (UdpStats {
                total_packets: self.total_packets,
                total_bytes: self.total_bytes,
                packets_per_sec: self.packets_per_sec,
                bitrate_bps: self.bitrate_bps,
            }),
    {
        UdpStats {
            total_packets: self.total_packets,
            total_bytes: self.total_bytes,
            packets_per_sec: self.packets_per_sec,
            bitrate_bps: self.bitrate_bps,
        }
    }
}

/// The latest statistics of a stream.
#[derive(Debug, Clone, Copy)]
pub enum InputStats {
    Srt(SrtStats),
    Udp(UdpStats),
}

} // verus!
