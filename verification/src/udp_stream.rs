//! The tasks behind UDP inputs and outputs.
use vstd::prelude::*;
use crate::clock::UnixNanos;
use crate::metrics::{
    error_update, input_update, output_update, record_input_bytes, record_input_packets,
    record_output_bytes, record_output_packets, record_stream_error, updates, Metric, MetricUpdate,
    MetricUpdateModel,
};
use crate::stats::UdpStats;
use crate::status::{StateChange, StreamStatus};
use crate::text::{address_of, address_text, opt_text};

verus! {

/// Nanoseconds without a packet after which an input no longer counts as connected.
pub const IDLE_TIMEOUT_NANOS: u64 = 10_000_000_000;

/// Nanoseconds between two reports of statistics.
pub const STATS_INTERVAL_NANOS: u64 = 1_000_000_000;

/// Milliseconds that a task waits for a packet before it looks at the time.
pub const RECEIVE_TIMEOUT_MILLIS: u64 = 500;

/// Whether a notice tells that an input is in a state.
pub open spec fn tells_input(
    n: StateChange,
    id: i64,
    status: StreamStatus,
    since: Option<UnixNanos>,
    address: Option<Seq<char>>,
) -> bool {
    n matches StateChange::InputStateChanged { input_id, new_status, connected_at, source_address }
        && input_id == id && new_status == status && connected_at == since && opt_text(
        source_address,
    ) == address
}

/// Whether a notice tells that an output is in a state.
pub open spec fn tells_output(
    n: StateChange,
    input: i64,
    output: i64,
    status: StreamStatus,
    since: Option<UnixNanos>,
    address: Option<Seq<char>>,
) -> bool {
    n matches StateChange::OutputStateChanged {
        input_id,
        output_id,
        new_status,
        connected_at,
        peer_address,
    } && input_id == input && output_id == output && new_status == status && connected_at == since
        && opt_text(peer_address) == address
}

/// A notice that an input is in a state in which nothing is known of the other end.
pub fn input_notice(input_id: i64, new_status: StreamStatus) -> (r: StateChange)
    ensures
        tells_input(r, input_id, new_status, None, None),
{
    StateChange::InputStateChanged {
        input_id,
        new_status,
        connected_at: None,
        source_address: None,
    }
}

/// A notice that an output is in a state in which nothing is known of the other end.
pub fn output_notice(input_id: i64, output_id: i64, new_status: StreamStatus) -> (r: StateChange)
    ensures
        tells_output(r, input_id, output_id, new_status, None, None),
{
    StateChange::OutputStateChanged {
        input_id,
        output_id,
        new_status,
        connected_at: None,
        peer_address: None,
    }
}

/// What is told once the socket of a UDP input was opened, or could not be: it listens, or has
/// failed.
pub fn socket_opened(id: i64, ok: bool) -> (r: StateChange)
    ensures
        tells_input(
            r,
            id,
            if ok {
                StreamStatus::Listening
            } else {
                StreamStatus::Error
            },
            None,
            None,
        ),
{
    if ok {
        input_notice(id, StreamStatus::Listening)
    } else {
        input_notice(id, StreamStatus::Error)
    }
}

/// Time between two readings of a clock that does not go back; zero where it seems to.
pub open spec fn time_since(earlier: u64, now: u64) -> int {
    if now >= earlier {
        now - earlier
    } else {
        0
    }
}

fn nanos_since(earlier: u64, now: u64) -> (r: u64)
    ensures
        r == time_since(earlier, now),
{
    if now >= earlier {
        now - earlier
    } else {
        0
    }
}

/// The task that receives the packets of a UDP input. Times are nanoseconds of a clock that does
/// not go back.
#[derive(Debug)]
pub struct UdpInputTask {
    pub id: i64,
    pub name: Option<String>,
    pub listen_port: u16,
    pub total_bytes: u64,
    pub total_packets: u64,
    /// Bytes since the last report.
    pub window_bytes: u64,
    /// Packets since the last report.
    pub window_packets: u64,
    /// Time of the last report.
    pub window_start: u64,
    pub connected: bool,
    /// Time of the last packet.
    pub last_packet: u64,
}

/// What a packet leads to.
#[derive(Debug)]
pub struct UdpReceived {
    pub notice: Option<StateChange>,
    pub metrics: Vec<MetricUpdate>,
    pub stats: Option<UdpStats>,
}

impl UdpInputTask {
    /// A task that has received nothing.
    pub fn new(id: i64, name: Option<String>, listen_port: u16, now: u64) -> (r: Self)
        ensures
            r == (UdpInputTask {
                id,
                name,
                listen_port,
                total_bytes: 0,
                total_packets: 0,
                window_bytes: 0,
                window_packets: 0,
                window_start: now,
                connected: false,
                last_packet: now,
            }),
    {
        UdpInputTask {
            id,
            name,
            listen_port,
            total_bytes: 0,
            total_packets: 0,
            window_bytes: 0,
            window_packets: 0,
            window_start: now,
            connected: false,
            last_packet: now,
        }
    }

    /// Whether the counters can take a packet of `n` bytes.
    pub open spec fn room_for(self, n: usize) -> bool {
        &&& self.total_bytes + n <= u64::MAX
        &&& self.total_packets < u64::MAX
        &&& (self.window_bytes + n) * 8 <= u64::MAX
        &&& self.window_packets < u64::MAX
    }

    /// Tell whether the counters can take a packet of `n` bytes.
    pub fn has_room(&self, n: usize) -> (r: bool)
        ensures
            r == self.room_for(n),
    {
        self.total_bytes as u128 + n as u128 <= 0xffff_ffff_ffff_ffff && self.total_packets
            < 0xffff_ffff_ffff_ffff && (self.window_bytes as u128 + n as u128) * 8
            <= 0xffff_ffff_ffff_ffff && self.window_packets < 0xffff_ffff_ffff_ffff
    }

    /// Whether statistics are due when a packet arrives.
    pub open spec fn report_due(self, now: u64) -> bool {
        time_since(self.window_start, now) >= STATS_INTERVAL_NANOS
    }

    /// The task after a packet.
    pub open spec fn after_packet(self, n: usize, now: u64) -> UdpInputTask {
        let due = self.report_due(now);
        UdpInputTask {
            total_bytes: (self.total_bytes + n) as u64,
            total_packets: (self.total_packets + 1) as u64,
            window_bytes: if due {
                0
            } else {
                (self.window_bytes + n) as u64
            },
            window_packets: if due {
                0
            } else {
                (self.window_packets + 1) as u64
            },
            window_start: if due {
                now
            } else {
                self.window_start
            },
            connected: true,
            last_packet: now,
            ..self
        }
    }

    /// The statistics that a packet brings, where they are due: totals with this packet, and
    /// what came since the last report.
    pub open spec fn report(self, n: usize, now: u64) -> Option<UdpStats> {
        if self.report_due(now) {
            Some(
                UdpStats {
                    total_packets: (self.total_packets + 1) as u64,
                    total_bytes: (self.total_bytes + n) as u64,
                    packets_per_sec: (self.window_packets + 1) as u64,
                    bitrate_bps: ((self.window_bytes + n) * 8) as u64,
                },
            )
        } else {
            None
        }
    }

    /// Take a packet of `n` bytes from a sender. The first packet makes the input connected; the
    /// sender is shown by its address and the port that the input listens on.
    pub fn received(&mut self, n: usize, peer_ip: &str, now: u64, wall: UnixNanos) -> (r:
        UdpReceived)
        requires
            old(self).room_for(n),
        ensures
            *final(self) == old(self).after_packet(n, now),
            r.stats == old(self).report(n, now),
            updates(r.metrics@) == seq![
                input_update(
                    Metric::InputBytesReceived,
                    old(self).name,
                    old(self).id,
                    "udp"@,
                    n as u64,
                ),
                input_update(Metric::InputPacketsReceived, old(self).name, old(self).id, "udp"@, 1),
            ],
            match r.notice {
                Some(notice) => !old(self).connected && tells_input(
                    notice,
                    old(self).id,
                    StreamStatus::Connected,
                    Some(wall),
                    Some(address_text(peer_ip@, old(self).listen_port)),
                ),
                None => old(self).connected,
            },
    {
        let ghost was = *self;
        self.total_bytes = self.total_bytes + n as u64;
        self.total_packets = self.total_packets + 1;
        let metrics: Vec<MetricUpdate> = vec![
            record_input_bytes(&self.name, self.id, "udp", n as u64),
            record_input_packets(&self.name, self.id, "udp", 1),
        ];
        assert(updates(metrics@) =~= seq![
            input_update(Metric::InputBytesReceived, was.name, was.id, "udp"@, n as u64),
            input_update(Metric::InputPacketsReceived, was.name, was.id, "udp"@, 1),
        ]);
        self.last_packet = now;
        let mut notice: Option<StateChange> = None;
        if !self.connected {
            self.connected = true;
            notice = Some(
                StateChange::InputStateChanged {
                    input_id: self.id,
                    new_status: StreamStatus::Connected,
                    connected_at: Some(wall),
                    source_address: Some(address_of(peer_ip, self.listen_port)),
                },
            );
        }
        self.window_bytes = self.window_bytes + n as u64;
        self.window_packets = self.window_packets + 1;
        let mut stats: Option<UdpStats> = None;
        if nanos_since(self.window_start, now) >= STATS_INTERVAL_NANOS {
            stats = Some(
                UdpStats {
                    total_packets: self.total_packets,
                    total_bytes: self.total_bytes,
                    packets_per_sec: self.window_packets,
                    bitrate_bps: self.window_bytes * 8,
                },
            );
            self.window_start = now;
            self.window_bytes = 0;
            self.window_packets = 0;
        }
        UdpReceived { notice, metrics, stats }
    }

    /// Whether an input that was connected has been silent for too long.
    pub open spec fn silent(self, now: u64) -> bool {
        self.connected && time_since(self.last_packet, now) >= IDLE_TIMEOUT_NANOS
    }

    /// The task after it looked at the time.
    pub open spec fn after_idle(self, now: u64) -> UdpInputTask {
        UdpInputTask { connected: self.connected && !self.silent(now), ..self }
    }

    /// Look at the time when no packet came: an input that was connected and has been silent
    /// for ten seconds listens again.
    pub fn idle(&mut self, now: u64) -> (r: Option<StateChange>)
        ensures
            *final(self) == old(self).after_idle(now),
            match r {
                Some(n) => old(self).silent(now) && tells_input(
                    n,
                    old(self).id,
                    StreamStatus::Listening,
                    None,
                    None,
                ),
                None => !old(self).silent(now),
            },
    {
        if self.connected && nanos_since(self.last_packet, now) >= IDLE_TIMEOUT_NANOS {
            self.connected = false;
            Some(input_notice(self.id, StreamStatus::Listening))
        } else {
            None
        }
    }
}

/// The metrics for a packet that a UDP output sent, or could not send.
pub open spec fn udp_send_metrics(
    name: Option<String>,
    input_id: i64,
    output_id: i64,
    len: u64,
    sent: bool,
) -> Seq<MetricUpdateModel> {
    if sent {
        seq![
            output_update(Metric::OutputBytesSent, name, input_id, output_id, "udp"@, len),
            output_update(Metric::OutputPacketsSent, name, input_id, output_id, "udp"@, 1),
        ]
    } else {
        seq![error_update(name, output_id, "udp"@, "send_failed"@)]
    }
}

/// Count a packet that a UDP output sent, or could not send.
pub fn udp_packet_sent(
    name: &Option<String>,
    input_id: i64,
    output_id: i64,
    len: u64,
    sent: bool,
) -> (r: Vec<MetricUpdate>)
    ensures
        updates(r@) == udp_send_metrics(*name, input_id, output_id, len, sent),
{
    let r: Vec<MetricUpdate> = if sent {
        vec![
            record_output_bytes(name, input_id, output_id, "udp", len),
            record_output_packets(name, input_id, output_id, "udp", 1),
        ]
    } else {
        vec![record_stream_error(name, output_id, "udp", "send_failed")]
    };
    assert(updates(r@) =~= udp_send_metrics(*name, input_id, output_id, len, sent));
    r
}

// ---------------------------------------------------------------- laws

/// The packets that reports count add up: what a report counts and what is in the window
/// afterwards is what was in the window before and the packet.
pub proof fn law_windows_lose_no_packet(t: UdpInputTask, n: usize, now: u64)
    requires
        t.room_for(n),
    ensures
        (match t.report(n, now) {
            Some(s) => s.packets_per_sec as int,
            None => 0,
        }) + t.after_packet(n, now).window_packets == t.window_packets + 1,
        (match t.report(n, now) {
            Some(s) => s.bitrate_bps as int,
            None => 0,
        }) + t.after_packet(n, now).window_bytes * 8 == (t.window_bytes + n) * 8,
{
}

/// An input gives notice of silence at most once until the next packet.
pub proof fn law_silence_is_told_once(t: UdpInputTask, first: u64, second: u64)
    requires
        t.silent(first),
    ensures
        !t.after_idle(first).silent(second),
        t.after_idle(first).after_idle(second) == t.after_idle(first),
{
}

/// An input never falls silent within ten seconds of a packet.
pub proof fn law_packets_keep_inputs_connected(t: UdpInputTask, n: usize, now: u64, later: u64)
    requires
        t.room_for(n),
        time_since(now, later) < IDLE_TIMEOUT_NANOS,
    ensures
        t.after_packet(n, now).connected,
        t.after_packet(n, now).after_idle(later) == t.after_packet(n, now),
{
}

} // verus!
