//! The tasks behind SRT inputs and outputs.
use vstd::prelude::*;
use crate::clock::UnixNanos;
use crate::metrics::{
    error_update, input_update, output_update, record_input_bytes, record_input_packets,
    record_output_bytes, record_output_packets, record_stream_error, updates, Metric, MetricUpdate,
    MetricUpdateModel,
};
use crate::naming::peer_text;
use crate::requests::{SrtInputConfig, SrtOutputConfig};
use crate::srt_config::SrtSettings;
use crate::status::{StateChange, StreamStatus};
use crate::text::{address_of, address_text, join2, opt_text, text_eq};
use crate::udp_stream::{
    input_notice, output_notice, tells_input, tells_output, time_since, STATS_INTERVAL_NANOS,
};

verus! {

/// Failures in a row after which a stream gives up.
pub const MAX_RETRIES: u32 = 10;

/// Seconds between two attempts of an output.
pub const OUTPUT_RETRY_SECS: u64 = 2;

/// Seconds between two attempts of an input.
pub const INPUT_RETRY_SECS: u64 = 1;

/// Packets that a receiver of a stream may lag behind.
pub const BROADCAST_CAPACITY: usize = 32768;

// ---------------------------------------------------------------- connecting

/// How to get a connection.
#[derive(Debug)]
pub struct SrtPlan {
    /// Wait for a connection at the address, or connect to it.
    pub listen: bool,
    pub address: String,
    pub settings: SrtSettings,
    /// Local address to connect from, with a port that the system picks.
    pub local: Option<String>,
    /// What is told before the connection is there.
    pub notice: StateChange,
}

/// The local address to connect from: none for a host that is missing, empty or stands for
/// every interface.
pub open spec fn local_text(host: Option<String>) -> Option<Seq<char>> {
    match host {
        Some(h) => if h@.len() == 0 || h@ == "0.0.0.0"@ {
            None
        } else {
            Some(h@ + ":0"@)
        },
        None => None,
    }
}

fn local_address(host: Option<String>) -> (r: Option<String>)
    ensures
        opt_text(r) == local_text(host),
{
    match host {
        Some(h) => {
            proof {
                reveal_strlit("");
                assert(h@.len() == 0 ==> h@ =~= ""@);
            }
            if text_eq(h.as_str(), "") || text_eq(h.as_str(), "0.0.0.0") {
                None
            } else {
                Some(join2(h.as_str(), ":0"))
            }
        },
        None => None,
    }
}

/// The source of an SRT input.
#[derive(Debug)]
pub struct SrtSourceWithState {
    pub config: SrtInputConfig,
    pub input_id: i64,
}

impl SrtSourceWithState {
    /// Where a listener waits, or what a caller connects to, by default port 8000 of this
    /// machine.
    pub open spec fn address(self) -> Seq<char> {
        match self.config {
            SrtInputConfig::Listener { .. } => address_text(
                self.config.host(),
                match self.config.port() {
                    Some(p) => p,
                    None => 0,
                },
            ),
            SrtInputConfig::Caller { .. } => peer_text(
                self.config.peer_host(),
                self.config.peer_port(),
                "127.0.0.1"@,
                8000,
            ),
        }
    }

    /// How to get the connection of the input.
    pub fn get_socket(&self) -> (r: SrtPlan)
        requires
            self.config.common_config().fits(),
        ensures
            r.listen == (self.config is Listener),
            r.address@ == self.address(),
            r.settings == self.config.common_config().async_settings(),
            opt_text(r.local) == (match self.config {
                SrtInputConfig::Listener { .. } => None,
                SrtInputConfig::Caller { bind_host, .. } => local_text(bind_host),
            }),
            tells_input(
                r.notice,
                self.input_id,
                if self.config is Listener {
                    StreamStatus::Listening
                } else {
                    StreamStatus::Connecting
                },
                None,
                None,
            ),
    {
        match &self.config {
            SrtInputConfig::Listener { common, .. } => {
                let host = self.config.get_bind_host();
                SrtPlan {
                    listen: true,
                    address: address_of(host.as_str(), self.config.get_bind_port()),
                    settings: common.async_builder(),
                    local: None,
                    notice: input_notice(self.input_id, StreamStatus::Listening),
                }
            },
            SrtInputConfig::Caller { common, .. } => {
                let host = match self.config.get_remote_host() {
                    Some(h) => h,
                    None => "127.0.0.1".to_owned(),
                };
                let port: u16 = match self.config.get_remote_port() {
                    Some(p) => p,
                    None => 8000,
                };
                SrtPlan {
                    listen: false,
                    address: address_of(host.as_str(), port),
                    settings: common.async_builder(),
                    local: local_address(self.config.get_caller_bind_host()),
                    notice: input_notice(self.input_id, StreamStatus::Connecting),
                }
            },
        }
    }

    /// What is told once the connection is there: a listener names the peer that it accepted, a
    /// caller the address that it connected to.
    pub fn connected(&self, plan: &SrtPlan, peer: String, now: UnixNanos) -> (r: StateChange)
        ensures
            tells_input(
                r,
                self.input_id,
                StreamStatus::Connected,
                Some(now),
                Some(
                    if plan.listen {
                        peer@
                    } else {
                        plan.address@
                    },
                ),
            ),
    {
        let address = if plan.listen {
            peer
        } else {
            plan.address.clone()
        };
        StateChange::InputStateChanged {
            input_id: self.input_id,
            new_status: StreamStatus::Connected,
            connected_at: Some(now),
            source_address: Some(address),
        }
    }
}

/// The sink of an SRT output.
#[derive(Debug)]
pub struct SrtSinkWithState {
    pub config: SrtOutputConfig,
    pub input_id: i64,
    pub output_id: i64,
}

impl SrtSinkWithState {
    /// Where a listener waits, or what a caller connects to, by default port 8000 of this
    /// machine.
    pub open spec fn address(self) -> Seq<char> {
        match self.config {
            SrtOutputConfig::Listener { .. } => peer_text(
                self.config.host(),
                self.config.port(),
                "0.0.0.0"@,
                8000,
            ),
            SrtOutputConfig::Caller { .. } => peer_text(
                self.config.peer_host(),
                self.config.peer_port(),
                "127.0.0.1"@,
                8000,
            ),
        }
    }

    /// How to get the connection of the output.
    pub fn get_socket(&self) -> (r: SrtPlan)
        requires
            self.config.common_config().fits(),
        ensures
            r.listen == (self.config is Listener),
            r.address@ == self.address(),
            r.settings == self.config.common_config().async_settings(),
            opt_text(r.local) == (match self.config {
                SrtOutputConfig::Listener { .. } => None,
                SrtOutputConfig::Caller { bind_host, .. } => local_text(bind_host),
            }),
            tells_output(
                r.notice,
                self.input_id,
                self.output_id,
                if self.config is Listener {
                    StreamStatus::Listening
                } else {
                    StreamStatus::Connecting
                },
                None,
                None,
            ),
    {
        match &self.config {
            SrtOutputConfig::Listener { common, .. } => {
                let host = match self.config.get_bind_host() {
                    Some(h) => h,
                    None => "0.0.0.0".to_owned(),
                };
                let port: u16 = match self.config.get_bind_port() {
                    Some(p) => p,
                    None => 8000,
                };
                SrtPlan {
                    listen: true,
                    address: address_of(host.as_str(), port),
                    settings: common.async_builder(),
                    local: None,
                    notice: output_notice(self.input_id, self.output_id, StreamStatus::Listening),
                }
            },
            SrtOutputConfig::Caller { common, .. } => {
                let host = match self.config.get_remote_host() {
                    Some(h) => h,
                    None => "127.0.0.1".to_owned(),
                };
                let port: u16 = match self.config.get_remote_port() {
                    Some(p) => p,
                    None => 8000,
                };
                SrtPlan {
                    listen: false,
                    address: address_of(host.as_str(), port),
                    settings: common.async_builder(),
                    local: local_address(self.config.get_caller_bind_host()),
                    notice: output_notice(self.input_id, self.output_id, StreamStatus::Connecting),
                }
            },
        }
    }

    /// What is told once the connection is there: a listener names the peer that it accepted, a
    /// caller the address that it connected to.
    pub fn connected(&self, plan: &SrtPlan, peer: String, now: UnixNanos) -> (r: StateChange)
        ensures
            tells_output(
                r,
                self.input_id,
                self.output_id,
                StreamStatus::Connected,
                Some(now),
                Some(
                    if plan.listen {
                        peer@
                    } else {
                        plan.address@
                    },
                ),
            ),
    {
        let address = if plan.listen {
            peer
        } else {
            plan.address.clone()
        };
        StateChange::OutputStateChanged {
            input_id: self.input_id,
            output_id: self.output_id,
            new_status: StreamStatus::Connected,
            connected_at: Some(now),
            peer_address: Some(address),
        }
    }
}

// ---------------------------------------------------------------- trying again

/// Attempts to connect. Failures in a row are fewer than the limit as long as a stream tries.
#[derive(Debug)]
pub struct Attempts {
    pub failures: u32,
}

impl Attempts {
    pub open spec fn wf(self) -> bool {
        self.failures < MAX_RETRIES
    }

    /// Attempts after one more failure.
    pub open spec fn after_failure(self) -> Attempts {
        Attempts { failures: (self.failures + 1) as u32 }
    }

    /// Nothing was tried yet.
    pub fn new() -> (r: Self)
        ensures
            r.failures == 0,
            r.wf(),
    {
        Attempts { failures: 0 }
    }

    /// A connection came about.
    pub fn succeeded(&mut self)
        ensures
            final(self).failures == 0,
            final(self).wf(),
    {
        self.failures = 0;
    }

    /// An attempt failed: the tenth in a row is the last one.
    pub fn failed(&mut self) -> (give_up: bool)
        requires
            old(self).wf(),
        ensures
            *final(self) == old(self).after_failure(),
            give_up == !final(self).wf(),
    {
        self.failures = self.failures + 1;
        self.failures >= MAX_RETRIES
    }
}

/// What comes next for the task of an SRT stream.
#[derive(Debug, Clone, Copy, PartialEq, Eq, Structural)]
pub enum SrtNext {
    /// Go on.
    Continue,
    /// Wait so many seconds and try to connect again.
    Retry(u64),
    /// End the task.
    Stop,
}

/// What an event of a task leads to.
#[derive(Debug)]
pub struct SrtReaction {
    pub notice: Option<StateChange>,
    pub metrics: Vec<MetricUpdate>,
    pub next: SrtNext,
}

/// What reading from a connection gave.
#[derive(Debug, Clone, Copy)]
pub enum ReadResult {
    /// So many bytes; none means that the peer closed the connection.
    Got(usize),
    Failed,
}

/// The task that receives an SRT input and hands its packets on.
#[derive(Debug)]
pub struct Forwarder {
    pub input_id: i64,
    pub name: Option<String>,
    pub reconnect_delay_secs: u64,
    pub attempts: Attempts,
    /// Time of the last statistics, of a clock that does not go back.
    pub stats_at: u64,
}

impl Forwarder {
    pub open spec fn wf(self) -> bool {
        self.attempts.wf()
    }

    /// A task that has tried nothing yet.
    pub fn new(input_id: i64, name: Option<String>, reconnect_delay_secs: u64) -> (r: Self)
        ensures
            r.wf(),
            r == (Forwarder {
                input_id,
                name,
                reconnect_delay_secs,
                attempts: Attempts { failures: 0 },
                stats_at: 0,
            }),
    {
        Forwarder { input_id, name, reconnect_delay_secs, attempts: Attempts::new(), stats_at: 0 }
    }

    /// The connection is there; statistics are counted from now on.
    pub fn opened(&mut self, now: u64)
        ensures
            final(self).wf(),
            *final(self) == (Forwarder {
                attempts: Attempts { failures: 0 },
                stats_at: now,
                ..*old(self)
            }),
    {
        self.attempts.succeeded();
        self.stats_at = now;
    }

    /// The connection did not come about: the task waits and tries again, and gives up for good
    /// at the tenth failure in a row.
    pub fn connect_failed(&mut self) -> (r: SrtReaction)
        requires
            old(self).wf(),
        ensures
            *final(self) == (Forwarder {
                attempts: old(self).attempts.after_failure(),
                ..*old(self)
            }),
            updates(r.metrics@) == Seq::<MetricUpdateModel>::empty(),
            ({
                let give_up = !old(self).attempts.after_failure().wf();
                &&& r.next == (if give_up {
                    SrtNext::Stop
                } else {
                    SrtNext::Retry(old(self).reconnect_delay_secs)
                })
                &&& !give_up ==> final(self).wf()
                &&& r.notice matches Some(n) && tells_input(
                    n,
                    old(self).input_id,
                    if give_up {
                        StreamStatus::Error
                    } else {
                        StreamStatus::Reconnecting
                    },
                    None,
                    None,
                )
            }),
    {
        let metrics: Vec<MetricUpdate> = Vec::new();
        assert(updates(metrics@) =~= Seq::<MetricUpdateModel>::empty());
        if self.attempts.failed() {
            SrtReaction {
                notice: Some(input_notice(self.input_id, StreamStatus::Error)),
                metrics,
                next: SrtNext::Stop,
            }
        } else {
            SrtReaction {
                notice: Some(input_notice(self.input_id, StreamStatus::Reconnecting)),
                metrics,
                next: SrtNext::Retry(self.reconnect_delay_secs),
            }
        }
    }

    /// Whether statistics are due; if so, the next ones are due a second from now.
    pub fn stats_due(&mut self, now: u64) -> (r: bool)
        ensures
            r == (time_since(old(self).stats_at, now) >= STATS_INTERVAL_NANOS),
            *final(self) == (Forwarder {
                stats_at: if r {
                    now
                } else {
                    old(self).stats_at
                },
                ..*old(self)
            }),
    {
        let since: u64 = if now >= self.stats_at {
            now - self.stats_at
        } else {
            0
        };
        if since >= STATS_INTERVAL_NANOS {
            self.stats_at = now;
            true
        } else {
            false
        }
    }

    /// Take what was read: packets are counted; an end or a failure breaks the connection, and
    /// the task waits and tries again.
    pub fn read(&self, result: ReadResult) -> (r: SrtReaction)
        ensures
            match result {
                ReadResult::Got(n) if n > 0 => {
                    &&& r.next == SrtNext::Continue
                    &&& r.notice is None
                    &&& updates(r.metrics@) == seq![
                        input_update(
                            Metric::InputBytesReceived,
                            self.name,
                            self.input_id,
                            "srt"@,
                            n as u64,
                        ),
                        input_update(
                            Metric::InputPacketsReceived,
                            self.name,
                            self.input_id,
                            "srt"@,
                            1,
                        ),
                    ]
                },
                _ => {
                    &&& r.next == SrtNext::Retry(self.reconnect_delay_secs)
                    &&& r.notice matches Some(n) && tells_input(
                        n,
                        self.input_id,
                        StreamStatus::Reconnecting,
                        None,
                        None,
                    )
                    &&& updates(r.metrics@) == Seq::<MetricUpdateModel>::empty()
                },
            },
    {
        let n: usize = match result {
            ReadResult::Got(n) => n,
            ReadResult::Failed => 0,
        };
        if n > 0 {
            let metrics: Vec<MetricUpdate> = vec![
                record_input_bytes(&self.name, self.input_id, "srt", n as u64),
                record_input_packets(&self.name, self.input_id, "srt", 1),
            ];
            assert(updates(metrics@) =~= seq![
                input_update(
                    Metric::InputBytesReceived,
                    self.name,
                    self.input_id,
                    "srt"@,
                    n as u64,
                ),
                input_update(Metric::InputPacketsReceived, self.name, self.input_id, "srt"@, 1),
            ]);
            SrtReaction { notice: None, metrics, next: SrtNext::Continue }
        } else {
            let metrics: Vec<MetricUpdate> = Vec::new();
            assert(updates(metrics@) =~= Seq::<MetricUpdateModel>::empty());
            SrtReaction {
                notice: Some(input_notice(self.input_id, StreamStatus::Reconnecting)),
                metrics,
                next: SrtNext::Retry(self.reconnect_delay_secs),
            }
        }
    }
}

/// What sending over a connection gave.
#[derive(Debug, Clone, Copy)]
pub enum SendResult {
    /// So many bytes were sent.
    Wrote(usize),
    Failed,
}

/// The task that sends an SRT output.
#[derive(Debug)]
pub struct SrtSender {
    pub input_id: i64,
    pub output_id: i64,
    pub name: Option<String>,
    pub attempts: Attempts,
    /// Time of the last statistics, of a clock that does not go back.
    pub stats_at: u64,
}

impl SrtSender {
    pub open spec fn wf(self) -> bool {
        self.attempts.wf()
    }

    /// A task that has tried nothing yet.
    pub fn new(input_id: i64, output_id: i64, name: Option<String>) -> (r: Self)
        ensures
            r.wf(),
            r == (SrtSender {
                input_id,
                output_id,
                name,
                attempts: Attempts { failures: 0 },
                stats_at: 0,
            }),
    {
        SrtSender { input_id, output_id, name, attempts: Attempts::new(), stats_at: 0 }
    }

    /// The connection is there; statistics are counted from now on.
    pub fn opened(&mut self, now: u64)
        ensures
            final(self).wf(),
            *final(self) == (SrtSender {
                attempts: Attempts { failures: 0 },
                stats_at: now,
                ..*old(self)
            }),
    {
        self.attempts.succeeded();
        self.stats_at = now;
    }

    /// The connection did not come about: the task waits two seconds and tries again, and gives
    /// up for good at the tenth failure in a row.
    pub fn connect_failed(&mut self) -> (r: SrtReaction)
        requires
            old(self).wf(),
        ensures
            *final(self) == (SrtSender {
                attempts: old(self).attempts.after_failure(),
                ..*old(self)
            }),
            updates(r.metrics@) == Seq::<MetricUpdateModel>::empty(),
            ({
                let give_up = !old(self).attempts.after_failure().wf();
                &&& r.next == (if give_up {
                    SrtNext::Stop
                } else {
                    SrtNext::Retry(OUTPUT_RETRY_SECS)
                })
                &&& !give_up ==> final(self).wf()
                &&& r.notice matches Some(n) && tells_output(
                    n,
                    old(self).input_id,
                    old(self).output_id,
                    if give_up {
                        StreamStatus::Error
                    } else {
                        StreamStatus::Reconnecting
                    },
                    None,
                    None,
                )
            }),
    {
        let metrics: Vec<MetricUpdate> = Vec::new();
        assert(updates(metrics@) =~= Seq::<MetricUpdateModel>::empty());
        if self.attempts.failed() {
            SrtReaction {
                notice: Some(output_notice(self.input_id, self.output_id, StreamStatus::Error)),
                metrics,
                next: SrtNext::Stop,
            }
        } else {
            SrtReaction {
                notice: Some(
                    output_notice(self.input_id, self.output_id, StreamStatus::Reconnecting),
                ),
                metrics,
                next: SrtNext::Retry(OUTPUT_RETRY_SECS),
            }
        }
    }

    /// Whether statistics are due; if so, the next ones are due a second from now.
    pub fn stats_due(&mut self, now: u64) -> (r: bool)
        ensures
            r == (time_since(old(self).stats_at, now) >= STATS_INTERVAL_NANOS),
            *final(self) == (SrtSender {
                stats_at: if r {
                    now
                } else {
                    old(self).stats_at
                },
                ..*old(self)
            }),
    {
        let since: u64 = if now >= self.stats_at {
            now - self.stats_at
        } else {
            0
        };
        if since >= STATS_INTERVAL_NANOS {
            self.stats_at = now;
            true
        } else {
            false
        }
    }

    /// The metrics for a packet that was sent, sent in part, or not sent.
    pub open spec fn send_metrics(self, len: usize, result: SendResult) -> Seq<MetricUpdateModel> {
        match result {
            SendResult::Wrote(n) => if n == len {
                seq![
                    output_update(
                        Metric::OutputBytesSent,
                        self.name,
                        self.input_id,
                        self.output_id,
                        "srt"@,
                        len as u64,
                    ),
                    output_update(
                        Metric::OutputPacketsSent,
                        self.name,
                        self.input_id,
                        self.output_id,
                        "srt"@,
                        1,
                    ),
                ]
            } else {
                seq![error_update(self.name, self.output_id, "srt"@, "partial_send"@)]
            },
            SendResult::Failed => seq![
                error_update(self.name, self.output_id, "srt"@, "send_failed"@),
            ],
        }
    }

    /// Take what came of sending a packet of `len` bytes: it is counted, as sent or as an error;
    /// a failure breaks the connection, and the task waits and tries again.
    pub fn sent(&self, len: usize, result: SendResult) -> (r: SrtReaction)
        ensures
            updates(r.metrics@) == self.send_metrics(len, result),
            match result {
                SendResult::Wrote(_) => r.next == SrtNext::Continue && r.notice is None,
                SendResult::Failed => r.next == SrtNext::Retry(OUTPUT_RETRY_SECS) && (
                r.notice matches Some(n) && tells_output(
                    n,
                    self.input_id,
                    self.output_id,
                    StreamStatus::Reconnecting,
                    None,
                    None,
                )),
            },
    {
        match result {
            SendResult::Wrote(n) => {
                let metrics: Vec<MetricUpdate> = if n == len {
                    vec![
                        record_output_bytes(
                            &self.name,
                            self.input_id,
                            self.output_id,
                            "srt",
                            len as u64,
                        ),
                        record_output_packets(&self.name, self.input_id, self.output_id, "srt", 1),
                    ]
                } else {
                    vec![record_stream_error(&self.name, self.output_id, "srt", "partial_send")]
                };
                assert(updates(metrics@) =~= self.send_metrics(len, result));
                SrtReaction { notice: None, metrics, next: SrtNext::Continue }
            },
            SendResult::Failed => {
                let metrics: Vec<MetricUpdate> = vec![
                    record_stream_error(&self.name, self.output_id, "srt", "send_failed"),
                ];
                assert(updates(metrics@) =~= self.send_metrics(len, result));
                SrtReaction {
                    notice: Some(
                        output_notice(self.input_id, self.output_id, StreamStatus::Reconnecting),
                    ),
                    metrics,
                    next: SrtNext::Retry(OUTPUT_RETRY_SECS),
                }
            },
        }
    }
}

// ---------------------------------------------------------------- laws

/// Attempts after so many failures in a row.
pub open spec fn after_failures(a: Attempts, n: nat) -> Attempts
    decreases n,
{
    if n == 0 {
        a
    } else {
        after_failures(a, (n - 1) as nat).after_failure()
    }
}

/// A stream gives up at the tenth failure in a row and not before: from a connection on, or from
/// its start, nine failures leave it trying, and the tenth does not.
pub proof fn law_gives_up_at_the_tenth_failure(a: Attempts, n: nat)
    requires
        a.failures == 0,
        n <= 10,
    ensures
        after_failures(a, n).failures == n,
        after_failures(a, n).wf() <==> n < 10,
    decreases n,
{
    if n > 0 {
        law_gives_up_at_the_tenth_failure(a, (n - 1) as nat);
    }
}

} // verus!
