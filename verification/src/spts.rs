//! Streams that carry one program of another stream.
use bytes::Bytes;
use vstd::prelude::*;
use crate::byte_buffers::bytes_content;
use crate::clock::UnixNanos;
use crate::metrics::{
    bare_update, increment_active_outputs, Metric, MetricChange, MetricUpdate,
};
use crate::mpegts_filter::{filter_run, FilterModel, ProgramFilter};
use crate::naming::{
    multicast_config_for, multicast_for, name_or, peer_text, MulticastOutputConfig,
};
use crate::requests::{first_port, SrtOutputConfig};
use crate::status::{StateChange, StreamStatus};
use crate::streams::{spts_source, spts_source_text, Lookup};
use crate::text::{address_of, decimal, decimal_text, join2, join3, join4, opt_text};
use crate::udp_stream::{input_notice, tells_input};

verus! {

/// Packets that a receiver of a filtered stream may lag behind.
pub const SPTS_CAPACITY: usize = 16384;

// ---------------------------------------------------------------- filtered inputs

/// The task that filters one program out of another input.
pub struct SptsInputTask {
    pub id: i64,
    pub source_address: String,
    pub filter: ProgramFilter,
    pub connected: bool,
    /// Time at which the task started; the input counts as connected since then.
    pub started_at: UnixNanos,
}

/// What packets of the source lead to.
pub struct SptsReceived {
    /// Packets of the program to hand on.
    pub packets: Option<Bytes>,
    pub notice: Option<StateChange>,
}

impl SptsInputTask {
    /// A task that has seen nothing, and the notice that it listens.
    pub fn new(
        id: i64,
        source_input_id: i64,
        program_number: u16,
        fill_with_nulls: bool,
        now: UnixNanos,
    ) -> (r: (SptsInputTask, StateChange))
        ensures
            r.0.id == id,
            r.0.source_address@ == spts_source_text(source_input_id, program_number),
            r.0.filter@ == (FilterModel {
                target: program_number,
                fill_with_nulls,
                pat_version: None,
                pmt_version: None,
                program: None,
            }),
            !r.0.connected,
            r.0.started_at == now,
            tells_input(
                r.1,
                id,
                StreamStatus::Listening,
                None,
                Some(spts_source_text(source_input_id, program_number)),
            ),
    {
        let source_address = spts_source(source_input_id, program_number);
        let notice = StateChange::InputStateChanged {
            input_id: id,
            new_status: StreamStatus::Listening,
            connected_at: None,
            source_address: Some(source_address.clone()),
        };
        (
            SptsInputTask {
                id,
                source_address,
                filter: ProgramFilter::new(program_number, fill_with_nulls),
                connected: false,
                started_at: now,
            },
            notice,
        )
    }

    /// Take packets of the source: what the filter lets pass is handed on, and the first time
    /// that anything passes makes the input connected.
    pub fn received(&mut self, data: &Bytes) -> (r: SptsReceived)
        ensures
            ({
                let (after, out) = filter_run(old(self).filter@, bytes_content(*data));
                &&& final(self).filter@ == after
                &&& final(self).id == old(self).id
                &&& final(self).source_address == old(self).source_address
                &&& final(self).started_at == old(self).started_at
                &&& final(self).connected == (old(self).connected || out.len() > 0)
                &&& match r.packets {
                    Some(p) => out.len() > 0 && bytes_content(p) == out,
                    None => out.len() == 0,
                }
                &&& match r.notice {
                    Some(n) => out.len() > 0 && !old(self).connected && tells_input(
                        n,
                        old(self).id,
                        StreamStatus::Connected,
                        Some(old(self).started_at),
                        Some(old(self).source_address@),
                    ),
                    None => out.len() == 0 || old(self).connected,
                }
            }),
    {
        let filtered = self.filter.filter_packets(data);
        if filtered.is_empty() {
            return SptsReceived { packets: None, notice: None };
        }
        let mut notice: Option<StateChange> = None;
        if !self.connected {
            self.connected = true;
            notice = Some(
                StateChange::InputStateChanged {
                    input_id: self.id,
                    new_status: StreamStatus::Connected,
                    connected_at: Some(self.started_at),
                    source_address: Some(self.source_address.clone()),
                },
            );
        }
        SptsReceived { packets: Some(filtered), notice }
    }

    /// What is told when the source ends: the input is stopped.
    pub fn source_closed(&self) -> (r: StateChange)
        ensures
            tells_input(r, self.id, StreamStatus::Stopped, None, None),
    {
        input_notice(self.id, StreamStatus::Stopped)
    }
}

// ---------------------------------------------------------------- filtered outputs

/// Where a filtered output goes.
#[derive(Debug)]
pub enum SpsDestinationConfig {
    Udp {
        remote_host: Option<String>,
        remote_port: Option<u16>,
        bind_host: Option<String>,
        multicast_ttl: Option<u8>,
        multicast_interface: Option<String>,
        /// Older form of `remote_host` and `remote_port`.
        destination_addr: Option<String>,
    },
    Srt { config: SrtOutputConfig },
}

/// `host:port` of a filtered output: the older field where it is there, and the pair of newer
/// ones otherwise, by default port 8000 of this machine.
pub open spec fn spts_address(
    host: Option<String>,
    port: Option<u16>,
    addr: Option<String>,
) -> Seq<char> {
    match addr {
        Some(a) => a@,
        None => peer_text(opt_text(host), port, "127.0.0.1"@, 8000),
    }
}

/// Where a filtered output goes, as it is shown.
pub open spec fn spts_destination(d: SpsDestinationConfig) -> Seq<char> {
    match d {
        SpsDestinationConfig::Udp { remote_host, remote_port, destination_addr, .. } =>
            spts_address(remote_host, remote_port, destination_addr),
        SpsDestinationConfig::Srt { config } => match config {
            SrtOutputConfig::Caller { remote_host, remote_port, destination_addr, .. } =>
                spts_address(remote_host, remote_port, destination_addr),
            SrtOutputConfig::Listener { bind_port, listen_port, .. } => ":"@ + decimal(
                match first_port(listen_port, bind_port) {
                    Some(p) => p as nat,
                    None => 8000,
                },
            ),
        },
    }
}

fn address_for(host: &Option<String>, port: Option<u16>, addr: &Option<String>) -> (r: String)
    ensures
        r@ == spts_address(*host, port, *addr),
{
    let p: u16 = match port {
        Some(p) => p,
        None => 8000,
    };
    match addr {
        Some(a) => a.clone(),
        None => match host {
            Some(h) => address_of(h.as_str(), p),
            None => address_of("127.0.0.1", p),
        },
    }
}

/// Where a filtered output goes, as it is shown.
pub fn spts_destination_of(d: &SpsDestinationConfig) -> (r: String)
    ensures
        r@ == spts_destination(*d),
{
    match d {
        SpsDestinationConfig::Udp { remote_host, remote_port, destination_addr, .. } =>
            address_for(remote_host, *remote_port, destination_addr),
        SpsDestinationConfig::Srt { config } => match config {
            SrtOutputConfig::Caller { remote_host, remote_port, destination_addr, .. } =>
                address_for(remote_host, *remote_port, destination_addr),
            SrtOutputConfig::Listener { bind_port, listen_port, .. } => {
                let port: u16 = match listen_port {
                    Some(p) => *p,
                    None => match bind_port {
                        Some(p) => *p,
                        None => 8000,
                    },
                };
                let n = decimal_text(port as u64);
                join2(":", n.as_str())
            },
        },
    }
}

/// A filtered output that has just started.
#[derive(Debug)]
pub struct SptsOutput {
    pub id: i64,
    pub name: String,
    pub input_id: i64,
    pub destination: String,
    pub status: StreamStatus,
    pub program_number: u16,
    pub fill_with_nulls: bool,
    /// How packets for a multicast group are sent.
    pub multicast: Option<MulticastOutputConfig>,
    pub config: SpsDestinationConfig,
    pub started_at: UnixNanos,
    pub connected_at: Option<UnixNanos>,
    /// One more output runs.
    pub metrics: MetricUpdate,
}

/// The state in which a filtered output starts: UDP counts as connected at once.
pub open spec fn spts_start(d: SpsDestinationConfig) -> StreamStatus {
    match d {
        SpsDestinationConfig::Udp { .. } => StreamStatus::Connected,
        SpsDestinationConfig::Srt { config } => match config {
            SrtOutputConfig::Listener { .. } => StreamStatus::Listening,
            SrtOutputConfig::Caller { .. } => StreamStatus::Connecting,
        },
    }
}

/// The name of a filtered output that was given none.
pub open spec fn auto_spts_name(program_number: u16) -> Seq<char> {
    "SPTS Program "@ + decimal(program_number as nat) + " Output"@
}

/// Make a filtered output, once the destination of a UDP output was looked up.
pub fn create_spts_output(
    input_id: i64,
    output_id: i64,
    name: Option<String>,
    program_number: u16,
    fill_with_nulls: bool,
    destination: SpsDestinationConfig,
    lookup: Lookup,
    now: UnixNanos,
) -> (r: Result<SptsOutput, String>)
    ensures
        if destination is Srt || lookup is Found {
            &&& r is Ok
            &&& r->Ok_0.id == output_id
            &&& r->Ok_0.name@ == name_or(name, auto_spts_name(program_number))
            &&& r->Ok_0.input_id == input_id
            &&& r->Ok_0.destination@ == spts_destination(destination)
            &&& r->Ok_0.status == spts_start(destination)
            &&& r->Ok_0.program_number == program_number
            &&& r->Ok_0.fill_with_nulls == fill_with_nulls
            &&& r->Ok_0.multicast == (match destination {
                SpsDestinationConfig::Udp {
                    remote_host,
                    multicast_ttl,
                    multicast_interface,
                    ..
                } => multicast_for(opt_text(remote_host), multicast_ttl, multicast_interface),
                SpsDestinationConfig::Srt { .. } => None,
            })
            &&& r->Ok_0.config == destination
            &&& r->Ok_0.started_at == now
            &&& r->Ok_0.connected_at == (if destination is Udp {
                Some(now)
            } else {
                None
            })
            &&& r->Ok_0.metrics@ == bare_update(Metric::ActiveOutputs, MetricChange::Increment)
        } else {
            r matches Err(e) && e@ == (match lookup {
                Lookup::Failed(m) => "Error resolving '"@ + spts_destination(destination) + "': "@
                    + m@,
                _ => "Could not resolve '"@ + spts_destination(destination) + "'"@,
            })
        },
{
    let shown = spts_destination_of(&destination);
    let (status, multicast, connected_at) = match &destination {
        SpsDestinationConfig::Udp { remote_host, multicast_ttl, multicast_interface, .. } => {
            match lookup {
                Lookup::Found => {},
                Lookup::Empty => {
                    return Err(join3("Could not resolve '", shown.as_str(), "'"));
                },
                Lookup::Failed(m) => {
                    return Err(join4("Error resolving '", shown.as_str(), "': ", m.as_str()));
                },
            }
            let multicast = multicast_config_for(remote_host, *multicast_ttl, multicast_interface);
            (StreamStatus::Connected, multicast, Some(now))
        },
        SpsDestinationConfig::Srt { config } => match config {
            SrtOutputConfig::Listener { .. } => (StreamStatus::Listening, None, None),
            SrtOutputConfig::Caller { .. } => (StreamStatus::Connecting, None, None),
        },
    };
    let final_name = match name {
        Some(n) => n,
        None => {
            let n = decimal_text(program_number as u64);
            join3("SPTS Program ", n.as_str(), " Output")
        },
    };
    Ok(
        SptsOutput {
            id: output_id,
            name: final_name,
            input_id,
            destination: shown,
            status,
            program_number,
            fill_with_nulls,
            multicast,
            config: destination,
            started_at: now,
            connected_at,
            metrics: increment_active_outputs(),
        },
    )
}

/// The packets that a filtered output sends on: what the filter lets pass, if anything.
pub fn packets_to_send(filter: &mut ProgramFilter, data: &Bytes) -> (r: Option<Bytes>)
    ensures
        ({
            let (after, out) = filter_run(old(filter)@, bytes_content(*data));
            &&& final(filter)@ == after
            &&& match r {
                Some(p) => out.len() > 0 && bytes_content(p) == out,
                None => out.len() == 0,
            }
        }),
{
    let filtered = filter.filter_packets(data);
    if filtered.is_empty() {
        None
    } else {
        Some(filtered)
    }
}

} // verus!
