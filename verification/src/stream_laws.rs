//! Laws of streams over several operations: what a notice changes, what stopping and starting
//! keep, and what comes back from the database.
use vstd::prelude::*;
use crate::clock::UnixNanos;
use crate::ip::is_multicast_text;
use crate::loading::{
    input_row_loaded, is_kept_as, output_row_loaded, row_destination, InputRowData, OutputRowData,
};
use crate::metrics::{stream_label, Metric, MetricChange};
use crate::naming::{udp_destination, MulticastOutputConfig};
use crate::requests::{CreateInputRequest, CreateOutputRequest};
use crate::state_processor::{after_notice, notice_metrics};
use crate::status::{OutputKind, StateChange, StreamStatus};
use crate::stream_control::{
    can_restart, is_started, outputs_restarted, stopped_model, without_output,
};
use crate::streams::{
    is_restarted_output, is_spawned_input, is_udp_output, InputModel, Lookup, OutputInfo,
};
use crate::text::{address_text, opt_text, signed_decimal};

verus! {

// ---------------------------------------------------------------- notices

/// After a notice for an input that is known, the input has the state that the notice tells,
/// whatever state that is. A connection brings the time and the address of the notice; a state
/// in which the input no longer tries takes both away; any other state leaves them. Nothing
/// else of the input changes, and no other input.
pub proof fn law_input_notice_sets_the_state(
    streams: Map<i64, InputModel>,
    input_id: i64,
    new_status: StreamStatus,
    connected_at: Option<UnixNanos>,
    source_address: Option<String>,
    other: i64,
)
    requires
        streams.contains_key(input_id),
    ensures
        ({
            let change = StateChange::InputStateChanged {
                input_id,
                new_status,
                connected_at,
                source_address,
            };
            let was = streams[input_id];
            let new = after_notice(streams, change)[input_id];
            &&& after_notice(streams, change).contains_key(input_id)
            &&& new.status == new_status
            &&& new_status == StreamStatus::Connected ==> new.connected_at == connected_at
                && new.source_address == source_address
            &&& new_status == StreamStatus::Stopped || new_status == StreamStatus::Error ==> new.connected_at is None
                && new.source_address is None
            &&& new_status == StreamStatus::Listening || new_status == StreamStatus::Connecting || new_status
                == StreamStatus::Reconnecting ==> new.connected_at == was.connected_at
                && new.source_address == was.source_address
            &&& new.id == was.id
            &&& new.name == was.name
            &&& new.running == was.running
            &&& new.config == was.config
            &&& new.outputs == was.outputs
            &&& new.stopped == was.stopped
            &&& new.analyses == was.analyses
            &&& new.paused == was.paused
            &&& new.started_at == was.started_at
            &&& new.error_message == was.error_message
            &&& other != input_id && streams.contains_key(other) ==> after_notice(streams, change)[other]
                == streams[other]
        }),
{
}

/// After a notice for an output that is known, the output has the state that the notice tells,
/// whatever state that is, as an input has after one for an input. Nothing else of the output
/// changes, and no other output, nor the input.
pub proof fn law_output_notice_sets_the_state(
    streams: Map<i64, InputModel>,
    input_id: i64,
    output_id: i64,
    new_status: StreamStatus,
    connected_at: Option<UnixNanos>,
    peer_address: Option<String>,
    other: i64,
    other_output: i64,
)
    requires
        streams.contains_key(input_id),
        streams[input_id].outputs.contains_key(output_id),
    ensures
        ({
            let change = StateChange::OutputStateChanged {
                input_id,
                output_id,
                new_status,
                connected_at,
                peer_address,
            };
            let after = after_notice(streams, change);
            let was = streams[input_id].outputs[output_id];
            let new = after[input_id].outputs[output_id];
            &&& after.contains_key(input_id)
            &&& after[input_id].outputs.contains_key(output_id)
            &&& new.status == new_status
            &&& new_status == StreamStatus::Connected ==> new.connected_at == connected_at
                && new.peer_address == peer_address
            &&& new_status == StreamStatus::Stopped || new_status == StreamStatus::Error ==> new.connected_at is None
                && new.peer_address is None
            &&& new_status == StreamStatus::Listening || new_status == StreamStatus::Connecting || new_status
                == StreamStatus::Reconnecting ==> new.connected_at == was.connected_at
                && new.peer_address == was.peer_address
            &&& new.id == was.id
            &&& new.name == was.name
            &&& new.input_id == was.input_id
            &&& new.kind == was.kind
            &&& new.destination == was.destination
            &&& new.config == was.config
            &&& new.started_at == was.started_at
            &&& new.error_message == was.error_message
            &&& after[input_id] == (InputModel {
                outputs: after[input_id].outputs,
                ..streams[input_id]
            })
            &&& other_output != output_id && streams[input_id].outputs.contains_key(other_output)
                ==> after[input_id].outputs.contains_key(other_output)
                && after[input_id].outputs[other_output]
                == streams[input_id].outputs[other_output]
            &&& other != input_id && streams.contains_key(other) ==> after[other]
                == streams[other]
        }),
{
}

/// Of two notices for one stream the later one decides the state.
pub proof fn law_last_notice_decides(
    streams: Map<i64, InputModel>,
    input_id: i64,
    first: StateChange,
    new_status: StreamStatus,
    connected_at: Option<UnixNanos>,
    source_address: Option<String>,
)
    requires
        streams.contains_key(input_id),
    ensures
        after_notice(
            after_notice(streams, first),
            StateChange::InputStateChanged { input_id, new_status, connected_at, source_address },
        )[input_id].status == new_status,
{
}

/// The words that tell a stream in the labels of connection events: the label of its name, its
/// number, its protocol, its direction, what happened and the other end.
pub open spec fn event_labels(
    name: Option<String>,
    id: i64,
    protocol: Seq<char>,
    direction: Seq<char>,
    event: Seq<char>,
    address: Option<String>,
) -> Seq<Seq<char>> {
    seq![
        stream_label(name, id),
        signed_decimal(id as int),
        protocol,
        direction,
        event,
        match address {
            Some(a) => a@,
            None => "unknown"@,
        },
    ]
}

/// The protocol of an input in the labels of its metrics.
pub open spec fn protocol_word(config: CreateInputRequest) -> Seq<char> {
    if config is Udp {
        "udp"@
    } else if config is Srt {
        "srt"@
    } else {
        "spts"@
    }
}

/// A notice for an input counts an event exactly when the input comes to be connected, or ceases
/// to be; the event is the first update and names the input. How long the connection lasted is
/// recorded at most once, as the time from the one that the notice gives to now.
pub proof fn law_input_events_are_counted(
    streams: Map<i64, InputModel>,
    input_id: i64,
    new_status: StreamStatus,
    connected_at: Option<UnixNanos>,
    source_address: Option<String>,
    now: UnixNanos,
)
    requires
        streams.contains_key(input_id),
    ensures
        ({
            let i = streams[input_id];
            let u = notice_metrics(
                streams,
                StateChange::InputStateChanged {
                    input_id,
                    new_status,
                    connected_at,
                    source_address,
                },
                now,
            );
            let was = i.status == StreamStatus::Connected;
            let up = new_status == StreamStatus::Connected;
            &&& was == up ==> u.len() == 0
            &&& was != up ==> {
                &&& u.len() >= 2
                &&& u[0].metric == Metric::ConnectionEventsTotal
                &&& u[0].change == MetricChange::Increment
                &&& u[0].labels == event_labels(
                    i.name,
                    input_id,
                    protocol_word(i.config),
                    "input"@,
                    if up {
                        "connected"@
                    } else {
                        "disconnected"@
                    },
                    source_address,
                )
                &&& u[1].metric == Metric::ActiveConnections
                &&& u[1].labels == seq![
                    stream_label(i.name, input_id),
                    protocol_word(i.config),
                    "input"@,
                ]
                &&& u[1].change == (if up {
                    MetricChange::Increment
                } else {
                    MetricChange::Decrement
                })
            }
            &&& (u.len() == 3 <==> was && !up && connected_at is Some && connected_at->0 <= now)
            &&& u.len() <= 3
            &&& u.len() == 3 ==> u[2].metric == Metric::ConnectionDurations && u[2].change
                == MetricChange::Observe((now - connected_at->0) as u128) && u[2].labels
                == u[1].labels
        }),
{
}

/// A notice for an output counts events as one for an input does.
pub proof fn law_output_events_are_counted(
    streams: Map<i64, InputModel>,
    input_id: i64,
    output_id: i64,
    new_status: StreamStatus,
    connected_at: Option<UnixNanos>,
    peer_address: Option<String>,
    now: UnixNanos,
)
    requires
        streams.contains_key(input_id),
        streams[input_id].outputs.contains_key(output_id),
    ensures
        ({
            let o = streams[input_id].outputs[output_id];
            let protocol = if o.config is Udp {
                "udp"@
            } else {
                "srt"@
            };
            let u = notice_metrics(
                streams,
                StateChange::OutputStateChanged {
                    input_id,
                    output_id,
                    new_status,
                    connected_at,
                    peer_address,
                },
                now,
            );
            let was = o.status == StreamStatus::Connected;
            let up = new_status == StreamStatus::Connected;
            &&& was == up ==> u.len() == 0
            &&& was != up ==> {
                &&& u.len() >= 2
                &&& u[0].metric == Metric::ConnectionEventsTotal
                &&& u[0].change == MetricChange::Increment
                &&& u[0].labels == event_labels(
                    o.name,
                    output_id,
                    protocol,
                    "output"@,
                    if up {
                        "connected"@
                    } else {
                        "disconnected"@
                    },
                    peer_address,
                )
                &&& u[1].metric == Metric::ActiveConnections
                &&& u[1].labels == seq![stream_label(o.name, output_id), protocol, "output"@]
                &&& u[1].change == (if up {
                    MetricChange::Increment
                } else {
                    MetricChange::Decrement
                })
            }
            &&& (u.len() == 3 <==> was && !up && connected_at is Some && connected_at->0 <= now)
            &&& u.len() <= 3
            &&& u.len() == 3 ==> u[2].metric == Metric::ConnectionDurations && u[2].change
                == MetricChange::Observe((now - connected_at->0) as u128) && u[2].labels
                == u[1].labels
        }),
{
}

// ---------------------------------------------------------------- stopping and starting

/// An SRT output that starts again is made from the very configuration that it ran with: the
/// same address or port, passphrase, stream id, latency, bitrate and error correction.
pub proof fn law_restarted_srt_output_keeps_its_configuration(
    o: OutputInfo,
    again: OutputInfo,
    input_id: i64,
    output_id: i64,
    now: UnixNanos,
)
    requires
        o.config is Srt,
        is_restarted_output(again, input_id, output_id, o.config, now),
    ensures
        again.config is Srt,
        again.config->config == o.config->config,
        again.config->Srt_input_id == o.config->Srt_input_id,
        o.config.given_name() is Some ==> again.config == o.config,
        again.config->config.common_config() == o.config->config.common_config(),
        again.id == output_id,
        again.started_at == Some(now),
        again.status.active(),
        again.kind == (if o.config->config is Caller {
            OutputKind::SrtCaller
        } else {
            OutputKind::SrtListener
        }),
{
}

/// A UDP output that starts again sends where it sent, from the same local address, under the
/// same name and with the same multicast settings. Its destination is a host without a colon,
/// and a port, and it was given multicast settings exactly where the host is a group.
pub proof fn law_restarted_udp_output_keeps_its_configuration(
    o: OutputInfo,
    again: OutputInfo,
    input_id: i64,
    output_id: i64,
    host: Seq<char>,
    port: u16,
    name: Option<String>,
    bind_host: Option<String>,
    multicast: Option<MulticastOutputConfig>,
    then: UnixNanos,
    now: UnixNanos,
)
    requires
        is_udp_output(
            o,
            input_id,
            address_text(host, port),
            output_id,
            name,
            bind_host,
            multicast,
            then,
        ),
        forall|i: int| 0 <= i < host.len() ==> #[trigger] host[i] != ':',
        multicast is Some <==> is_multicast_text(host),
        is_restarted_output(again, input_id, output_id, o.config, now),
    ensures
        again.id == o.id,
        again.input_id == o.input_id,
        again.name == o.name,
        again.kind == OutputKind::Udp,
        again.destination@ == address_text(host, port),
        again.status == StreamStatus::Connected,
        again.started_at == Some(now),
        again.config is Udp,
        again.config->bind_host == bind_host,
        opt_text(again.config->destination_addr) == opt_text(o.config->destination_addr),
        again.config->multicast_ttl == o.config->multicast_ttl,
        again.config->multicast_interface == o.config->multicast_interface,
        again.config.given_name() == o.config.given_name(),
        udp_destination(again.config) == udp_destination(o.config),
{
    crate::text_laws::law_address_round_trip(host, port);
}

/// Stopping an output and starting it again leaves the input as it was but for the output: it
/// runs again under its number, made from its configuration, and is no longer among the stopped
/// ones. In between it does not run.
pub proof fn law_stop_then_start_output(
    was: InputModel,
    input_id: i64,
    output_id: i64,
    again: OutputInfo,
    now: UnixNanos,
)
    requires
        was.outputs.contains_key(output_id),
        !was.stopped.contains_key(output_id),
        is_restarted_output(
            again,
            input_id,
            output_id,
            without_output(was, output_id).stopped[output_id],
            now,
        ),
    ensures
        !without_output(was, output_id).outputs.contains_key(output_id),
        without_output(was, output_id).stopped.contains_key(output_id),
        without_output(was, output_id).status == was.status,
        ({
            let mid = without_output(was, output_id);
            InputModel {
                stopped: mid.stopped.remove(output_id),
                outputs: mid.outputs.insert(output_id, again),
                ..mid
            } == (InputModel { outputs: was.outputs.insert(output_id, again), ..was })
        }),
        was.outputs[output_id].config is Srt ==> again.config->config
            == was.outputs[output_id].config->config,
        again.id == output_id,
{
    let mid = without_output(was, output_id);
    assert(mid.stopped.remove(output_id) =~= was.stopped);
    assert(mid.outputs.insert(output_id, again) =~= was.outputs.insert(output_id, again));
}

/// A stopped input is at rest: neither it nor an output nor an analysis of it runs. What it is
/// made from, its name and its number stay. Every output that was active is kept with what it
/// is made from, and none is kept that was neither active nor stopped before.
pub proof fn law_stopped_input_is_at_rest(was: InputModel, output_id: i64)
    ensures
        ({
            let new = stopped_model(was);
            &&& new.status == StreamStatus::Stopped
            &&& !new.running
            &&& new.started_at is None
            &&& new.outputs.dom() == Set::<i64>::empty()
            &&& new.analyses.len() == 0
            &&& new.id == was.id
            &&& new.name == was.name
            &&& new.config == was.config
            &&& new.error_message == was.error_message
            &&& was.outputs.contains_key(output_id) && was.outputs[output_id].status.active()
                ==> new.stopped.contains_key(output_id) && new.stopped[output_id]
                == was.outputs[output_id].config
            &&& !(was.outputs.contains_key(output_id) && was.outputs[output_id].status.active())
                ==> new.stopped.contains_key(output_id) == was.stopped.contains_key(output_id) && (
            was.stopped.contains_key(output_id) ==> new.stopped[output_id]
                == was.stopped[output_id])
        }),
{
}

/// An input that was started runs: it is active since now, and nothing of it is stopped. What
/// it is made from, its name and its number stay. Every stopped output that can start runs,
/// made from what was kept of it, and every output that ran goes on unless it was stopped too.
pub proof fn law_started_input_runs(
    after: InputModel,
    before: InputModel,
    lookups: Map<i64, Lookup>,
    input_id: i64,
    now: UnixNanos,
    output_id: i64,
)
    requires
        is_started(after, before, lookups, input_id, now),
    ensures
        after.status == StreamStatus::Listening || after.status == StreamStatus::Connecting,
        after.status == StreamStatus::Connecting <==> (before.config matches
            CreateInputRequest::Srt { config, .. } && config is Caller),
        after.running,
        after.started_at == Some(now),
        after.stopped.dom() == Set::<i64>::empty(),
        after.id == before.id,
        after.name == before.name,
        after.config == before.config,
        after.error_message == before.error_message,
        before.stopped.contains_key(output_id) && (before.stopped[output_id] is Srt || (
        lookups.contains_key(output_id) && lookups[output_id] is Found)) ==> {
            &&& after.outputs.contains_key(output_id)
            &&& after.outputs[output_id].id == output_id
            &&& after.outputs[output_id].started_at == Some(now)
            &&& before.stopped[output_id] is Srt ==> after.outputs[output_id].config is Srt
                && after.outputs[output_id].config->config == before.stopped[output_id]->config
            &&& before.stopped[output_id] is Udp ==> after.outputs[output_id].destination@
                == udp_destination(before.stopped[output_id])
        },
        before.stopped.contains_key(output_id) && !(before.stopped[output_id] is Srt || (
        lookups.contains_key(output_id) && lookups[output_id] is Found))
            && !before.outputs.contains_key(output_id) ==> !after.outputs.contains_key(output_id),
        !before.stopped.contains_key(output_id) ==> after.outputs.contains_key(output_id)
            == before.outputs.contains_key(output_id) && (before.outputs.contains_key(output_id)
            ==> after.outputs[output_id] == before.outputs[output_id]),
{
    assert(after.stopped.dom() =~= Set::<i64>::empty());
    assert(outputs_restarted(
        after.outputs,
        before.outputs,
        before.stopped,
        lookups,
        input_id,
        now,
    ));
    if before.stopped.contains_key(output_id) && can_restart(
        before.stopped[output_id],
        lookups,
        output_id,
    ) {
        assert(after.outputs.contains_key(output_id));
    } else {
        assert(after.outputs.contains_key(output_id) == before.outputs.contains_key(output_id));
    }
}

/// Stopping an input and starting it again brings back each active SRT output with the very
/// settings that it ran with.
pub proof fn law_stop_then_start_keeps_srt_settings(
    before: InputModel,
    after: InputModel,
    lookups: Map<i64, Lookup>,
    input_id: i64,
    now: UnixNanos,
    output_id: i64,
)
    requires
        is_started(after, stopped_model(before), lookups, input_id, now),
        before.outputs.contains_key(output_id),
        before.outputs[output_id].status.active(),
        before.outputs[output_id].config is Srt,
    ensures
        after.outputs.contains_key(output_id),
        after.outputs[output_id].config is Srt,
        after.outputs[output_id].config->config == before.outputs[output_id].config->config,
        after.config == before.config,
        after.name == before.name,
{
    law_stopped_input_is_at_rest(before, output_id);
    law_started_input_runs(after, stopped_model(before), lookups, input_id, now, output_id);
}

// ---------------------------------------------------------------- new inputs

/// An input that was made from a request runs with what the request asks for, under the number
/// and the name that it was given, and nothing hangs on it.
pub proof fn law_spawned_input_follows_the_request(
    i: InputModel,
    req: CreateInputRequest,
    id: i64,
    name: Option<String>,
    now: UnixNanos,
)
    requires
        is_spawned_input(i, req, id, name, now),
    ensures
        i.id == id,
        i.running,
        i.started_at == Some(now),
        i.connected_at is None,
        i.outputs.dom() == Set::<i64>::empty(),
        i.stopped.dom() == Set::<i64>::empty(),
        i.analyses.len() == 0,
        i.paused.len() == 0,
        name is Some ==> opt_text(i.name) == opt_text(name),
        i.status == (if req matches CreateInputRequest::Srt { config, .. } && config is Caller {
            StreamStatus::Connecting
        } else {
            StreamStatus::Listening
        }),
        i.config.kind_key() == req.kind_key(),
        req matches CreateInputRequest::Udp { multicast_group, source_specific_multicast, .. } ==> {
            &&& i.config.bind_port_or_zero() == req.bind_port_or_zero()
            &&& i.config.host() == req.host()
            &&& i.config->multicast_group == multicast_group
            &&& i.config->source_specific_multicast == source_specific_multicast
        },
        req is Srt ==> i.config == req,
        req matches CreateInputRequest::Spts { source_input_id, program_number, fill_with_nulls, .. }
            ==> {
            &&& i.config->source_input_id == source_input_id
            &&& i.config->program_number == program_number
            &&& i.config->fill_with_nulls == Some(fill_with_nulls == Some(true))
        },
{
    assert(i.outputs.dom() =~= Set::<i64>::empty());
    assert(i.stopped.dom() =~= Set::<i64>::empty());
}

// ---------------------------------------------------------------- from the database

/// A UDP output whose row says that it is stopped is among the stopped outputs after the load,
/// under its number and its name, and would send to the destination of its row, which is a host
/// without a colon, and a port. It does not run, and the rest of the input is as before.
pub proof fn law_stopped_udp_outputs_come_back(
    before: Map<i64, InputModel>,
    after: Map<i64, InputModel>,
    d: OutputRowData,
    host: Seq<char>,
    port: u16,
    now: UnixNanos,
)
    requires
        before.contains_key(d.row.input_id),
        d.row.kind@ == "udp"@,
        d.row.status@ == "stopped"@,
        row_destination(d.row) == address_text(host, port),
        forall|i: int| 0 <= i < host.len() ==> #[trigger] host[i] != ':',
        output_row_loaded(before, d, now, after),
    ensures
        after.contains_key(d.row.input_id),
        ({
            let was = before[d.row.input_id];
            let new = after[d.row.input_id];
            &&& new.stopped.contains_key(d.row.id)
            &&& new.stopped[d.row.id] is Udp
            &&& udp_destination(new.stopped[d.row.id]) == address_text(host, port)
            &&& new.stopped[d.row.id].given_name() == d.row.name
            &&& new.stopped[d.row.id].of_input() == d.row.input_id
            &&& new.outputs == was.outputs
            &&& new == (InputModel { stopped: new.stopped, ..was })
        }),
        forall|id: i64|
            id != d.row.input_id && before.contains_key(id) ==> #[trigger] after[id] == before[id],
{
    let input_id = d.row.input_id;
    let was = before[input_id];
    let c = choose|c: CreateOutputRequest| #[trigger]
        is_kept_as(c, d) && after == before.insert(
            input_id,
            InputModel { stopped: was.stopped.insert(d.row.id, c), ..was },
        );
    crate::text_laws::law_address_round_trip(host, port);
    assert(after[input_id].stopped[d.row.id] == c);
}

/// An SRT output whose row says that it is stopped is among the stopped outputs after the load.
/// A configuration that reads is kept as it is; without one, a caller calls the destination of
/// its row and a listener listens on the port of its row.
pub proof fn law_stopped_srt_outputs_come_back(
    before: Map<i64, InputModel>,
    after: Map<i64, InputModel>,
    d: OutputRowData,
    host: Seq<char>,
    port: u16,
    now: UnixNanos,
)
    requires
        before.contains_key(d.row.input_id),
        d.row.kind@ == "srt_caller"@ || d.row.kind@ == "srt_listener"@,
        d.row.status@ == "stopped"@,
        forall|i: int| 0 <= i < host.len() ==> #[trigger] host[i] != ':',
        output_row_loaded(before, d, now, after),
    ensures
        after.contains_key(d.row.input_id),
        ({
            let was = before[d.row.input_id];
            let new = after[d.row.input_id];
            let kept = new.stopped[d.row.id];
            &&& new.stopped.contains_key(d.row.id)
            &&& kept is Srt
            &&& kept.given_name() == d.row.name
            &&& kept.of_input() == d.row.input_id
            &&& d.config is Some ==> kept->config == d.config->0
            &&& d.config is None && d.row.kind@ == "srt_caller"@ && row_destination(d.row)
                == address_text(host, port) ==> kept->config is Caller && kept.peer_host() == Some(
                host,
            ) && kept.peer_port() == Some(port)
            &&& d.config is None && d.row.kind@ == "srt_listener"@ ==> kept->config is Listener
                && kept.port() == (if d.row.listen_port is Some {
                d.row.listen_port
            } else {
                Some(8000u16)
            })
            &&& new == (InputModel { stopped: new.stopped, ..was })
        }),
{
    let input_id = d.row.input_id;
    let was = before[input_id];
    reveal_strlit("udp");
    reveal_strlit("srt_caller");
    reveal_strlit("srt_listener");
    assert("udp"@.len() == 3);
    assert("srt_caller"@.len() == 10);
    assert("srt_listener"@.len() == 12);
    let c = choose|c: CreateOutputRequest| #[trigger]
        is_kept_as(c, d) && after == before.insert(
            input_id,
            InputModel { stopped: was.stopped.insert(d.row.id, c), ..was },
        );
    crate::text_laws::law_address_round_trip(host, port);
    assert(after[input_id].stopped[d.row.id] == c);
}

/// A running output that comes back from its row runs under the number and the name of the row,
/// at the destination or on the port of the row, and with the SRT settings that were stored.
pub proof fn law_running_outputs_come_back(
    before: Map<i64, InputModel>,
    after: Map<i64, InputModel>,
    d: OutputRowData,
    host: Seq<char>,
    port: u16,
    now: UnixNanos,
)
    requires
        before.contains_key(d.row.input_id),
        d.row.status@ != "stopped"@,
        row_destination(d.row) == address_text(host, port),
        forall|i: int| 0 <= i < host.len() ==> #[trigger] host[i] != ':',
        output_row_loaded(before, d, now, after),
    ensures
        after.contains_key(d.row.input_id),
        after[d.row.input_id].stopped == before[d.row.input_id].stopped,
        d.row.kind@ == "udp"@ && crate::ip::is_socket_address(address_text(host, port)) && d.lookup
            is Found ==> {
            let o = after[d.row.input_id].outputs[d.row.id];
            &&& after[d.row.input_id].outputs.contains_key(d.row.id)
            &&& o.kind == OutputKind::Udp
            &&& o.destination@ == address_text(host, port)
            &&& o.id == d.row.id
            &&& d.row.name is Some ==> o.name == d.row.name
        },
        d.row.kind@ == "srt_caller"@ ==> {
            let o = after[d.row.input_id].outputs[d.row.id];
            &&& after[d.row.input_id].outputs.contains_key(d.row.id)
            &&& o.kind == OutputKind::SrtCaller
            &&& o.destination@ == address_text(host, port)
            &&& o.id == d.row.id
            &&& d.row.name is Some ==> o.name == d.row.name
            &&& o.config.peer_host() == Some(host)
            &&& o.config.peer_port() == Some(port)
            &&& d.common is Ok
            &&& o.config->config.common_config() == d.common->Ok_0
        },
        d.row.kind@ == "srt_listener"@ ==> {
            let o = after[d.row.input_id].outputs[d.row.id];
            &&& after[d.row.input_id].outputs.contains_key(d.row.id)
            &&& o.kind == OutputKind::SrtListener
            &&& o.id == d.row.id
            &&& d.row.name is Some ==> o.name == d.row.name
            &&& o.config.port() == d.row.listen_port
            &&& d.common is Ok
            &&& o.config->config.common_config() == d.common->Ok_0
        },
{
    reveal_strlit("udp");
    reveal_strlit("srt_caller");
    reveal_strlit("srt_listener");
    assert("udp"@.len() == 3);
    assert("srt_caller"@.len() == 10);
    assert("srt_listener"@.len() == 12);
    crate::text_laws::law_address_round_trip(host, port);
}

/// A row of an input that can be read gives an input under its number and its name, which runs
/// unless the row says that it is stopped, and is made from the stored configuration: a UDP
/// input from the whole of it, an SRT input from its SRT side. No other input changes.
pub proof fn law_rows_give_their_inputs(
    before: Map<i64, InputModel>,
    after: Map<i64, InputModel>,
    d: InputRowData,
    now: UnixNanos,
    other: i64,
)
    requires
        d.row.kind@ == "udp"@ || d.row.kind@ == "srt_listener"@ || d.row.kind@ == "srt_caller"@,
        input_row_loaded(before, d, now, after),
    ensures
        after.contains_key(d.row.id),
        after[d.row.id].id == d.row.id,
        d.row.name is Some ==> opt_text(after[d.row.id].name) == opt_text(d.row.name),
        d.row.name is None && (d.row.kind@ != "udp"@ || d.request matches Ok(
            CreateInputRequest::Udp { .. },
        )) ==> after[d.row.id].name is None,
        after[d.row.id].running == (d.row.status@ != "stopped"@),
        d.row.status@ == "stopped"@ ==> after[d.row.id].status == StreamStatus::Stopped,
        d.row.status@ != "stopped"@ ==> after[d.row.id].status.active(),
        d.row.kind@ == "udp"@ && d.row.status@ == "stopped"@ ==> d.request is Ok
            && after[d.row.id].config == d.request->Ok_0,
        d.row.kind@ == "udp"@ && (d.request matches Ok(CreateInputRequest::Udp { .. }))
            ==> after[d.row.id].config.bind_port_or_zero() == d.request->Ok_0.bind_port_or_zero()
            && after[d.row.id].config.host() == d.request->Ok_0.host(),
        d.row.kind@ != "udp"@ ==> d.srt is Ok && (after[d.row.id].config matches
            CreateInputRequest::Srt { config, .. } && config == d.srt->Ok_0),
        other != d.row.id ==> after.contains_key(other) == before.contains_key(other) && (
        before.contains_key(other) ==> after[other] == before[other]),
{
}

} // verus!
