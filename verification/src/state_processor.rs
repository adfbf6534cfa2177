//! What a change of a stream's state does to the gateway's knowledge and to the metrics.
use vstd::prelude::*;
use crate::clock::{elapsed, elapsed_nanos, UnixNanos};
use crate::metrics::{
    connection_event_update, connection_update, record_connection_duration_event,
    record_connection_event, update_active_connections, updates, Metric, MetricChange,
    MetricUpdate, MetricUpdateModel,
};
use crate::requests::{CreateInputRequest, CreateOutputRequest};
use crate::status::{StateChange, StreamStatus};
use crate::streams::{models, InputInfo, InputModel, InputsMap, OutputInfo};

verus! {

/// The word for the protocol of an input.
pub open spec fn input_protocol(config: CreateInputRequest) -> Seq<char> {
    match config {
        CreateInputRequest::Udp { .. } => "udp"@,
        CreateInputRequest::Srt { .. } => "srt"@,
        CreateInputRequest::Spts { .. } => "spts"@,
    }
}

/// The word for the protocol of an output.
pub open spec fn output_protocol(config: CreateOutputRequest) -> Seq<char> {
    match config {
        CreateOutputRequest::Udp { .. } => "udp"@,
        CreateOutputRequest::Srt { .. } => "srt"@,
    }
}

/// The word for the protocol of an input.
pub fn get_input_stream_type(input_info: &InputInfo) -> (r: &'static str)
    ensures
        r@ == input_protocol(input_info.config),
{
    match &input_info.config {
        CreateInputRequest::Udp { .. } => "udp",
        CreateInputRequest::Srt { .. } => "srt",
        CreateInputRequest::Spts { .. } => "spts",
    }
}

/// The word for the protocol of an output.
pub fn get_output_stream_type(output_info: &OutputInfo) -> (r: &'static str)
    ensures
        r@ == output_protocol(output_info.config),
{
    match &output_info.config {
        CreateOutputRequest::Udp { .. } => "udp",
        CreateOutputRequest::Srt { .. } => "srt",
    }
}

/// What is known of the other end after a change of state: a connection brings it, the end of
/// activity clears it, and states in between leave it.
pub open spec fn after_change<A>(
    new_status: StreamStatus,
    given: Option<A>,
    known: Option<A>,
) -> Option<A> {
    if new_status.connected() {
        given
    } else if !new_status.active() {
        None
    } else {
        known
    }
}

/// An input after a change of its state.
pub open spec fn changed_input(
    i: InputModel,
    new_status: StreamStatus,
    connected_at: Option<UnixNanos>,
    source_address: Option<String>,
) -> InputModel {
    InputModel {
        status: new_status,
        connected_at: after_change(new_status, connected_at, i.connected_at),
        source_address: after_change(new_status, source_address, i.source_address),
        ..i
    }
}

/// An output after a change of its state.
pub open spec fn changed_output(
    o: OutputInfo,
    new_status: StreamStatus,
    connected_at: Option<UnixNanos>,
    peer_address: Option<String>,
) -> OutputInfo {
    OutputInfo {
        status: new_status,
        connected_at: after_change(new_status, connected_at, o.connected_at),
        peer_address: after_change(new_status, peer_address, o.peer_address),
        ..o
    }
}

/// The metrics that a change of state touches: coming up counts an event and a connection,
/// going away counts an event, one connection less and how long it lasted, where the notice
/// tells since when. All else touches none.
pub open spec fn connection_metrics(
    name: Option<String>,
    id: i64,
    protocol: Seq<char>,
    direction: Seq<char>,
    old_status: StreamStatus,
    new_status: StreamStatus,
    connected_at: Option<UnixNanos>,
    address: Option<String>,
    now: UnixNanos,
) -> Seq<MetricUpdateModel> {
    if new_status.connected() && !old_status.connected() {
        seq![
            connection_event_update(name, id, protocol, direction, "connected"@, address),
            connection_update(
                Metric::ActiveConnections,
                name,
                id,
                protocol,
                direction,
                MetricChange::Increment,
            ),
        ]
    } else if old_status.connected() && !new_status.connected() {
        let gone = seq![
            connection_event_update(name, id, protocol, direction, "disconnected"@, address),
            connection_update(
                Metric::ActiveConnections,
                name,
                id,
                protocol,
                direction,
                MetricChange::Decrement,
            ),
        ];
        match connected_at {
            Some(t) => match elapsed(t, now) {
                Some(d) => gone.push(
                    connection_update(
                        Metric::ConnectionDurations,
                        name,
                        id,
                        protocol,
                        direction,
                        MetricChange::Observe(d),
                    ),
                ),
                None => gone,
            },
            None => gone,
        }
    } else {
        Seq::empty()
    }
}

fn connection_changes(
    name: &Option<String>,
    id: i64,
    protocol: &str,
    direction: &str,
    old_status: StreamStatus,
    new_status: StreamStatus,
    connected_at: Option<UnixNanos>,
    address: &Option<String>,
    now: UnixNanos,
) -> (r: Vec<MetricUpdate>)
    ensures
        updates(r@) == connection_metrics(
            *name,
            id,
            protocol@,
            direction@,
            old_status,
            new_status,
            connected_at,
            *address,
            now,
        ),
{
    let mut r: Vec<MetricUpdate> = Vec::new();
    if new_status.is_connected() && !old_status.is_connected() {
        r.push(record_connection_event(name, id, protocol, direction, "connected", address));
        r.push(update_active_connections(name, id, protocol, direction, true));
    } else if old_status.is_connected() && !new_status.is_connected() {
        r.push(record_connection_event(name, id, protocol, direction, "disconnected", address));
        r.push(update_active_connections(name, id, protocol, direction, false));
        if let Some(t) = connected_at {
            if let Some(d) = elapsed_nanos(t, now) {
                r.push(record_connection_duration_event(name, id, protocol, direction, d));
            }
        }
    }
    assert(updates(r@) =~= connection_metrics(
        *name,
        id,
        protocol@,
        direction@,
        old_status,
        new_status,
        connected_at,
        *address,
        now,
    ));
    r
}

/// All inputs after the state of one of them changed.
pub open spec fn after_input_change(
    streams: Map<i64, InputModel>,
    input_id: i64,
    new_status: StreamStatus,
    connected_at: Option<UnixNanos>,
    source_address: Option<String>,
) -> Map<i64, InputModel> {
    if streams.contains_key(input_id) {
        streams.insert(
            input_id,
            changed_input(streams[input_id], new_status, connected_at, source_address),
        )
    } else {
        streams
    }
}

/// The metrics that a change of an input's state touches.
pub open spec fn input_change_metrics(
    streams: Map<i64, InputModel>,
    input_id: i64,
    new_status: StreamStatus,
    connected_at: Option<UnixNanos>,
    source_address: Option<String>,
    now: UnixNanos,
) -> Seq<MetricUpdateModel> {
    if streams.contains_key(input_id) {
        let i = streams[input_id];
        connection_metrics(
            i.name,
            input_id,
            input_protocol(i.config),
            "input"@,
            i.status,
            new_status,
            connected_at,
            source_address,
            now,
        )
    } else {
        Seq::empty()
    }
}

/// All inputs after the state of an output changed.
pub open spec fn after_output_change(
    streams: Map<i64, InputModel>,
    input_id: i64,
    output_id: i64,
    new_status: StreamStatus,
    connected_at: Option<UnixNanos>,
    peer_address: Option<String>,
) -> Map<i64, InputModel> {
    if streams.contains_key(input_id) && streams[input_id].outputs.contains_key(output_id) {
        let i = streams[input_id];
        let o = changed_output(i.outputs[output_id], new_status, connected_at, peer_address);
        streams.insert(input_id, InputModel { outputs: i.outputs.insert(output_id, o), ..i })
    } else {
        streams
    }
}

/// The metrics that a change of an output's state touches.
pub open spec fn output_change_metrics(
    streams: Map<i64, InputModel>,
    input_id: i64,
    output_id: i64,
    new_status: StreamStatus,
    connected_at: Option<UnixNanos>,
    peer_address: Option<String>,
    now: UnixNanos,
) -> Seq<MetricUpdateModel> {
    if streams.contains_key(input_id) && streams[input_id].outputs.contains_key(output_id) {
        let o = streams[input_id].outputs[output_id];
        connection_metrics(
            o.name,
            output_id,
            output_protocol(o.config),
            "output"@,
            o.status,
            new_status,
            connected_at,
            peer_address,
            now,
        )
    } else {
        Seq::empty()
    }
}

/// Take note of a change of an input's state.
pub fn handle_input_state_change(
    streams: &mut InputsMap,
    input_id: i64,
    new_status: StreamStatus,
    connected_at: Option<UnixNanos>,
    source_address: Option<String>,
    now: UnixNanos,
) -> (r: Vec<MetricUpdate>)
    ensures
        models(final(streams)@) == after_input_change(
            models(old(streams)@),
            input_id,
            new_status,
            connected_at,
            source_address,
        ),
        updates(r@) == input_change_metrics(
            models(old(streams)@),
            input_id,
            new_status,
            connected_at,
            source_address,
            now,
        ),
{
    broadcast use vstd::std_specs::hash::group_hash_axioms;

    let ghost before = streams@;
    match streams.remove(&input_id) {
        Some(mut info) => {
            let ghost was = info@;
            assert(models(before)[input_id] == was);
            let old_status = info.status;
            let r = connection_changes(
                &info.name,
                input_id,
                get_input_stream_type(&info),
                "input",
                old_status,
                new_status,
                connected_at,
                &source_address,
                now,
            );
            info.status = new_status;
            if new_status.is_connected() {
                info.connected_at = connected_at;
                info.source_address = source_address;
            } else if !new_status.is_active() {
                info.connected_at = None;
                info.source_address = None;
            }
            assert(info@ =~= changed_input(was, new_status, connected_at, source_address));
            streams.insert(input_id, info);
            assert(models(streams@) =~= models(before).insert(input_id, info@));
            r
        },
        None => {
            assert(models(streams@) =~= models(before));
            let r: Vec<MetricUpdate> = Vec::new();
            assert(updates(r@) =~= Seq::<MetricUpdateModel>::empty());
            r
        },
    }
}

/// Take note of a change of an output's state.
pub fn handle_output_state_change(
    streams: &mut InputsMap,
    input_id: i64,
    output_id: i64,
    new_status: StreamStatus,
    connected_at: Option<UnixNanos>,
    peer_address: Option<String>,
    now: UnixNanos,
) -> (r: Vec<MetricUpdate>)
    ensures
        models(final(streams)@) == after_output_change(
            models(old(streams)@),
            input_id,
            output_id,
            new_status,
            connected_at,
            peer_address,
        ),
        updates(r@) == output_change_metrics(
            models(old(streams)@),
            input_id,
            output_id,
            new_status,
            connected_at,
            peer_address,
            now,
        ),
{
    broadcast use vstd::std_specs::hash::group_hash_axioms;

    let ghost before = streams@;
    let mut r: Vec<MetricUpdate> = Vec::new();
    assert(updates(r@) =~= Seq::<MetricUpdateModel>::empty());
    match streams.remove(&input_id) {
        Some(mut info) => {
            let ghost was = info@;
            assert(models(before)[input_id] == was);
            match info.output_tasks.remove(&output_id) {
                Some(mut output) => {
                    let ghost had = output;
                    let old_status = output.status;
                    r = connection_changes(
                        &output.name,
                        output_id,
                        get_output_stream_type(&output),
                        "output",
                        old_status,
                        new_status,
                        connected_at,
                        &peer_address,
                        now,
                    );
                    output.status = new_status;
                    if new_status.is_connected() {
                        output.connected_at = connected_at;
                        output.peer_address = peer_address;
                    } else if !new_status.is_active() {
                        output.connected_at = None;
                        output.peer_address = None;
                    }
                    assert(output == changed_output(had, new_status, connected_at, peer_address));
                    info.output_tasks.insert(output_id, output);
                    assert(info@.outputs =~= was.outputs.insert(output_id, output));
                },
                None => {
                    assert(info@.outputs =~= was.outputs);
                },
            }
            assert(info@ =~= (InputModel { outputs: info@.outputs, ..was }));
            streams.insert(input_id, info);
            assert(models(streams@) =~= after_output_change(
                models(before),
                input_id,
                output_id,
                new_status,
                connected_at,
                peer_address,
            ));
        },
        None => {
            assert(models(streams@) =~= models(before));
        },
    }
    r
}

/// All inputs after a notice.
pub open spec fn after_notice(streams: Map<i64, InputModel>, change: StateChange) -> Map<
    i64,
    InputModel,
> {
    match change {
        StateChange::InputStateChanged { input_id, new_status, connected_at, source_address } =>
            after_input_change(streams, input_id, new_status, connected_at, source_address),
        StateChange::OutputStateChanged {
            input_id,
            output_id,
            new_status,
            connected_at,
            peer_address,
        } => after_output_change(
            streams,
            input_id,
            output_id,
            new_status,
            connected_at,
            peer_address,
        ),
    }
}

/// The metrics that a notice touches.
pub open spec fn notice_metrics(
    streams: Map<i64, InputModel>,
    change: StateChange,
    now: UnixNanos,
) -> Seq<MetricUpdateModel> {
    match change {
        StateChange::InputStateChanged { input_id, new_status, connected_at, source_address } =>
            input_change_metrics(
            streams,
            input_id,
            new_status,
            connected_at,
            source_address,
            now,
        ),
        StateChange::OutputStateChanged {
            input_id,
            output_id,
            new_status,
            connected_at,
            peer_address,
        } => output_change_metrics(
            streams,
            input_id,
            output_id,
            new_status,
            connected_at,
            peer_address,
            now,
        ),
    }
}

/// Take note of a change of a stream's state.
pub fn process_state_change(
    streams: &mut InputsMap,
    change: StateChange,
    now: UnixNanos,
) -> (r: Vec<MetricUpdate>)
    ensures
        models(final(streams)@) == after_notice(models(old(streams)@), change),
        updates(r@) == notice_metrics(models(old(streams)@), change, now),
{
    match change {
        StateChange::InputStateChanged { input_id, new_status, connected_at, source_address } =>
            handle_input_state_change(
            streams,
            input_id,
            new_status,
            connected_at,
            source_address,
            now,
        ),
        StateChange::OutputStateChanged {
            input_id,
            output_id,
            new_status,
            connected_at,
            peer_address,
        } => handle_output_state_change(
            streams,
            input_id,
            output_id,
            new_status,
            connected_at,
            peer_address,
            now,
        ),
    }
}

// ---------------------------------------------------------------- laws

/// Number of connections that a list of updates adds to the gauge of active connections.
pub open spec fn connections_added(u: Seq<MetricUpdateModel>) -> int
    decreases u.len(),
{
    if u.len() == 0 {
        0
    } else {
        connections_added(u.drop_last()) + (if u.last().metric == Metric::ActiveConnections {
            match u.last().change {
                MetricChange::Increment => 1int,
                MetricChange::Decrement => -1int,
                _ => 0int,
            }
        } else {
            0
        })
    }
}

/// One for a connected stream, zero for any other.
pub open spec fn connected_count(s: StreamStatus) -> int {
    if s.connected() {
        1
    } else {
        0
    }
}

proof fn lemma_connections_added(
    name: Option<String>,
    id: i64,
    protocol: Seq<char>,
    direction: Seq<char>,
    old_status: StreamStatus,
    new_status: StreamStatus,
    connected_at: Option<UnixNanos>,
    address: Option<String>,
    now: UnixNanos,
)
    ensures
        connections_added(
            connection_metrics(
                name,
                id,
                protocol,
                direction,
                old_status,
                new_status,
                connected_at,
                address,
                now,
            ),
        ) == connected_count(new_status) - connected_count(old_status),
{
    let u = connection_metrics(
        name,
        id,
        protocol,
        direction,
        old_status,
        new_status,
        connected_at,
        address,
        now,
    );
    reveal_with_fuel(connections_added, 4);
    if u.len() == 3 {
        assert(u.drop_last() =~= seq![u[0], u[1]]);
        assert(u.drop_last().drop_last() =~= seq![u[0]]);
        assert(u.drop_last().drop_last().drop_last() =~= Seq::<MetricUpdateModel>::empty());
    } else if u.len() == 2 {
        assert(u.drop_last() =~= seq![u[0]]);
        assert(u.drop_last().drop_last() =~= Seq::<MetricUpdateModel>::empty());
    }
}

/// The gauge of active connections follows the states: a notice for a known stream adds one
/// when the stream comes to be connected, takes one away when it ceases to be, and leaves the
/// gauge alone otherwise.
pub proof fn law_gauge_follows_connections(
    streams: Map<i64, InputModel>,
    change: StateChange,
    now: UnixNanos,
)
    ensures
        match change {
            StateChange::InputStateChanged { input_id, new_status, .. } => streams.contains_key(
                input_id,
            ) ==> connections_added(notice_metrics(streams, change, now)) == connected_count(
                new_status,
            ) - connected_count(streams[input_id].status),
            StateChange::OutputStateChanged { input_id, output_id, new_status, .. } =>
                streams.contains_key(input_id) && streams[input_id].outputs.contains_key(output_id)
                ==> connections_added(notice_metrics(streams, change, now)) == connected_count(
                new_status,
            ) - connected_count(streams[input_id].outputs[output_id].status),
        },
{
    match change {
        StateChange::InputStateChanged { input_id, new_status, connected_at, source_address } => {
            let i = streams[input_id];
            lemma_connections_added(
                i.name,
                input_id,
                input_protocol(i.config),
                "input"@,
                i.status,
                new_status,
                connected_at,
                source_address,
                now,
            );
        },
        StateChange::OutputStateChanged {
            input_id,
            output_id,
            new_status,
            connected_at,
            peer_address,
        } => {
            let o = streams[input_id].outputs[output_id];
            lemma_connections_added(
                o.name,
                output_id,
                output_protocol(o.config),
                "output"@,
                o.status,
                new_status,
                connected_at,
                peer_address,
                now,
            );
        },
    }
}

/// A notice for a stream that is not known changes nothing and touches no metric.
pub proof fn law_unknown_streams_are_ignored(
    streams: Map<i64, InputModel>,
    change: StateChange,
    now: UnixNanos,
)
    requires
        match change {
            StateChange::InputStateChanged { input_id, .. } => !streams.contains_key(input_id),
            StateChange::OutputStateChanged { input_id, output_id, .. } => !(streams.contains_key(
                input_id,
            ) && streams[input_id].outputs.contains_key(output_id)),
        },
    ensures
        after_notice(streams, change) == streams,
        notice_metrics(streams, change, now) == Seq::<MetricUpdateModel>::empty(),
{
}

/// A notice never makes or loses a stream: the inputs, their outputs, what is stopped and what
/// is analysed stay the same.
pub proof fn law_notices_keep_streams(
    streams: Map<i64, InputModel>,
    change: StateChange,
    k: i64,
)
    ensures
        after_notice(streams, change).dom() == streams.dom(),
        streams.contains_key(k) ==> {
            let was = streams[k];
            let is = after_notice(streams, change)[k];
            &&& is.outputs.dom() == was.outputs.dom()
            &&& is.stopped == was.stopped
            &&& is.config == was.config
            &&& is.analyses == was.analyses
            &&& is.paused == was.paused
        },
{
    assert(after_notice(streams, change).dom() =~= streams.dom());
    if streams.contains_key(k) {
        assert(after_notice(streams, change)[k].outputs.dom() =~= streams[k].outputs.dom());
    }
}

/// Nothing is known of the other end of an input after a notice that ends its activity.
pub proof fn law_inactive_inputs_have_no_peer(
    streams: Map<i64, InputModel>,
    input_id: i64,
    new_status: StreamStatus,
    connected_at: Option<UnixNanos>,
    source_address: Option<String>,
)
    requires
        streams.contains_key(input_id),
        !new_status.active(),
    ensures
        ({
            let i = after_input_change(
                streams,
                input_id,
                new_status,
                connected_at,
                source_address,
            )[input_id];
            i.connected_at is None && i.source_address is None
        }),
{
}

} // verus!
