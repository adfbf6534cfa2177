//! Laws of what clients and the metrics are told.
use vstd::prelude::*;
use crate::analysis::{
    expiry, minutes_left, refusal, shows_analysis, timeout_fits, ActiveAnalysis,
    AnalysisStatusResponse,
};
use crate::clock::{connection_uptime, rfc3339, time_text, UnixNanos};
use crate::deletion::removal_metrics;
use crate::listing::{
    lists_input, lists_outputs_of, overview_input, overview_outputs, overview_running,
    overview_stopped, shown_input_type, shows_input, shows_outputs, shows_running, shows_stopped,
    StoredInput, StoredOutput,
};
use crate::loading::{inputs_more, outputs_more};
use crate::maps::lists_keys;
use crate::metrics::{
    bare_update, connection_event_update, connection_update, error_update, input_update,
    output_update, srt_labels, srt_values, stream_label, Metric, MetricChange, MetricUpdateModel,
    SrtStats,
};
use crate::naming::MulticastOutputConfig;
use crate::report::{
    shows_program, tr101_data, CodecData, CodecInfo, InspectedErrors, InspectedProgram, ProgramData,
};
use crate::requests::{CreateInputRequest, CreateOutputRequest, SrtOutputConfig};
use crate::responses::{
    InputDetailResponse, InputListResponse, InputResponse, OutputDetailResponse, OutputListResponse,
    OutputResponse,
};
use crate::status::{AnalysisType, StreamStatus};
use crate::stream_control::{start_metrics, start_output_refusal, stop_output_refusal};
use crate::streams::{is_srt_output, is_udp_output, InputModel, OutputInfo};
use crate::task_laws::added;
use crate::text::{address_text, opt_text, signed_decimal};

verus! {

// ---------------------------------------------------------------- time

/// A point in time is written by its whole seconds since the epoch and the nanoseconds that are
/// left; one before the epoch is unknown.
pub proof fn law_times_are_written_in_seconds(secs: i64, nanos: u32, t: UnixNanos)
    requires
        0 <= secs,
        nanos < 1_000_000_000,
        t == secs * 1_000_000_000 + nanos,
    ensures
        time_text(t) == rfc3339(secs, nanos),
{
}

/// Times before the epoch are unknown.
pub proof fn law_times_before_the_epoch_are_unknown(t: UnixNanos)
    ensures
        t < 0 ==> time_text(t) == "unknown"@,
{
}

/// The uptime of a connected stream is the whole seconds since its connection was made; other
/// streams have none, nor has one whose connection is in the future.
pub proof fn law_uptime_counts_whole_seconds(
    status: StreamStatus,
    since: UnixNanos,
    now: UnixNanos,
    secs: u64,
)
    ensures
        connection_uptime(StreamStatus::Connected, Some(since), now) is Some <==> since <= now,
        connection_uptime(status, Some(since), now) == Some(secs) && secs < u64::MAX ==> secs
            * 1_000_000_000 <= now - since < (secs + 1) * 1_000_000_000,
        status != StreamStatus::Connected ==> connection_uptime(status, Some(since), now) is None,
        connection_uptime(status, None, now) is None,
{
}

/// The uptime grows by one second each second.
pub proof fn law_uptime_goes_with_the_clock(since: UnixNanos, now: UnixNanos, later: u32)
    requires
        since <= now,
        now - since <= 0xffff_ffff * 1_000_000_000,
        now <= 0xffff_ffff_ffff_ffff * 1_000_000_000,
    ensures
        ({
            let t = (now + later * 1_000_000_000) as UnixNanos;
            let a = connection_uptime(StreamStatus::Connected, Some(since), now);
            let b = connection_uptime(StreamStatus::Connected, Some(since), t);
            a is Some && b is Some && b->0 == a->0 + later
        }),
{
}

// ---------------------------------------------------------------- analyses

/// An analysis with a timeout expires that many minutes after it began; one without never does.
pub proof fn law_analyses_expire_after_their_minutes(now: UnixNanos, minutes: u64)
    requires
        timeout_fits(now, Some(minutes)),
    ensures
        expiry(now, Some(minutes)) is Some,
        expiry(now, Some(minutes))->0 - now == minutes * 60_000_000_000,
        expiry(now, None) is None,
        minutes_left(now, expiry(now, Some(minutes))->0) == minutes,
{
    assert(minutes * 60 * 1_000_000_000 == minutes * 60_000_000_000);
    assert((minutes * 60_000_000_000) / 1_000_000_000 == minutes * 60);
}

/// What is left of an analysis is counted in whole minutes, none once it has expired.
pub proof fn law_minutes_left_are_whole(now: UnixNanos, end: UnixNanos)
    requires
        end - now <= 0xffff_ffff_ffff_ffff * 1_000_000_000,
    ensures
        now <= end ==> minutes_left(now, end) * 60_000_000_000 <= end - now < (minutes_left(
            now,
            end,
        ) + 1) * 60_000_000_000,
        end < now ==> minutes_left(now, end) == 0,
{
}

/// An analysis is shown with its own identifier, under a word that reads back as its kind, and
/// with an end exactly if it has one.
pub proof fn law_analyses_are_shown_as_they_are(
    r: AnalysisStatusResponse,
    a: ActiveAnalysis,
    input_id: i64,
    now: UnixNanos,
)
    requires
        shows_analysis(r, a, input_id, now),
    ensures
        r.id == a.0,
        AnalysisType::of_text(r.analysis_type@) == Some(a.1),
        r.input_id == input_id,
        r.created_at@ == time_text(a.2),
        r.timeout_minutes == a.3,
        r.expires_at is Some <==> a.4 is Some,
        r.remaining_minutes is Some <==> a.4 is Some,
        a.4 matches Some(t) ==> opt_text(r.expires_at) == Some(time_text(t)),
{
    crate::status::law_analysis_text_round_trip(a.1);
}

/// An analysis can begin exactly if its input is known and none of its kind runs there.
pub proof fn law_analyses_begin_once(
    streams: Map<i64, InputModel>,
    input_id: i64,
    kind: AnalysisType,
)
    ensures
        refusal(streams, input_id, kind) is None <==> streams.contains_key(input_id) && (forall|
            k: int,
        |
            0 <= k < streams[input_id].analyses.len() ==> (
            #[trigger] streams[input_id].analyses[k]).analysis_type != kind),
{
}

// ---------------------------------------------------------------- states

/// A stream is active unless it was stopped or has failed, and connected in one state alone.
pub proof fn law_states_are_told_apart(s: StreamStatus)
    ensures
        s.active() <==> s != StreamStatus::Stopped && s != StreamStatus::Error,
        s.connected() <==> s == StreamStatus::Connected,
{
}

// ---------------------------------------------------------------- refusals

/// An output can be started exactly if its input is known and not stopped and the output is
/// among those that are.
pub proof fn law_outputs_start_iff_they_are_stopped(
    streams: Map<i64, InputModel>,
    input_id: i64,
    output_id: i64,
)
    ensures
        start_output_refusal(streams, input_id, output_id) is None <==> streams.contains_key(
            input_id,
        ) && streams[input_id].status != StreamStatus::Stopped
            && streams[input_id].stopped.contains_key(output_id),
{
}

/// An output can be stopped exactly if it runs.
pub proof fn law_outputs_stop_iff_they_run(
    streams: Map<i64, InputModel>,
    input_id: i64,
    output_id: i64,
)
    ensures
        stop_output_refusal(streams, input_id, output_id) is None <==> streams.contains_key(
            input_id,
        ) && streams[input_id].outputs.contains_key(output_id),
{
}

// ---------------------------------------------------------------- lists

/// An input is shown under its own number, by a word that reads back as its state, with the peer
/// and the error that it has, and with an uptime only while it is connected.
pub proof fn law_inputs_are_shown_as_they_are(
    d: InputDetailResponse,
    e: InputListResponse,
    v: InputResponse,
    id: i64,
    i: InputModel,
    row: Option<StoredInput>,
    stored: Map<i64, StoredOutput>,
    texts: Map<i64, String>,
    now: UnixNanos,
)
    ensures
        shows_input(d, id, i, row, stored, texts, now) ==> {
            &&& d.id == id
            &&& d.name == i.name
            &&& StreamStatus::of_text(d.status@) == Some(i.status)
            &&& d.source_address == i.source_address
            &&& d.error_message == i.error_message
            &&& d.uptime_seconds is Some ==> i.status == StreamStatus::Connected
                && i.connected_at is Some
            &&& d.outputs@.len() == i.outputs.dom().len() + i.stopped.dom().len()
            &&& row matches Some(s) ==> d.config == Some(s.row.config_json)
            &&& row is None ==> d.config is None && d.assigned_port is None
        },
        lists_input(e, id, i, row, now) ==> {
            &&& e.id == id
            &&& e.name == i.name
            &&& StreamStatus::of_text(e.status@) == Some(i.status)
            &&& e.output_count == i.outputs.dom().len()
            &&& e.source_address == i.source_address
            &&& e.error_message == i.error_message
            &&& e.uptime_seconds is Some ==> i.status == StreamStatus::Connected
            &&& i.config.port() matches Some(p) ==> p != 0 ==> e.assigned_port == Some(p)
        },
        overview_input(v, id, i, now) ==> {
            &&& v.id == id
            &&& v.name == i.name
            &&& StreamStatus::of_text(v.status@) == Some(i.status)
            &&& v.source_address == i.source_address
            &&& v.error_message == i.error_message
            &&& v.uptime_seconds is Some ==> i.status == StreamStatus::Connected
            &&& v.outputs@.len() == i.outputs.dom().len() + i.stopped.dom().len()
            &&& i.config.port() matches Some(p) ==> p != 0 ==> v.assigned_port == Some(p)
        },
        shows_input(d, id, i, row, stored, texts, now) && lists_input(e, id, i, row, now)
            && overview_input(v, id, i, now) ==> {
            &&& d.status@ == e.status@ && e.status@ == v.status@
            &&& d.uptime_seconds == e.uptime_seconds && e.uptime_seconds == v.uptime_seconds
            &&& d.input_type@ == e.input_type@
            &&& d.outputs@.len() == v.outputs@.len()
        },
{
    crate::status::law_status_text_round_trip(i.status);
}

/// An input is shown as of the kind that its row in the database names.
pub proof fn law_inputs_are_shown_by_their_rows(row: StoredInput, req: CreateInputRequest)
    requires
        row.row.kind@ == req.kind_key(),
    ensures
        req is Udp ==> shown_input_type(Some(row)) == "UDP Listener"@,
        req is Srt && req->config is Listener ==> shown_input_type(Some(row)) == "SRT Listener"@,
        req is Srt && req->config is Caller ==> shown_input_type(Some(row)) == "SRT Caller"@,
        req is Spts ==> shown_input_type(Some(row)) == "SPTS Filter"@,
{
    crate::request_laws::law_input_kinds_have_their_own_words(req);
}

/// An output that runs is shown as it is: by its number and the input that it hangs on, where it
/// sends, with a word that reads back as its state; and the same in full as in the overview.
pub proof fn law_running_outputs_are_shown_as_they_are(
    d: OutputDetailResponse,
    v: OutputResponse,
    id: i64,
    input_id: i64,
    o: OutputInfo,
    stored: Map<i64, StoredOutput>,
    now: UnixNanos,
)
    requires
        shows_running(d, id, input_id, o, stored, now),
        overview_running(v, id, input_id, o, now),
    ensures
        d.id == id && v.id == id,
        d.input_id == input_id && v.input_id == input_id,
        d.name == o.name && v.name == o.name,
        d.destination == o.destination && v.destination == o.destination,
        StreamStatus::of_text(d.status@) == Some(o.status),
        v.status@ == d.status@,
        v.output_type@ == d.output_type@,
        d.output_type@ == o.kind.key(),
        d.peer_address == o.peer_address && v.peer_address == o.peer_address,
        d.error_message == o.error_message && v.error_message == o.error_message,
        d.uptime_seconds == v.uptime_seconds,
        d.uptime_seconds is Some ==> o.status == StreamStatus::Connected,
        stored.contains_key(id) ==> d.config == stored[id].config_json,
        stored.contains_key(id) && stored[id].config == Some(o.config) ==> d.assigned_port
            == v.assigned_port,
        !stored.contains_key(id) ==> d.config is None && d.assigned_port is None,
{
    crate::status::law_status_text_round_trip(o.status);
}

/// An output that is stopped is shown as stopped, under its number and its name, with the port
/// that it will have; it has no peer, no error and no uptime.
pub proof fn law_stopped_outputs_are_shown_as_stopped(
    d: OutputDetailResponse,
    v: OutputResponse,
    id: i64,
    input_id: i64,
    config: CreateOutputRequest,
    text: Option<String>,
)
    requires
        shows_stopped(d, id, input_id, config, text),
        overview_stopped(v, id, input_id, config),
    ensures
        d.id == id && v.id == id,
        d.input_id == input_id && v.input_id == input_id,
        d.name == config.given_name() && v.name == d.name,
        StreamStatus::of_text(d.status@) == Some(StreamStatus::Stopped),
        v.status@ == d.status@,
        v.destination@ == d.destination@,
        v.output_type@ == d.output_type@,
        v.assigned_port == d.assigned_port,
        d.uptime_seconds is None && v.uptime_seconds is None,
        d.peer_address is None && v.peer_address is None,
        d.error_message is None && v.error_message is None,
        text is Some ==> opt_text(d.config) == opt_text(text),
        text is None ==> d.config is Some && d.config->0@.len() == 0,
{
    crate::status::law_status_text_round_trip(StreamStatus::Stopped);
}

/// A UDP output that was stopped is shown where it sent, as the kind that it was and under the
/// name that it had.
pub proof fn law_stopped_udp_outputs_are_shown_where_they_ran(
    v: OutputResponse,
    o: OutputInfo,
    id: i64,
    input_id: i64,
    host: Seq<char>,
    port: u16,
    name: Option<String>,
    bind_host: Option<String>,
    multicast: Option<MulticastOutputConfig>,
    now: UnixNanos,
)
    requires
        forall|k: int| 0 <= k < host.len() ==> #[trigger] host[k] != ':',
        is_udp_output(
            o,
            input_id,
            address_text(host, port),
            id,
            name,
            bind_host,
            multicast,
            now,
        ),
        overview_stopped(v, id, input_id, o.config),
    ensures
        v.destination@ == o.destination@,
        v.output_type@ == o.kind.key(),
        v.name == o.name,
{
    crate::text_laws::law_address_round_trip(host, port);
}

/// An SRT output that was stopped is shown where it sent, as the kind that it was and under the
/// name that it had.
pub proof fn law_stopped_srt_outputs_are_shown_where_they_ran(
    v: OutputResponse,
    o: OutputInfo,
    id: i64,
    input_id: i64,
    config: SrtOutputConfig,
    name: Option<String>,
    now: UnixNanos,
)
    requires
        is_srt_output(o, input_id, config, id, name, now),
        overview_stopped(v, id, input_id, o.config),
    ensures
        v.destination@ == o.destination@,
        v.output_type@ == o.kind.key(),
        v.name == o.name,
{
}

/// Whether an entry of a list with this number is there.
pub open spec fn shown_at(list: Seq<OutputDetailResponse>, id: i64, k: int) -> bool {
    0 <= k < list.len() && list[k].id == id
}

/// A list of keys holds each key.
proof fn lemma_key_is_listed<V>(keys: Seq<i64>, m: Map<i64, V>, id: i64) -> (k: int)
    requires
        lists_keys(keys, m),
        m.contains_key(id),
    ensures
        0 <= k < keys.len(),
        keys[k] == id,
{
    assert(keys.to_set().contains(id));
    let k = choose|k: int| 0 <= k < keys.len() && keys[k] == id;
    k
}

/// The outputs of an input are all shown, those that run as running and those that are stopped
/// as stopped, and nothing else is.
pub proof fn law_every_output_is_shown(
    list: Seq<OutputDetailResponse>,
    input_id: i64,
    i: InputModel,
    stored: Map<i64, StoredOutput>,
    texts: Map<i64, String>,
    now: UnixNanos,
    id: i64,
)
    requires
        shows_outputs(list, input_id, i, stored, texts, now),
    ensures
        i.outputs.contains_key(id) ==> exists|k: int| #[trigger]
            shown_at(list, id, k) && StreamStatus::of_text(list[k].status@) == Some(
                i.outputs[id].status,
            ) && list[k].destination == i.outputs[id].destination,
        i.stopped.contains_key(id) ==> exists|k: int| #[trigger]
            shown_at(list, id, k) && StreamStatus::of_text(list[k].status@) == Some(
                StreamStatus::Stopped,
            ) && list[k].name == i.stopped[id].given_name(),
        (exists|k: int| #[trigger] shown_at(list, id, k)) ==> i.outputs.contains_key(id)
            || i.stopped.contains_key(id),
        forall|k: int| 0 <= k < list.len() ==> (#[trigger] list[k]).input_id == input_id,
        i.outputs.dom().disjoint(i.stopped.dom()) ==> forall|a: int, b: int|
            0 <= a < b < list.len() ==> (#[trigger] list[a]).id != (#[trigger] list[b]).id,
{
    let (running, stopped) = choose|running: Seq<i64>, stopped: Seq<i64>|
        #![trigger lists_keys(running, i.outputs), lists_keys(stopped, i.stopped)]
        {
            &&& lists_keys(running, i.outputs)
            &&& lists_keys(stopped, i.stopped)
            &&& list.len() == running.len() + stopped.len()
            &&& forall|k: int|
                0 <= k < running.len() ==> shows_running(
                    #[trigger] list[k],
                    running[k],
                    input_id,
                    i.outputs[running[k]],
                    stored,
                    now,
                )
            &&& forall|k: int|
                running.len() <= k < list.len() ==> shows_stopped(
                    #[trigger] list[k],
                    stopped[k - running.len()],
                    input_id,
                    i.stopped[stopped[k - running.len()]],
                    crate::listing::text_for(texts, stopped[k - running.len()]),
                )
        };
    crate::status::law_status_text_round_trip(StreamStatus::Stopped);
    if i.outputs.contains_key(id) {
        let k = lemma_key_is_listed(running, i.outputs, id);
        crate::status::law_status_text_round_trip(i.outputs[id].status);
        assert(shows_running(list[k], id, input_id, i.outputs[id], stored, now));
        assert(shown_at(list, id, k));
    }
    if i.stopped.contains_key(id) {
        let k = lemma_key_is_listed(stopped, i.stopped, id);
        assert(shows_stopped(
            list[running.len() + k],
            id,
            input_id,
            i.stopped[id],
            crate::listing::text_for(texts, id),
        ));
        assert(shown_at(list, id, running.len() + k));
    }
    assert forall|k: int| 0 <= k < list.len() implies i.outputs.contains_key(
        (#[trigger] list[k]).id,
    ) || i.stopped.contains_key(list[k].id) by {
        if k < running.len() {
            assert(running.to_set().contains(running[k]));
        } else {
            assert(stopped.to_set().contains(stopped[k - running.len()]));
        }
    }
    if exists|k: int| #[trigger] shown_at(list, id, k) {
        let k = choose|k: int| #[trigger] shown_at(list, id, k);
        assert(list[k].id == id);
    }
    if i.outputs.dom().disjoint(i.stopped.dom()) {
        assert forall|a: int, b: int| 0 <= a < b < list.len() implies (#[trigger] list[a]).id != (
        #[trigger] list[b]).id by {
            if a < running.len() && b >= running.len() {
                assert(running.to_set().contains(running[a]));
                assert(stopped.to_set().contains(stopped[b - running.len()]));
                assert(i.outputs.dom().contains(running[a]));
                assert(i.stopped.dom().contains(stopped[b - running.len()]));
            } else if a >= running.len() {
                assert(stopped[a - running.len()] != stopped[b - running.len()]);
            }
        }
    }
}

/// The list of all outputs shows every output that runs, with the name of its input.
pub proof fn law_every_running_output_is_listed(
    list: Seq<OutputListResponse>,
    input_id: i64,
    i: InputModel,
    stored: Map<i64, StoredOutput>,
    now: UnixNanos,
    id: i64,
)
    requires
        lists_outputs_of(list, input_id, i, stored, now),
    ensures
        list.len() == i.outputs.dom().len() + i.stopped.dom().len(),
        i.outputs.contains_key(id) ==> exists|k: int|
            0 <= k < list.len() && (#[trigger] list[k]).id == id && list[k].input_id == input_id
                && list[k].input_name == i.name && list[k].destination == i.outputs[id].destination
                && StreamStatus::of_text(list[k].status@) == Some(i.outputs[id].status)
                && list[k].name == i.outputs[id].name && list[k].peer_address
                == i.outputs[id].peer_address,
        i.stopped.contains_key(id) ==> exists|k: int|
            0 <= k < list.len() && (#[trigger] list[k]).id == id && list[k].input_id == input_id
                && list[k].input_name == i.name && StreamStatus::of_text(list[k].status@) == Some(
                StreamStatus::Stopped,
            ) && list[k].name == i.stopped[id].given_name(),
{
    let overview = choose|overview: Seq<OutputResponse>| #[trigger]
        overview_outputs(overview, input_id, i, now) && list.len() == overview.len() && forall|
            k: int,
        |
            0 <= k < list.len() ==> crate::listing::lists_output(
                #[trigger] list[k],
                overview[k],
                i.name,
                stored,
            );
    let (running, stopped) = choose|running: Seq<i64>, stopped: Seq<i64>|
        #![trigger lists_keys(running, i.outputs), lists_keys(stopped, i.stopped)]
        {
            &&& lists_keys(running, i.outputs)
            &&& lists_keys(stopped, i.stopped)
            &&& overview.len() == running.len() + stopped.len()
            &&& forall|k: int|
                0 <= k < running.len() ==> overview_running(
                    #[trigger] overview[k],
                    running[k],
                    input_id,
                    i.outputs[running[k]],
                    now,
                )
            &&& forall|k: int|
                running.len() <= k < overview.len() ==> overview_stopped(
                    #[trigger] overview[k],
                    stopped[k - running.len()],
                    input_id,
                    i.stopped[stopped[k - running.len()]],
                )
        };
    crate::status::law_status_text_round_trip(StreamStatus::Stopped);
    if i.outputs.contains_key(id) {
        let k = lemma_key_is_listed(running, i.outputs, id);
        crate::status::law_status_text_round_trip(i.outputs[id].status);
        assert(overview_running(overview[k], id, input_id, i.outputs[id], now));
        assert(list[k].id == id);
    }
    if i.stopped.contains_key(id) {
        let k = lemma_key_is_listed(stopped, i.stopped, id);
        assert(overview_stopped(overview[running.len() + k], id, input_id, i.stopped[id]));
        assert(list[running.len() + k].id == id);
    }
}

// ---------------------------------------------------------------- counts of streams

proof fn lemma_same_updates_add_up(n: nat, m: Metric, change: MetricChange, other: Metric)
    requires
        change == MetricChange::Increment || change == MetricChange::Decrement,
    ensures
        ({
            let u = Seq::new(n, |i: int| bare_update(m, change));
            added(u, other) == (if other != m {
                0int
            } else if change == MetricChange::Increment {
                n as int
            } else {
                -(n as int)
            })
        }),
    decreases n,
{
    let u = Seq::new(n, |i: int| bare_update(m, change));
    if n > 0 {
        lemma_same_updates_add_up((n - 1) as nat, m, change, other);
        assert(u.drop_last() =~= Seq::new((n - 1) as nat, |i: int| bare_update(m, change)));
    }
}

proof fn lemma_added_concat(a: Seq<MetricUpdateModel>, b: Seq<MetricUpdateModel>, m: Metric)
    ensures
        added(a + b, m) == added(a, m) + added(b, m),
    decreases b.len(),
{
    if b.len() == 0 {
        assert(a + b =~= a);
    } else {
        lemma_added_concat(a, b.drop_last(), m);
        assert((a + b).drop_last() =~= a + b.drop_last());
        assert((a + b).last() == b.last());
    }
}

/// Starting an input with some outputs counts one input and those outputs, and removing it takes
/// exactly these counts back.
pub proof fn law_active_streams_are_counted(n: nat)
    ensures
        added(start_metrics(n as int), Metric::ActiveInputs) == 1,
        added(start_metrics(n as int), Metric::ActiveOutputs) == n,
        added(removal_metrics(n as int), Metric::ActiveInputs) == -1,
        added(removal_metrics(n as int), Metric::ActiveOutputs) == -(n as int),
        added(inputs_more(n), Metric::ActiveInputs) == n,
        added(inputs_more(n), Metric::ActiveOutputs) == 0,
        added(outputs_more(n), Metric::ActiveOutputs) == n,
        added(outputs_more(n), Metric::ActiveInputs) == 0,
{
    let one = seq![bare_update(Metric::ActiveInputs, MetricChange::Increment)];
    let less = seq![bare_update(Metric::ActiveInputs, MetricChange::Decrement)];
    let more = Seq::new(
        n,
        |i: int| bare_update(Metric::ActiveOutputs, MetricChange::Increment),
    );
    let fewer = Seq::new(
        n,
        |i: int| bare_update(Metric::ActiveOutputs, MetricChange::Decrement),
    );
    reveal_with_fuel(added, 2);
    assert(start_metrics(n as int) =~= one + more);
    assert(removal_metrics(n as int) =~= less + fewer);
    lemma_added_concat(one, more, Metric::ActiveInputs);
    lemma_added_concat(one, more, Metric::ActiveOutputs);
    lemma_added_concat(less, fewer, Metric::ActiveInputs);
    lemma_added_concat(less, fewer, Metric::ActiveOutputs);
    lemma_same_updates_add_up(
        n,
        Metric::ActiveOutputs,
        MetricChange::Increment,
        Metric::ActiveInputs,
    );
    lemma_same_updates_add_up(
        n,
        Metric::ActiveOutputs,
        MetricChange::Increment,
        Metric::ActiveOutputs,
    );
    lemma_same_updates_add_up(
        n,
        Metric::ActiveOutputs,
        MetricChange::Decrement,
        Metric::ActiveInputs,
    );
    lemma_same_updates_add_up(
        n,
        Metric::ActiveOutputs,
        MetricChange::Decrement,
        Metric::ActiveOutputs,
    );
    lemma_same_updates_add_up(
        n,
        Metric::ActiveInputs,
        MetricChange::Increment,
        Metric::ActiveInputs,
    );
    lemma_same_updates_add_up(
        n,
        Metric::ActiveInputs,
        MetricChange::Increment,
        Metric::ActiveOutputs,
    );
    assert(inputs_more(n) =~= Seq::new(
        n,
        |i: int| bare_update(Metric::ActiveInputs, MetricChange::Increment),
    ));
    assert(outputs_more(n) =~= more);
}

// ---------------------------------------------------------------- labels

/// Whether an update has a value for a label of its metric at a place.
pub open spec fn label_at(u: MetricUpdateModel, k: int, label: Seq<char>, value: Seq<char>) -> bool {
    0 <= k < u.labels.len() && u.metric.label_texts()[k] == label && u.labels[k] == value
}

/// Whether an update has a value for a label of its metric.
pub open spec fn labelled(u: MetricUpdateModel, label: Seq<char>, value: Seq<char>) -> bool {
    exists|k: int| label_at(u, k, label, value)
}

/// What an input received is counted under its name, its number and its protocol, and by the
/// amount.
pub proof fn law_received_amounts_are_labelled(
    bytes: bool,
    name: Option<String>,
    id: i64,
    protocol: Seq<char>,
    amount: u64,
)
    ensures
        ({
            let m = if bytes {
                Metric::InputBytesReceived
            } else {
                Metric::InputPacketsReceived
            };
            let u = input_update(m, name, id, protocol, amount);
            &&& u.well_labelled()
            &&& u.metric == m
            &&& added(seq![u], m) == amount
            &&& labelled(u, "stream_name"@, stream_label(name, id))
            &&& labelled(u, "input_id"@, signed_decimal(id as int))
            &&& labelled(u, "stream_type"@, protocol)
        }),
{
    reveal_with_fuel(added, 2);
    let m = if bytes {
        Metric::InputBytesReceived
    } else {
        Metric::InputPacketsReceived
    };
    let u = input_update(m, name, id, protocol, amount);
    assert(label_at(u, 0, "stream_name"@, stream_label(name, id)));
    assert(label_at(u, 1, "input_id"@, signed_decimal(id as int)));
    assert(label_at(u, 2, "stream_type"@, protocol));
}

/// What an output sent is counted under its name, its number, that of its input and its
/// protocol, and by the amount.
pub proof fn law_sent_amounts_are_labelled(
    bytes: bool,
    name: Option<String>,
    input_id: i64,
    output_id: i64,
    protocol: Seq<char>,
    amount: u64,
)
    ensures
        ({
            let m = if bytes {
                Metric::OutputBytesSent
            } else {
                Metric::OutputPacketsSent
            };
            let u = output_update(m, name, input_id, output_id, protocol, amount);
            &&& u.well_labelled()
            &&& u.metric == m
            &&& added(seq![u], m) == amount
            &&& labelled(u, "stream_name"@, stream_label(name, output_id))
            &&& labelled(u, "input_id"@, signed_decimal(input_id as int))
            &&& labelled(u, "output_id"@, signed_decimal(output_id as int))
            &&& labelled(u, "stream_type"@, protocol)
        }),
{
    reveal_with_fuel(added, 2);
    let m = if bytes {
        Metric::OutputBytesSent
    } else {
        Metric::OutputPacketsSent
    };
    let u = output_update(m, name, input_id, output_id, protocol, amount);
    assert(label_at(u, 0, "stream_name"@, stream_label(name, output_id)));
    assert(label_at(u, 1, "input_id"@, signed_decimal(input_id as int)));
    assert(label_at(u, 2, "output_id"@, signed_decimal(output_id as int)));
    assert(label_at(u, 3, "stream_type"@, protocol));
}

/// Errors and connection events are counted once each, under the stream, the protocol and what
/// happened.
pub proof fn law_events_are_labelled(
    name: Option<String>,
    id: i64,
    protocol: Seq<char>,
    direction: Seq<char>,
    event: Seq<char>,
    peer: Option<String>,
)
    ensures
        ({
            let u = error_update(name, id, protocol, event);
            &&& u.well_labelled()
            &&& u.metric == Metric::StreamErrors
            &&& u.change == MetricChange::Increment
            &&& labelled(u, "stream_name"@, stream_label(name, id))
            &&& labelled(u, "stream_id"@, signed_decimal(id as int))
            &&& labelled(u, "stream_type"@, protocol)
            &&& labelled(u, "error_type"@, event)
        }),
        ({
            let u = connection_event_update(name, id, protocol, direction, event, peer);
            &&& u.well_labelled()
            &&& u.metric == Metric::ConnectionEventsTotal
            &&& u.change == MetricChange::Increment
            &&& labelled(u, "stream_name"@, stream_label(name, id))
            &&& labelled(u, "stream_id"@, signed_decimal(id as int))
            &&& labelled(u, "stream_type"@, protocol)
            &&& labelled(u, "direction"@, direction)
            &&& labelled(u, "event_type"@, event)
            &&& peer matches Some(p) ==> labelled(u, "peer_address"@, p@)
            &&& peer is None ==> labelled(u, "peer_address"@, "unknown"@)
        }),
{
    let u = error_update(name, id, protocol, event);
    assert(label_at(u, 0, "stream_name"@, stream_label(name, id)));
    assert(label_at(u, 1, "stream_id"@, signed_decimal(id as int)));
    assert(label_at(u, 2, "stream_type"@, protocol));
    assert(label_at(u, 3, "error_type"@, event));
    let c = connection_event_update(name, id, protocol, direction, event, peer);
    assert(label_at(c, 0, "stream_name"@, stream_label(name, id)));
    assert(label_at(c, 1, "stream_id"@, signed_decimal(id as int)));
    assert(label_at(c, 2, "stream_type"@, protocol));
    assert(label_at(c, 3, "direction"@, direction));
    assert(label_at(c, 4, "event_type"@, event));
    assert(label_at(
        c,
        5,
        "peer_address"@,
        match peer {
            Some(p) => p@,
            None => "unknown"@,
        },
    ));
}

/// Connections are counted and timed under the stream, the protocol and the direction.
pub proof fn law_connections_are_labelled(
    timed: bool,
    name: Option<String>,
    id: i64,
    protocol: Seq<char>,
    direction: Seq<char>,
    change: MetricChange,
)
    ensures
        ({
            let m = if timed {
                Metric::ConnectionDurations
            } else {
                Metric::ActiveConnections
            };
            let u = connection_update(m, name, id, protocol, direction, change);
            &&& u.well_labelled()
            &&& u.metric == m
            &&& u.change == change
            &&& labelled(u, "stream_name"@, stream_label(name, id))
            &&& labelled(u, "stream_type"@, protocol)
            &&& labelled(u, "direction"@, direction)
        }),
{
    let m = if timed {
        Metric::ConnectionDurations
    } else {
        Metric::ActiveConnections
    };
    let u = connection_update(m, name, id, protocol, direction, change);
    assert(label_at(u, 0, "stream_name"@, stream_label(name, id)));
    assert(label_at(u, 1, "stream_type"@, protocol));
    assert(label_at(u, 2, "direction"@, direction));
}

/// Streams without a name, or with a blank one, are called by their number, so that no two of
/// them are taken for each other.
pub proof fn law_nameless_streams_are_told_apart(a: i64, b: i64)
    ensures
        stream_label(None, a) == stream_label(None, b) ==> a == b,
{
    let p = "stream_"@;
    let x = signed_decimal(a as int);
    let y = signed_decimal(b as int);
    if p + x == p + y {
        assert(x =~= (p + x).subrange(p.len() as int, (p + x).len() as int));
        assert(y =~= (p + y).subrange(p.len() as int, (p + y).len() as int));
        lemma_signed_decimal_is_injective(a as int, b as int);
    }
}

proof fn lemma_signed_decimal_is_injective(a: int, b: int)
    requires
        signed_decimal(a) == signed_decimal(b),
    ensures
        a == b,
{
    lemma_decimal_starts_with_a_digit(if a < 0 {
        (-a) as nat
    } else {
        a as nat
    });
    lemma_decimal_starts_with_a_digit(if b < 0 {
        (-b) as nat
    } else {
        b as nat
    });
    assert(signed_decimal(a)[0] == signed_decimal(b)[0]);
    if a < 0 {
        let x = crate::text::decimal((-a) as nat);
        let y = crate::text::decimal((-b) as nat);
        assert(b < 0);
        assert(x =~= signed_decimal(a).subrange(1, signed_decimal(a).len() as int));
        assert(y =~= signed_decimal(b).subrange(1, signed_decimal(b).len() as int));
        crate::text_laws::law_decimal_is_injective((-a) as nat, (-b) as nat);
    } else {
        assert(b >= 0);
        crate::text_laws::law_decimal_is_injective(a as nat, b as nat);
    }
}

proof fn lemma_decimal_starts_with_a_digit(n: nat)
    ensures
        crate::text::decimal(n).len() > 0,
        '0' <= crate::text::decimal(n)[0] <= '9',
    decreases n,
{
    if n >= 10 {
        lemma_decimal_starts_with_a_digit(n / 10);
    }
}

/// Every SRT metric is set once from the statistics, to the number that belongs to it: totals
/// of packets and bytes that were sent, received, lost, dropped and sent again, rates, times and
/// buffers of the sending and of the receiving side.
pub proof fn law_srt_metrics_show_their_statistics(
    s: SrtStats,
    name: Option<String>,
    id: i64,
    protocol: Seq<char>,
    direction: Seq<char>,
)
    ensures
        ({
            let v = srt_values(s);
            &&& v.len() == 25
            &&& forall|a: int, b: int| 0 <= a < b < v.len() ==> (#[trigger] v[a]).0 != (
            #[trigger] v[b]).0
            &&& v.contains((Metric::SrtPacketsSentTotal, MetricChange::SetTo(s.pkt_sent_total as i128)))
            &&& v.contains((Metric::SrtPacketsReceivedTotal, MetricChange::SetTo(s.pkt_recv_total as i128)))
            &&& v.contains((Metric::SrtBytesSentTotal, MetricChange::SetTo(s.byte_sent_total as i128)))
            &&& v.contains((Metric::SrtBytesReceivedTotal, MetricChange::SetTo(s.byte_recv_total as i128)))
            &&& v.contains((Metric::SrtPacketsLostSentTotal, MetricChange::SetTo(s.pkt_snd_loss_total as i128)))
            &&& v.contains((Metric::SrtPacketsLostReceivedTotal, MetricChange::SetTo(s.pkt_rcv_loss_total as i128)))
            &&& v.contains((Metric::SrtPacketsRetransmittedTotal, MetricChange::SetTo(s.pkt_retrans_total as i128)))
            &&& v.contains((Metric::SrtPacketsDroppedSentTotal, MetricChange::SetTo(s.pkt_snd_drop_total as i128)))
            &&& v.contains((Metric::SrtPacketsDroppedReceivedTotal, MetricChange::SetTo(s.pkt_rcv_drop_total as i128)))
            &&& v.contains((Metric::SrtBytesLostReceivedTotal, MetricChange::SetTo(s.byte_rcv_loss_total as i128)))
            &&& v.contains((Metric::SrtBytesDroppedSentTotal, MetricChange::SetTo(s.byte_snd_drop_total as i128)))
            &&& v.contains((Metric::SrtBytesDroppedReceivedTotal, MetricChange::SetTo(s.byte_rcv_drop_total as i128)))
            &&& v.contains((Metric::SrtSendRateMbps, MetricChange::SetBits(s.mbps_send_rate_bits)))
            &&& v.contains((Metric::SrtReceiveRateMbps, MetricChange::SetBits(s.mbps_recv_rate_bits)))
            &&& v.contains((Metric::SrtRttMs, MetricChange::SetBits(s.ms_rtt_bits)))
            &&& v.contains((Metric::SrtBandwidthMbps, MetricChange::SetBits(s.mbps_bandwidth_bits)))
            &&& v.contains((Metric::SrtFlightSizePackets, MetricChange::SetTo(s.pkt_flight_size as i128)))
            &&& v.contains((Metric::SrtSendBufferPackets, MetricChange::SetTo(s.pkt_snd_buf as i128)))
            &&& v.contains((Metric::SrtSendBufferBytes, MetricChange::SetTo(s.byte_snd_buf as i128)))
            &&& v.contains((Metric::SrtSendBufferMs, MetricChange::SetTo(s.ms_snd_buf as i128)))
            &&& v.contains((Metric::SrtReceiveBufferPackets, MetricChange::SetTo(s.pkt_rcv_buf as i128)))
            &&& v.contains((Metric::SrtReceiveBufferBytes, MetricChange::SetTo(s.byte_rcv_buf as i128)))
            &&& v.contains((Metric::SrtReceiveBufferMs, MetricChange::SetTo(s.ms_rcv_buf as i128)))
            &&& v.contains((Metric::SrtSendBufferAvailableBytes, MetricChange::SetTo(s.byte_avail_snd_buf as i128)))
            &&& v.contains((Metric::SrtReceiveBufferAvailableBytes, MetricChange::SetTo(s.byte_avail_rcv_buf as i128)))
            &&& forall|k: int| 0 <= k < v.len() ==> {
                let u = MetricUpdateModel {
                    metric: (#[trigger] v[k]).0,
                    labels: srt_labels(name, id, protocol, direction),
                    change: v[k].1,
                };
                u.well_labelled() && label_at(u, 1, "stream_id"@, signed_decimal(id as int))
                    && label_at(u, 0, "stream_name"@, stream_label(name, id)) && label_at(
                    u,
                    2,
                    "stream_type"@,
                    protocol,
                ) && label_at(u, 3, "direction"@, direction)
            }
        }),
{
    let v = srt_values(s);
    assert(v[0].0 == Metric::SrtPacketsSentTotal);
    assert(v[1].0 == Metric::SrtPacketsReceivedTotal);
    assert(v[2].0 == Metric::SrtBytesSentTotal);
    assert(v[3].0 == Metric::SrtBytesReceivedTotal);
    assert(v[4].0 == Metric::SrtPacketsLostSentTotal);
    assert(v[5].0 == Metric::SrtPacketsLostReceivedTotal);
    assert(v[6].0 == Metric::SrtPacketsRetransmittedTotal);
    assert(v[7].0 == Metric::SrtPacketsDroppedSentTotal);
    assert(v[8].0 == Metric::SrtPacketsDroppedReceivedTotal);
    assert(v[9].0 == Metric::SrtBytesLostReceivedTotal);
    assert(v[10].0 == Metric::SrtBytesDroppedSentTotal);
    assert(v[11].0 == Metric::SrtBytesDroppedReceivedTotal);
    assert(v[12].0 == Metric::SrtSendRateMbps);
    assert(v[13].0 == Metric::SrtReceiveRateMbps);
    assert(v[14].0 == Metric::SrtRttMs);
    assert(v[15].0 == Metric::SrtBandwidthMbps);
    assert(v[16].0 == Metric::SrtFlightSizePackets);
    assert(v[17].0 == Metric::SrtSendBufferPackets);
    assert(v[18].0 == Metric::SrtSendBufferBytes);
    assert(v[19].0 == Metric::SrtSendBufferMs);
    assert(v[20].0 == Metric::SrtReceiveBufferPackets);
    assert(v[21].0 == Metric::SrtReceiveBufferBytes);
    assert(v[22].0 == Metric::SrtReceiveBufferMs);
    assert(v[23].0 == Metric::SrtSendBufferAvailableBytes);
    assert(v[24].0 == Metric::SrtReceiveBufferAvailableBytes);
}

// ---------------------------------------------------------------- reports

/// A report shows every stream of a program in its place, with its identifier, its type and its
/// codec.
pub proof fn law_reports_show_every_stream(d: ProgramData, p: InspectedProgram, k: int)
    requires
        shows_program(d, p),
    ensures
        d.program_number == p.program_number,
        d.streams@.len() == p.streams@.len(),
        0 <= k < p.streams@.len() ==> {
            let shown = d.streams@[k];
            let found = p.streams@[k];
            &&& shown.pid == found.pid
            &&& shown.stream_type == found.stream_type
            &&& found.codec is None <==> shown.codec is None
            &&& found.codec matches Some(CodecInfo::Video { codec, width, height, fps_bits })
                ==> shown.codec matches Some(
                CodecData::Video { codec: c, width: w, height: h, fps_bits: f },
            ) && c == codec && w == width && h == height && f == fps_bits
            &&& found.codec matches Some(CodecInfo::Audio { codec, sample_rate, channels })
                ==> shown.codec matches Some(
                CodecData::Audio { codec: c, sample_rate: r, channels: n },
            ) && c == codec && r == sample_rate && n == channels
            &&& found.codec matches Some(CodecInfo::Subtitle { codec }) ==> shown.codec matches Some(
                CodecData::Subtitle { codec: c },
            ) && c == codec
        },
{
}

/// A report shows the errors that were counted, each under its own name; those of the two
/// program tables make up the checksum errors.
pub proof fn law_reports_show_the_errors(e: InspectedErrors)
    requires
        e.pat_crc_errors + e.pmt_crc_errors <= u64::MAX,
    ensures
        ({
            let d = tr101_data(e);
            &&& d.sync_byte_errors == e.sync_byte_errors
            &&& d.continuity_counter_errors == e.continuity_counter_errors
            &&& d.pid_errors == e.pid_errors
            &&& d.transport_errors == e.transport_error_indicator
            &&& d.pcr_repetition_errors == e.pcr_repetition_errors
            &&& d.pcr_accuracy_errors == e.pcr_accuracy_errors
            &&& d.pts_errors == e.pts_errors
            &&& d.cat_errors == e.cat_crc_errors
            &&& d.pat_errors == e.pat_crc_errors
            &&& d.pmt_errors == e.pmt_crc_errors
            &&& d.crc_errors == d.pat_errors + d.pmt_errors
            &&& d.pcr_discontinuity_errors == 0
        }),
{
}

} // verus!
