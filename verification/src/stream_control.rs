//! Starting and stopping streams that the gateway knows.
use std::collections::HashMap;
use vstd::prelude::*;
use crate::analysis::{
    about_input, are_new, ids_differ, input_not_found, is_resumed, law_resume_from_nothing,
    one_of_each_kind, resume_analyses, resumed, runs,
};
use crate::clock::UnixNanos;
use crate::maps::keys_of;
use crate::metrics::{
    bare_update, increment_active_inputs, increment_active_outputs, updates, Metric, MetricChange,
    MetricUpdate, MetricUpdateModel,
};
use crate::naming::{udp_destination, udp_destination_of};
use crate::requests::{CreateInputRequest, CreateOutputRequest, SrtInputConfig};
use crate::status::{AnalysisType, StreamStatus};
use crate::streams::{
    is_restarted_output, is_srt_output, is_udp_output, models, restart_output, restart_problem,
    srt_input_start, AnalysisInfo, InputInfo, InputModel, InputsMap, Lookup, OutputInfo,
};
use crate::text::{
    address_text, join3, join4, join5, opt_text, signed_decimal, signed_decimal_text,
};

verus! {

// ---------------------------------------------------------------- messages

/// `Output`, a number and what is said of it.
pub open spec fn about_output(id: i64, rest: Seq<char>) -> Seq<char> {
    "Output "@ + signed_decimal(id as int) + rest
}

fn input_message(id: i64, rest: &str) -> (r: String)
    ensures
        r@ == about_input(id, rest@),
{
    let n = signed_decimal_text(id);
    join3("Input ", n.as_str(), rest)
}

fn output_message(id: i64, rest: &str) -> (r: String)
    ensures
        r@ == about_output(id, rest@),
{
    let n = signed_decimal_text(id);
    join3("Output ", n.as_str(), rest)
}

/// The message that an output is not known to an input.
pub open spec fn output_not_in_input(output_id: i64, input_id: i64) -> Seq<char> {
    "Output "@ + signed_decimal(output_id as int) + " not found in input "@ + signed_decimal(
        input_id as int,
    )
}

fn output_missing(output_id: i64, input_id: i64) -> (r: String)
    ensures
        r@ == output_not_in_input(output_id, input_id),
{
    let o = signed_decimal_text(output_id);
    let i = signed_decimal_text(input_id);
    join4("Output ", o.as_str(), " not found in input ", i.as_str())
}

// ---------------------------------------------------------------- starting an input

/// The state in which an input starts.
pub open spec fn start_status(config: CreateInputRequest) -> StreamStatus {
    match config {
        CreateInputRequest::Srt { config, .. } => srt_input_start(config),
        _ => StreamStatus::Listening,
    }
}

fn start_status_of(config: &CreateInputRequest) -> (r: StreamStatus)
    ensures
        r == start_status(*config),
{
    match config {
        CreateInputRequest::Srt { config, .. } => match config {
            SrtInputConfig::Listener { .. } => StreamStatus::Listening,
            SrtInputConfig::Caller { .. } => StreamStatus::Connecting,
        },
        _ => StreamStatus::Listening,
    }
}

/// Whether a stopped output can start: an SRT output always, a UDP output when its destination
/// was found.
pub open spec fn can_restart(
    config: CreateOutputRequest,
    lookups: Map<i64, Lookup>,
    output_id: i64,
) -> bool {
    config is Srt || lookup_of(lookups, output_id) is Found
}

/// What looking up the destination of an output gave; nothing, where it was not looked up.
pub open spec fn lookup_of(lookups: Map<i64, Lookup>, output_id: i64) -> Lookup {
    if lookups.contains_key(output_id) {
        lookups[output_id]
    } else {
        Lookup::Empty
    }
}

/// The destinations of stopped UDP outputs, which have to be looked up before the input starts.
pub fn destinations_to_look_up(streams: &InputsMap, input_id: i64) -> (r: Vec<(i64, String)>)
    ensures
        !streams@.contains_key(input_id) ==> r@.len() == 0,
        streams@.contains_key(input_id) ==> {
            let stopped = streams@[input_id]@.stopped;
            &&& forall|i: int|
                0 <= i < r@.len() ==> {
                    let (id, destination) = #[trigger] r@[i];
                    stopped.contains_key(id) && stopped[id] is Udp && destination@
                        == udp_destination(stopped[id])
                }
            &&& forall|id: i64|
                #![trigger stopped.contains_key(id)]
                stopped.contains_key(id) && stopped[id] is Udp ==> exists|i: int|
                    0 <= i < r@.len() && (#[trigger] r@[i]).0 == id
        },
{
    broadcast use vstd::std_specs::hash::group_hash_axioms;

    let mut r: Vec<(i64, String)> = Vec::new();
    match streams.get(&input_id) {
        None => r,
        Some(info) => {
            let keys = keys_of(&info.stopped_outputs);
            let ghost stopped = info@.stopped;
            let mut k: usize = 0;
            while k < keys.len()
                invariant
                    k <= keys@.len(),
                    stopped == info.stopped_outputs@,
                    forall|id: i64| #[trigger] keys@.contains(id) <==> stopped.contains_key(id),
                    forall|i: int|
                        0 <= i < r@.len() ==> {
                            let (id, destination) = #[trigger] r@[i];
                            stopped.contains_key(id) && stopped[id] is Udp && destination@
                                == udp_destination(stopped[id])
                        },
                    forall|j: int|
                        0 <= j < k && stopped[#[trigger] keys@[j]] is Udp ==> exists|i: int|
                            0 <= i < r@.len() && (#[trigger] r@[i]).0 == keys@[j],
                decreases keys@.len() - k,
            {
                let id: i64 = keys[k];
                assert(keys@.contains(id));
                if let Some(config) = info.stopped_outputs.get(&id) {
                    if let CreateOutputRequest::Udp { .. } = config {
                        let ghost old_r = r@;
                        r.push((id, udp_destination_of(config)));
                        assert(r@[old_r.len() as int].0 == id);
                        assert forall|j: int|
                            0 <= j < k && stopped[#[trigger] keys@[j]] is Udp implies exists|
                            i: int,
                        |
                            0 <= i < r@.len() && (#[trigger] r@[i]).0 == keys@[j] by {
                            let i = choose|i: int|
                                0 <= i < old_r.len() && (#[trigger] old_r[i]).0 == keys@[j];
                            assert(r@[i].0 == keys@[j]);
                        }
                    }
                }
                k += 1;
            }
            assert forall|id: i64|
                #![trigger stopped.contains_key(id)]
                stopped.contains_key(id) && stopped[id] is Udp implies exists|i: int|
                0 <= i < r@.len() && (#[trigger] r@[i]).0 == id by {
                assert(keys@.contains(id));
                let j = choose|j: int| 0 <= j < keys@.len() && keys@[j] == id;
                assert(stopped[keys@[j]] is Udp);
            }
            r
        },
    }
}

/// What starting an input leaves to do: outputs to run, outputs that could not start, and
/// metrics to change.
#[derive(Debug)]
pub struct StartedInput {
    pub outputs: Vec<i64>,
    pub failed: Vec<(i64, String)>,
    pub metrics: Vec<MetricUpdate>,
}

/// The outputs of an input after its stopped outputs started again.
pub open spec fn outputs_restarted(
    after: Map<i64, OutputInfo>,
    before: Map<i64, OutputInfo>,
    stopped: Map<i64, CreateOutputRequest>,
    lookups: Map<i64, Lookup>,
    input_id: i64,
    now: UnixNanos,
) -> bool {
    forall|id: i64|
        #![trigger after.contains_key(id)]
        if stopped.contains_key(id) && can_restart(stopped[id], lookups, id) {
            after.contains_key(id) && is_restarted_output(after[id], input_id, id, stopped[id], now)
        } else {
            after.contains_key(id) == before.contains_key(id) && (before.contains_key(id)
                ==> after[id] == before[id])
        }
}

/// An input that was started: it runs, its stopped outputs run again where they can and are
/// forgotten where they cannot, and its paused analyses run again.
pub open spec fn is_started(
    after: InputModel,
    before: InputModel,
    lookups: Map<i64, Lookup>,
    input_id: i64,
    now: UnixNanos,
) -> bool {
    &&& outputs_restarted(after.outputs, before.outputs, before.stopped, lookups, input_id, now)
    &&& is_resumed(after, before, input_id, now)
    &&& after == (InputModel {
        status: start_status(before.config),
        running: true,
        started_at: Some(now),
        stopped: Map::empty(),
        outputs: after.outputs,
        analyses: after.analyses,
        paused: after.paused,
        ..before
    })
}

/// Whether a list tells of each stopped output that could not start, and why.
pub open spec fn tells_failures(
    failed: Seq<(i64, String)>,
    stopped: Map<i64, CreateOutputRequest>,
    lookups: Map<i64, Lookup>,
) -> bool {
    &&& forall|i: int|
        0 <= i < failed.len() ==> {
            let (id, message) = #[trigger] failed[i];
            &&& stopped.contains_key(id)
            &&& !can_restart(stopped[id], lookups, id)
            &&& message@ == restart_problem(stopped[id], lookup_of(lookups, id))
        }
    &&& forall|id: i64|
        #![trigger stopped.contains_key(id)]
        stopped.contains_key(id) && !can_restart(stopped[id], lookups, id) ==> exists|i: int|
            0 <= i < failed.len() && (#[trigger] failed[i]).0 == id
}

/// One more input runs, and `n` more outputs.
pub open spec fn start_metrics(n: int) -> Seq<MetricUpdateModel> {
    seq![bare_update(Metric::ActiveInputs, MetricChange::Increment)] + Seq::new(
        n as nat,
        |i: int| bare_update(Metric::ActiveOutputs, MetricChange::Increment),
    )
}

fn restart_outputs(
    info: &mut InputInfo,
    input_id: i64,
    lookups: HashMap<i64, Lookup>,
    now: UnixNanos,
) -> (r: StartedInput)
    ensures
        outputs_restarted(
            final(info)@.outputs,
            old(info)@.outputs,
            old(info)@.stopped,
            lookups@,
            input_id,
            now,
        ),
        final(info)@ == (InputModel {
            stopped: Map::empty(),
            outputs: final(info)@.outputs,
            ..old(info)@
        }),
        r.outputs@.no_duplicates(),
        forall|id: i64| #[trigger]
            r.outputs@.contains(id) <==> old(info)@.stopped.contains_key(id) && can_restart(
                old(info)@.stopped[id],
                lookups@,
                id,
            ),
        updates(r.metrics@) == start_metrics(r.outputs@.len() as int),
        tells_failures(r.failed@, old(info)@.stopped, lookups@),
{
    broadcast use vstd::std_specs::hash::group_hash_axioms;

    let ghost was = info@;
    let ghost found = lookups@;
    let mut lookups: HashMap<i64, Lookup> = lookups;
    let keys = keys_of(&info.stopped_outputs);
    let mut started: Vec<i64> = Vec::new();
    let mut failed: Vec<(i64, String)> = Vec::new();
    let mut metrics: Vec<MetricUpdate> = vec![increment_active_inputs()];
    assert(updates(metrics@) =~= start_metrics(0));
    let mut k: usize = 0;
    while k < keys.len()
        invariant
            k <= keys@.len(),
            keys@.no_duplicates(),
            forall|id: i64| #[trigger] keys@.contains(id) <==> was.stopped.contains_key(id),
            forall|j: int|
                k <= j < keys@.len() ==> info@.stopped.contains_key(#[trigger] keys@[j])
                    && info@.stopped[keys@[j]] == was.stopped[keys@[j]] && (lookups@.contains_key(
                    keys@[j],
                ) <==> found.contains_key(keys@[j])) && (found.contains_key(keys@[j])
                    ==> lookups@[keys@[j]] == found[keys@[j]]),
            forall|id: i64| #[trigger]
                info@.stopped.contains_key(id) ==> exists|j: int|
                    k <= j < keys@.len() && keys@[j] == id,
            info@ == (InputModel { stopped: info@.stopped, outputs: info@.outputs, ..was }),
            forall|j: int|
                0 <= j < k ==> (if can_restart(was.stopped[#[trigger] keys@[j]], found, keys@[j]) {
                    info@.outputs.contains_key(keys@[j]) && is_restarted_output(
                        info@.outputs[keys@[j]],
                        input_id,
                        keys@[j],
                        was.stopped[keys@[j]],
                        now,
                    ) && started@.contains(keys@[j])
                } else {
                    info@.outputs.contains_key(keys@[j]) == was.outputs.contains_key(keys@[j]) && (
                    was.outputs.contains_key(keys@[j]) ==> info@.outputs[keys@[j]]
                        == was.outputs[keys@[j]])
                }),
            forall|id: i64|
                #![trigger info@.outputs.contains_key(id)]
                (forall|j: int| 0 <= j < k ==> #[trigger] keys@[j] != id)
                    ==> info@.outputs.contains_key(id) == was.outputs.contains_key(id) && (
                was.outputs.contains_key(id) ==> info@.outputs[id] == was.outputs[id]),
            started@.no_duplicates(),
            forall|i: int|
                0 <= i < started@.len() ==> can_restart(
                    was.stopped[#[trigger] started@[i]],
                    found,
                    started@[i],
                ) && exists|j: int| 0 <= j < k && keys@[j] == started@[i],
            updates(metrics@) == start_metrics(started@.len() as int),
            forall|i: int|
                0 <= i < failed@.len() ==> {
                    let (id, message) = #[trigger] failed@[i];
                    &&& was.stopped.contains_key(id)
                    &&& !can_restart(was.stopped[id], found, id)
                    &&& message@ == restart_problem(was.stopped[id], lookup_of(found, id))
                },
            forall|j: int|
                0 <= j < k && !can_restart(was.stopped[#[trigger] keys@[j]], found, keys@[j])
                    ==> exists|i: int| 0 <= i < failed@.len() && (#[trigger] failed@[i]).0 == keys@[j],
        decreases keys@.len() - k,
    {
        let id: i64 = keys[k];
        let ghost i0 = info@;
        let ghost s0 = started@;
        let ghost f0 = failed@;
        assert(keys@.contains(id));
        let lookup = match lookups.remove(&id) {
            Some(l) => l,
            None => Lookup::Empty,
        };
        assert(lookup == lookup_of(found, keys@[k as int]));
        if let Some(config) = info.stopped_outputs.remove(&id) {
            assert(config == was.stopped[id]);
            match restart_output(input_id, id, config, lookup, now) {
                Ok(o) => {
                    info.output_tasks.insert(id, o);
                    let ghost m0 = metrics@;
                    metrics.push(increment_active_outputs());
                    started.push(id);
                    proof {
                        let one = bare_update(Metric::ActiveOutputs, MetricChange::Increment);
                        assert(updates(metrics@) =~= updates(m0).push(one));
                        assert(start_metrics(s0.len() as int).push(one) =~= start_metrics(
                            (s0.len() + 1) as int,
                        ));
                        assert(started@[s0.len() as int] == id);
                        assert forall|i: int| 0 <= i < s0.len() implies s0[i] != id by {
                            let j = choose|j: int| 0 <= j < k && keys@[j] == s0[i];
                            assert(keys@[j] != keys@[k as int]);
                        }
                        assert forall|i: int| 0 <= i < s0.len() implies started@[i] == s0[i] by {}
                        assert forall|x: i64| s0.contains(x) implies started@.contains(x) by {
                            let i = choose|i: int| 0 <= i < s0.len() && s0[i] == x;
                            assert(started@[i] == x);
                        }
                    }
                },
                Err(e) => {
                    failed.push((id, e));
                    assert(failed@[f0.len() as int].0 == id);
                },
            }
        }
        k += 1;
        proof {
            assert forall|j: int|
                0 <= j < k && !can_restart(
                    was.stopped[#[trigger] keys@[j]],
                    found,
                    keys@[j],
                ) implies exists|i: int|
                0 <= i < failed@.len() && (#[trigger] failed@[i]).0 == keys@[j] by {
                if j < k - 1 {
                    let i = choose|i: int|
                        0 <= i < f0.len() && (#[trigger] f0[i]).0 == keys@[j];
                    assert(failed@[i].0 == keys@[j]);
                }
            }
            assert(info@ =~= (InputModel {
                stopped: info@.stopped,
                outputs: info@.outputs,
                ..was
            }));
            assert forall|j: int| k <= j < keys@.len() implies keys@[j] != id by {
                assert(keys@[j] != keys@[k - 1]);
            }
            assert forall|j: int| 0 <= j < k - 1 implies #[trigger] keys@[j] != id by {
                assert(keys@[j] != keys@[k - 1]);
            }
            assert forall|x: i64| #[trigger] info@.stopped.contains_key(x) implies exists|j: int|
                k <= j < keys@.len() && keys@[j] == x by {
                assert(i0.stopped.contains_key(x));
                let j = choose|j: int| k - 1 <= j < keys@.len() && keys@[j] == x;
                assert(j != k - 1);
            }
            assert forall|x: i64|
                #![trigger info@.outputs.contains_key(x)]
                (forall|j: int| 0 <= j < k ==> #[trigger] keys@[j] != x) implies
                info@.outputs.contains_key(x) == was.outputs.contains_key(x) && (
            was.outputs.contains_key(x) ==> info@.outputs[x] == was.outputs[x]) by {
                assert(keys@[k - 1] != x);
                assert(i0.outputs.contains_key(x) == was.outputs.contains_key(x));
            }
        }
    }
    proof {
        assert(info@.stopped =~= Map::<i64, CreateOutputRequest>::empty());
        assert forall|id: i64|
            #![trigger info@.outputs.contains_key(id)]
            if was.stopped.contains_key(id) && can_restart(was.stopped[id], found, id) {
                info@.outputs.contains_key(id) && is_restarted_output(
                    info@.outputs[id],
                    input_id,
                    id,
                    was.stopped[id],
                    now,
                )
            } else {
                info@.outputs.contains_key(id) == was.outputs.contains_key(id) && (
                was.outputs.contains_key(id) ==> info@.outputs[id] == was.outputs[id])
            } by {
            if was.stopped.contains_key(id) {
                assert(keys@.contains(id));
                let j = choose|j: int| 0 <= j < keys@.len() && keys@[j] == id;
                assert(keys@[j] == id);
            } else {
                assert forall|j: int| 0 <= j < keys@.len() implies #[trigger] keys@[j] != id by {
                    assert(keys@.contains(keys@[j]));
                }
            }
        }
        assert forall|id: i64| #[trigger] started@.contains(id) implies was.stopped.contains_key(
            id,
        ) && can_restart(was.stopped[id], found, id) by {
            let i = choose|i: int| 0 <= i < started@.len() && started@[i] == id;
            let j = choose|j: int| 0 <= j < keys@.len() && keys@[j] == started@[i];
            assert(keys@.contains(id));
        }
        assert forall|id: i64|
            was.stopped.contains_key(id) && can_restart(
                was.stopped[id],
                found,
                id,
            ) implies #[trigger] started@.contains(id) by {
            assert(keys@.contains(id));
            let j = choose|j: int| 0 <= j < keys@.len() && keys@[j] == id;
            assert(keys@[j] == id);
        }
    }
    proof {
        assert forall|id: i64|
            #![trigger was.stopped.contains_key(id)]
            was.stopped.contains_key(id) && !can_restart(
                was.stopped[id],
                found,
                id,
            ) implies exists|i: int| 0 <= i < failed@.len() && (#[trigger] failed@[i]).0 == id by {
            assert(keys@.contains(id));
            let j = choose|j: int| 0 <= j < keys@.len() && keys@[j] == id;
            assert(keys@[j] == id);
        }
    }
    StartedInput { outputs: started, failed, metrics }
}

/// Start an input that is stopped or failed.
pub fn start_input(
    streams: &mut InputsMap,
    input_id: i64,
    lookups: HashMap<i64, Lookup>,
    now: UnixNanos,
) -> (r: Result<StartedInput, String>)
    ensures
        ({
            let before = models(old(streams)@);
            let after = models(final(streams)@);
            if !before.contains_key(input_id) {
                &&& r matches Err(e) && e@ == about_input(input_id, " not found"@)
                &&& after == before
            } else if before[input_id].status.active() {
                &&& r matches Err(e) && e@ == about_input(input_id, " is already running"@)
                &&& after == before
            } else {
                &&& r is Ok
                &&& after == before.insert(input_id, after[input_id])
                &&& is_started(after[input_id], before[input_id], lookups@, input_id, now)
                &&& r->Ok_0.outputs@.no_duplicates()
                &&& forall|id: i64| #[trigger]
                    r->Ok_0.outputs@.contains(id) <==> before[input_id].stopped.contains_key(id)
                        && can_restart(before[input_id].stopped[id], lookups@, id)
                &&& tells_failures(r->Ok_0.failed@, before[input_id].stopped, lookups@)
                &&& updates(r->Ok_0.metrics@) == start_metrics(r->Ok_0.outputs@.len() as int)
            }
        }),
{
    broadcast use vstd::std_specs::hash::group_hash_axioms;

    let ghost before = streams@;
    match streams.remove(&input_id) {
        None => {
            assert(models(streams@) =~= models(before));
            Err(input_not_found(input_id))
        },
        Some(mut info) => {
            let ghost was = info@;
            assert(models(before)[input_id] == was);
            if info.status.is_active() {
                streams.insert(input_id, info);
                assert(models(streams@) =~= models(before));
                return Err(input_message(input_id, " is already running"));
            }
            info.status = start_status_of(&info.config);
            info.running = true;
            info.started_at = Some(now);
            let r = restart_outputs(&mut info, input_id, lookups, now);
            let ghost restarted = info@;
            resume_analyses(&mut info, input_id, now);
            assert(restarted.paused == was.paused && restarted.analyses == was.analyses);
            assert(is_resumed(info@, restarted, input_id, now));
            assert(is_started(info@, was, lookups@, input_id, now));
            streams.insert(input_id, info);
            assert(models(streams@) =~= models(before).insert(input_id, info@));
            Ok(r)
        },
    }
}

// ---------------------------------------------------------------- stopping an input

/// What stopping an input leaves to do: tasks of outputs and of analyses to end.
#[derive(Debug)]
pub struct StoppedInput {
    pub outputs: Vec<i64>,
    pub analyses: Vec<AnalysisInfo>,
}

/// The stopped outputs of an input once it stops: those of before, and those that were active.
pub open spec fn stopped_after(before: InputModel) -> Map<i64, CreateOutputRequest> {
    before.stopped.union_prefer_right(
        Map::new(
            |id: i64| before.outputs.contains_key(id) && before.outputs[id].status.active(),
            |id: i64| before.outputs[id].config,
        ),
    )
}

/// The kinds of analyses, in their order.
pub open spec fn kinds_of(analyses: Seq<AnalysisInfo>) -> Seq<AnalysisType> {
    analyses.map_values(|a: AnalysisInfo| a.analysis_type)
}

/// An input that was stopped: nothing of it runs, its active outputs are kept to start again,
/// and its analyses are paused.
pub open spec fn stopped_model(before: InputModel) -> InputModel {
    InputModel {
        status: StreamStatus::Stopped,
        running: false,
        started_at: None,
        outputs: Map::empty(),
        stopped: stopped_after(before),
        analyses: Seq::empty(),
        paused: before.paused + kinds_of(before.analyses),
        ..before
    }
}

/// Whether an output is among the first `k` of a list and is active.
spec fn handled(
    keys: Seq<i64>,
    k: int,
    outputs: Map<i64, OutputInfo>,
    id: i64,
) -> bool {
    outputs[id].status.active() && exists|j: int| 0 <= j < k && #[trigger] keys[j] == id
}

fn stop_outputs(info: &mut InputInfo) -> (r: Vec<i64>)
    ensures
        final(info)@ == (InputModel {
            outputs: Map::empty(),
            stopped: stopped_after(old(info)@),
            ..old(info)@
        }),
        r@.no_duplicates(),
        forall|id: i64| #[trigger]
            r@.contains(id) <==> old(info)@.outputs.contains_key(id) && old(
                info,
            )@.outputs[id].status.active(),
{
    broadcast use vstd::std_specs::hash::group_hash_axioms;

    let ghost was = info@;
    let keys = keys_of(&info.output_tasks);
    let mut r: Vec<i64> = Vec::new();
    let mut k: usize = 0;
    while k < keys.len()
        invariant
            k <= keys@.len(),
            keys@.no_duplicates(),
            forall|id: i64| #[trigger] keys@.contains(id) <==> was.outputs.contains_key(id),
            forall|j: int|
                k <= j < keys@.len() ==> info@.outputs.contains_key(#[trigger] keys@[j])
                    && info@.outputs[keys@[j]] == was.outputs[keys@[j]],
            forall|id: i64| #[trigger]
                info@.outputs.contains_key(id) ==> exists|j: int|
                    k <= j < keys@.len() && keys@[j] == id,
            info@ == (InputModel { stopped: info@.stopped, outputs: info@.outputs, ..was }),
            forall|j: int|
                0 <= j < k && was.outputs[#[trigger] keys@[j]].status.active()
                    ==> info@.stopped.contains_key(keys@[j]) && info@.stopped[keys@[j]]
                    == was.outputs[keys@[j]].config && r@.contains(keys@[j]),
            forall|id: i64|
                #![trigger info@.stopped.contains_key(id)]
                !handled(keys@, k as int, was.outputs, id) ==> info@.stopped.contains_key(id)
                    == was.stopped.contains_key(id) && (was.stopped.contains_key(id)
                    ==> info@.stopped[id] == was.stopped[id]),
            r@.no_duplicates(),
            forall|i: int|
                0 <= i < r@.len() ==> was.outputs[#[trigger] r@[i]].status.active() && exists|
                    j: int,
                |
                    0 <= j < k && keys@[j] == r@[i],
        decreases keys@.len() - k,
    {
        let id: i64 = keys[k];
        let ghost i0 = info@;
        let ghost r0 = r@;
        assert(keys@.contains(id));
        if let Some(output) = info.output_tasks.remove(&id) {
            assert(output == was.outputs[id]);
            if output.status.is_active() {
                info.stopped_outputs.insert(id, output.config);
                r.push(id);
                proof {
                    assert(r@[r0.len() as int] == id);
                    assert forall|i: int| 0 <= i < r0.len() implies r0[i] != id by {
                        let j = choose|j: int| 0 <= j < k && keys@[j] == r0[i];
                        assert(keys@[j] != keys@[k as int]);
                    }
                    assert forall|x: i64| r0.contains(x) implies r@.contains(x) by {
                        let i = choose|i: int| 0 <= i < r0.len() && r0[i] == x;
                        assert(r@[i] == x);
                    }
                }
            }
        }
        k += 1;
        proof {
            assert(info@ =~= (InputModel {
                stopped: info@.stopped,
                outputs: info@.outputs,
                ..was
            }));
            assert forall|j: int| k <= j < keys@.len() implies keys@[j] != id by {
                assert(keys@[j] != keys@[k - 1]);
            }
            assert forall|j: int| 0 <= j < k - 1 implies #[trigger] keys@[j] != id by {
                assert(keys@[j] != keys@[k - 1]);
            }
            assert forall|x: i64| #[trigger] info@.outputs.contains_key(x) implies exists|j: int|
                k <= j < keys@.len() && keys@[j] == x by {
                assert(i0.outputs.contains_key(x));
                let j = choose|j: int| k - 1 <= j < keys@.len() && keys@[j] == x;
                assert(j != k - 1);
            }
            assert forall|x: i64|
                #![trigger info@.stopped.contains_key(x)]
                !handled(keys@, k as int, was.outputs, x) implies info@.stopped.contains_key(x)
                == was.stopped.contains_key(x) && (was.stopped.contains_key(x) ==> info@.stopped[x]
                == was.stopped[x]) by {
                assert(!handled(keys@, k - 1, was.outputs, x));
                assert(i0.stopped.contains_key(x) == was.stopped.contains_key(x));
                if x == id {
                    assert(keys@[k - 1] == x);
                }
            }
        }
    }
    proof {
        assert(info@.outputs =~= Map::<i64, OutputInfo>::empty());
        assert forall|id: i64| #[trigger] r@.contains(id) implies was.outputs.contains_key(id)
            && was.outputs[id].status.active() by {
            let i = choose|i: int| 0 <= i < r@.len() && r@[i] == id;
            let j = choose|j: int| 0 <= j < keys@.len() && keys@[j] == r@[i];
            assert(keys@.contains(id));
        }
        assert forall|id: i64|
            was.outputs.contains_key(id)
                && was.outputs[id].status.active() implies #[trigger] r@.contains(id)
            && info@.stopped.contains_key(id) && info@.stopped[id] == was.outputs[id].config by {
            assert(keys@.contains(id));
            let j = choose|j: int| 0 <= j < keys@.len() && keys@[j] == id;
            assert(keys@[j] == id);
        }
        assert forall|id: i64|
            !(was.outputs.contains_key(id)
                && was.outputs[id].status.active()) implies #[trigger] info@.stopped.contains_key(
            id,
        ) == was.stopped.contains_key(id) && (was.stopped.contains_key(id) ==> info@.stopped[id]
            == was.stopped[id]) by {
            if handled(keys@, k as int, was.outputs, id) {
                assert(keys@.contains(id));
                assert(was.outputs.contains_key(id));
                assert(false);
            }
            assert(info@.stopped.contains_key(id) == was.stopped.contains_key(id));
            assert(was.stopped.contains_key(id) ==> info@.stopped[id] == was.stopped[id]);
        }
        let expected = stopped_after(was);
        assert forall|id: i64| #[trigger] info@.stopped.contains_key(id) implies
            expected.contains_key(id) && expected[id] == info@.stopped[id] by {
            if was.outputs.contains_key(id) && was.outputs[id].status.active() {
                assert(r@.contains(id));
            }
        }
        assert forall|id: i64| #[trigger] expected.contains_key(id) implies
            info@.stopped.contains_key(id) by {
            if was.outputs.contains_key(id) && was.outputs[id].status.active() {
                assert(r@.contains(id));
            }
        }
        assert(info@.stopped =~= expected);
    }
    r
}

fn pause_analyses(info: &mut InputInfo) -> (r: Vec<AnalysisInfo>)
    ensures
        r@ == old(info)@.analyses,
        final(info)@ == (InputModel {
            analyses: Seq::empty(),
            paused: old(info)@.paused + kinds_of(old(info)@.analyses),
            ..old(info)@
        }),
{
    let ghost was = info@;
    let mut analyses: Vec<AnalysisInfo> = Vec::new();
    std::mem::swap(&mut analyses, &mut info.analysis_tasks);
    let mut paused: Vec<AnalysisType> = Vec::new();
    std::mem::swap(&mut paused, &mut info.paused_analysis);
    let mut i: usize = 0;
    assert(paused@ =~= was.paused + kinds_of(analyses@.take(0)));
    while i < analyses.len()
        invariant
            i <= analyses@.len(),
            analyses@ == was.analyses,
            paused@ == was.paused + kinds_of(analyses@.take(i as int)),
        decreases analyses@.len() - i,
    {
        paused.push(analyses[i].analysis_type);
        i += 1;
        assert(paused@ =~= was.paused + kinds_of(analyses@.take(i as int)));
    }
    assert(analyses@.take(analyses@.len() as int) =~= analyses@);
    info.paused_analysis = paused;
    analyses
}

/// Stop an input that is not stopped.
pub fn stop_input(streams: &mut InputsMap, input_id: i64) -> (r: Result<StoppedInput, String>)
    ensures
        ({
            let before = models(old(streams)@);
            let after = models(final(streams)@);
            if !before.contains_key(input_id) {
                &&& r matches Err(e) && e@ == about_input(input_id, " not found"@)
                &&& after == before
            } else if before[input_id].status == StreamStatus::Stopped {
                &&& r matches Err(e) && e@ == about_input(input_id, " is already stopped"@)
                &&& after == before
            } else {
                let was = before[input_id];
                &&& r is Ok
                &&& after == before.insert(input_id, stopped_model(was))
                &&& r->Ok_0.analyses@ == was.analyses
                &&& r->Ok_0.outputs@.no_duplicates()
                &&& forall|id: i64| #[trigger]
                    r->Ok_0.outputs@.contains(id) <==> was.outputs.contains_key(id)
                        && was.outputs[id].status.active()
            }
        }),
{
    broadcast use vstd::std_specs::hash::group_hash_axioms;

    let ghost before = streams@;
    match streams.remove(&input_id) {
        None => {
            assert(models(streams@) =~= models(before));
            Err(input_not_found(input_id))
        },
        Some(mut info) => {
            let ghost was = info@;
            assert(models(before)[input_id] == was);
            if info.status == StreamStatus::Stopped {
                streams.insert(input_id, info);
                assert(models(streams@) =~= models(before));
                return Err(input_message(input_id, " is already stopped"));
            }
            let outputs = stop_outputs(&mut info);
            let analyses = pause_analyses(&mut info);
            info.running = false;
            info.status = StreamStatus::Stopped;
            info.started_at = None;
            assert(info@ =~= stopped_model(was));
            streams.insert(input_id, info);
            assert(models(streams@) =~= models(before).insert(input_id, info@));
            Ok(StoppedInput { outputs, analyses })
        },
    }
}

// ---------------------------------------------------------------- single outputs

/// Why an output cannot start, before anything is tried.
pub open spec fn start_output_refusal(
    streams: Map<i64, InputModel>,
    input_id: i64,
    output_id: i64,
) -> Option<Seq<char>> {
    if !streams.contains_key(input_id) {
        Some(about_input(input_id, " not found"@))
    } else if streams[input_id].status == StreamStatus::Stopped {
        Some(
            "Cannot start output "@ + signed_decimal(output_id as int) + " because input "@
                + signed_decimal(input_id as int) + " is stopped"@,
        )
    } else if streams[input_id].stopped.contains_key(output_id) {
        None
    } else if streams[input_id].outputs.contains_key(output_id) {
        Some(about_output(output_id, " is already running"@))
    } else {
        Some(output_not_in_input(output_id, input_id))
    }
}

/// Start an output that is stopped. The destination of a UDP output was looked up before. An
/// output that cannot start is no longer among the stopped ones.
pub fn start_output(
    streams: &mut InputsMap,
    input_id: i64,
    output_id: i64,
    lookup: Lookup,
    now: UnixNanos,
) -> (r: Result<MetricUpdate, String>)
    ensures
        ({
            let before = models(old(streams)@);
            let after = models(final(streams)@);
            match start_output_refusal(before, input_id, output_id) {
                Some(p) => (r matches Err(e) && e@ == p) && after == before,
                None => {
                    let was = before[input_id];
                    let config = was.stopped[output_id];
                    let without = was.stopped.remove(output_id);
                    if config is Srt || lookup is Found {
                        &&& r matches Ok(m) && m@ == bare_update(
                            Metric::ActiveOutputs,
                            MetricChange::Increment,
                        )
                        &&& exists|o: OutputInfo| #[trigger]
                            is_restarted_output(o, input_id, output_id, config, now) && after
                                == before.insert(
                                input_id,
                                InputModel {
                                    stopped: without,
                                    outputs: was.outputs.insert(output_id, o),
                                    ..was
                                },
                            )
                    } else {
                        &&& r matches Err(e) && e@ == restart_problem(config, lookup)
                        &&& after == before.insert(input_id, InputModel { stopped: without, ..was })
                    }
                },
            }
        }),
{
    broadcast use vstd::std_specs::hash::group_hash_axioms;

    let ghost before = streams@;
    match streams.remove(&input_id) {
        None => {
            assert(models(streams@) =~= models(before));
            Err(input_not_found(input_id))
        },
        Some(mut info) => {
            let ghost was = info@;
            assert(models(before)[input_id] == was);
            if info.status == StreamStatus::Stopped {
                streams.insert(input_id, info);
                assert(models(streams@) =~= models(before));
                let o = signed_decimal_text(output_id);
                let i = signed_decimal_text(input_id);
                return Err(
                    join5(
                        "Cannot start output ",
                        o.as_str(),
                        " because input ",
                        i.as_str(),
                        " is stopped",
                    ),
                );
            }
            match info.stopped_outputs.remove(&output_id) {
                Some(config) => match restart_output(input_id, output_id, config, lookup, now) {
                    Ok(o) => {
                        let ghost made = o;
                        assert(is_restarted_output(made, input_id, output_id, config, now));
                        info.output_tasks.insert(output_id, o);
                        assert(info@ =~= (InputModel {
                            stopped: was.stopped.remove(output_id),
                            outputs: was.outputs.insert(output_id, made),
                            ..was
                        }));
                        streams.insert(input_id, info);
                        assert(models(streams@) =~= models(before).insert(input_id, info@));
                        Ok(increment_active_outputs())
                    },
                    Err(e) => {
                        assert(info@ =~= (InputModel {
                            stopped: was.stopped.remove(output_id),
                            ..was
                        }));
                        streams.insert(input_id, info);
                        assert(models(streams@) =~= models(before).insert(input_id, info@));
                        Err(e)
                    },
                },
                None => {
                    let known: bool = info.output_tasks.contains_key(&output_id);
                    assert(info@ =~= was);
                    streams.insert(input_id, info);
                    assert(models(streams@) =~= models(before));
                    if known {
                        Err(output_message(output_id, " is already running"))
                    } else {
                        Err(output_missing(output_id, input_id))
                    }
                },
            }
        },
    }
}

/// Why an output cannot be stopped.
pub open spec fn stop_output_refusal(
    streams: Map<i64, InputModel>,
    input_id: i64,
    output_id: i64,
) -> Option<Seq<char>> {
    if !streams.contains_key(input_id) {
        Some(about_input(input_id, " not found"@))
    } else if streams[input_id].outputs.contains_key(output_id) {
        None
    } else if streams[input_id].stopped.contains_key(output_id) {
        Some(about_output(output_id, " is already stopped"@))
    } else {
        Some(output_not_in_input(output_id, input_id))
    }
}

/// An input after one of its outputs was stopped: what it is made from is kept.
pub open spec fn without_output(was: InputModel, output_id: i64) -> InputModel {
    InputModel {
        outputs: was.outputs.remove(output_id),
        stopped: was.stopped.insert(output_id, was.outputs[output_id].config),
        ..was
    }
}

/// Stop an output that runs.
pub fn stop_output(streams: &mut InputsMap, input_id: i64, output_id: i64) -> (r: Result<
    (),
    String,
>)
    ensures
        ({
            let before = models(old(streams)@);
            let after = models(final(streams)@);
            match stop_output_refusal(before, input_id, output_id) {
                Some(p) => (r matches Err(e) && e@ == p) && after == before,
                None => r is Ok && after == before.insert(
                    input_id,
                    without_output(before[input_id], output_id),
                ),
            }
        }),
{
    broadcast use vstd::std_specs::hash::group_hash_axioms;

    let ghost before = streams@;
    match streams.remove(&input_id) {
        None => {
            assert(models(streams@) =~= models(before));
            Err(input_not_found(input_id))
        },
        Some(mut info) => {
            let ghost was = info@;
            assert(models(before)[input_id] == was);
            match info.output_tasks.remove(&output_id) {
                Some(output) => {
                    info.stopped_outputs.insert(output_id, output.config);
                    assert(info@ =~= without_output(was, output_id));
                    streams.insert(input_id, info);
                    assert(models(streams@) =~= models(before).insert(input_id, info@));
                    Ok(())
                },
                None => {
                    let stopped: bool = info.stopped_outputs.contains_key(&output_id);
                    assert(info@ =~= was);
                    streams.insert(input_id, info);
                    assert(models(streams@) =~= models(before));
                    if stopped {
                        Err(output_message(output_id, " is already stopped"))
                    } else {
                        Err(output_missing(output_id, input_id))
                    }
                },
            }
        },
    }
}

// ---------------------------------------------------------------- laws

/// Stopping an input and starting it again brings back every output that was active, made from
/// the same configuration, where the destinations are found.
pub proof fn law_stop_then_start_restores_outputs(
    before: InputModel,
    after: InputModel,
    lookups: Map<i64, Lookup>,
    input_id: i64,
    now: UnixNanos,
    output_id: i64,
)
    requires
        is_started(after, stopped_model(before), lookups, input_id, now),
        before.outputs.contains_key(output_id),
        before.outputs[output_id].status.active(),
        can_restart(before.outputs[output_id].config, lookups, output_id),
    ensures
        after.status.active(),
        after.outputs.contains_key(output_id),
        is_restarted_output(
            after.outputs[output_id],
            input_id,
            output_id,
            before.outputs[output_id].config,
            now,
        ),
{
    assert(stopped_model(before).stopped.contains_key(output_id));
    assert(stopped_model(before).stopped[output_id] == before.outputs[output_id].config);
    assert(after.outputs.contains_key(output_id));
}

/// A UDP output that stops and starts again, or an SRT output that does, keeps its number, its
/// name, its kind and its destination. The destination of the UDP output is a host without a
/// colon, and a port.
pub proof fn law_restarted_output_is_the_same(
    o: OutputInfo,
    again: OutputInfo,
    input_id: i64,
    output_id: i64,
    host: Seq<char>,
    port: u16,
    name: Option<String>,
    bind_host: Option<String>,
    multicast: Option<crate::naming::MulticastOutputConfig>,
    srt: crate::requests::SrtOutputConfig,
    then: UnixNanos,
    now: UnixNanos,
)
    requires
        is_restarted_output(again, input_id, output_id, o.config, now),
        is_srt_output(o, input_id, srt, output_id, name, then) || (is_udp_output(
            o,
            input_id,
            address_text(host, port),
            output_id,
            name,
            bind_host,
            multicast,
            then,
        ) && forall|i: int| 0 <= i < host.len() ==> #[trigger] host[i] != ':'),
    ensures
        again.id == o.id,
        again.input_id == o.input_id,
        opt_text(again.name) == opt_text(o.name),
        again.kind == o.kind,
        again.destination@ == o.destination@,
{
    if o.config is Udp {
        crate::text_laws::law_address_round_trip(host, port);
    }
}

/// Stopping an input and starting it again makes no kind of analysis run twice, and none that
/// neither ran nor was paused.
pub proof fn law_stop_then_start_adds_no_analysis(
    before: InputModel,
    after: InputModel,
    lookups: Map<i64, Lookup>,
    input_id: i64,
    now: UnixNanos,
)
    requires
        is_started(after, stopped_model(before), lookups, input_id, now),
    ensures
        one_of_each_kind(after.analyses),
        forall|kind: AnalysisType| #[trigger]
            runs(after.analyses, kind) ==> runs(before.analyses, kind) || before.paused.contains(
                kind,
            ),
{
    let s = stopped_model(before);
    let fresh = choose|fresh: Seq<AnalysisInfo>| #[trigger]
        are_new(fresh, s.paused, input_id, now) && resumed(s.analyses, s.paused, fresh) == (
            after.analyses,
            after.paused,
        );
    law_resume_from_nothing(s.paused, fresh);
    lemma_paused_kinds(before);
}

/// Stopping an input and starting it again leaves no analysis behind: where no two of the
/// analyses that start get one identifier, every kind that ran or was paused runs. Where no
/// analysis was paused before, the same kinds run as before and none is paused.
pub proof fn law_stop_then_start_resumes_analyses(
    before: InputModel,
    after: InputModel,
    lookups: Map<i64, Lookup>,
    input_id: i64,
    now: UnixNanos,
    fresh: Seq<AnalysisInfo>,
)
    requires
        is_started(after, stopped_model(before), lookups, input_id, now),
        are_new(fresh, stopped_model(before).paused, input_id, now),
        resumed(stopped_model(before).analyses, stopped_model(before).paused, fresh) == (
            after.analyses,
            after.paused,
        ),
        ids_differ(fresh),
    ensures
        forall|kind: AnalysisType| #[trigger]
            runs(after.analyses, kind) <==> runs(before.analyses, kind) || before.paused.contains(
                kind,
            ),
        before.paused.len() == 0 && one_of_each_kind(before.analyses) ==> after.paused.len() == 0
            && kinds_of(after.analyses) == kinds_of(before.analyses),
{
    let s = stopped_model(before);
    law_resume_from_nothing(s.paused, fresh);
    lemma_paused_kinds(before);
    if before.paused.len() == 0 && one_of_each_kind(before.analyses) {
        assert(s.paused =~= kinds_of(before.analyses));
        assert(kinds_of(after.analyses) =~= kinds_of(before.analyses));
    }
}

proof fn lemma_paused_kinds(before: InputModel)
    ensures
        forall|kind: AnalysisType| #[trigger]
            stopped_model(before).paused.contains(kind) <==> runs(before.analyses, kind)
                || before.paused.contains(kind),
{
    let s = stopped_model(before);
    let n = before.paused.len() as int;
    assert forall|kind: AnalysisType| #[trigger]
        s.paused.contains(kind) <==> runs(before.analyses, kind) || before.paused.contains(
            kind,
        ) by {
        if s.paused.contains(kind) {
            let j = choose|j: int| 0 <= j < s.paused.len() && s.paused[j] == kind;
            if j < n {
                assert(before.paused[j] == kind);
            } else {
                assert(before.analyses[j - n].analysis_type == kind);
            }
        }
        if runs(before.analyses, kind) {
            let j = choose|j: int|
                0 <= j < before.analyses.len() && (#[trigger] before.analyses[j]).analysis_type
                    == kind;
            assert(s.paused[n + j] == kind);
        }
        if before.paused.contains(kind) {
            let j = choose|j: int| 0 <= j < n && before.paused[j] == kind;
            assert(s.paused[j] == kind);
        }
    }
}

/// Outputs that run and outputs that are stopped are different ones.
pub open spec fn running_or_stopped(i: InputModel) -> bool {
    forall|id: i64| #[trigger] i.outputs.contains_key(id) ==> !i.stopped.contains_key(id)
}

/// No operation makes an output both run and be stopped.
pub proof fn law_outputs_run_or_are_stopped(
    before: InputModel,
    after: InputModel,
    lookups: Map<i64, Lookup>,
    input_id: i64,
    output_id: i64,
    now: UnixNanos,
    o: OutputInfo,
)
    requires
        running_or_stopped(before),
    ensures
        running_or_stopped(stopped_model(before)),
        is_started(after, before, lookups, input_id, now) ==> running_or_stopped(after),
        before.outputs.contains_key(output_id) ==> running_or_stopped(
            without_output(before, output_id),
        ),
        before.stopped.contains_key(output_id) ==> running_or_stopped(
            InputModel {
                stopped: before.stopped.remove(output_id),
                outputs: before.outputs.insert(output_id, o),
                ..before
            },
        ),
{
}

/// A stopped output that starts again and is stopped once more is kept under the same number,
/// and the rest of the input is as before.
pub proof fn law_start_then_stop_output(was: InputModel, output_id: i64, o: OutputInfo)
    requires
        was.stopped.contains_key(output_id),
        !was.outputs.contains_key(output_id),
    ensures
        without_output(
            InputModel {
                stopped: was.stopped.remove(output_id),
                outputs: was.outputs.insert(output_id, o),
                ..was
            },
            output_id,
        ) == (InputModel { stopped: was.stopped.insert(output_id, o.config), ..was }),
{
    let mid = InputModel {
        stopped: was.stopped.remove(output_id),
        outputs: was.outputs.insert(output_id, o),
        ..was
    };
    assert(mid.outputs.remove(output_id) =~= was.outputs);
    assert(mid.stopped.insert(output_id, o.config) =~= was.stopped.insert(output_id, o.config));
}

} // verus!
