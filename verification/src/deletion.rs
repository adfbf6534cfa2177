//! Removing streams.
use vstd::prelude::*;
use crate::listing::{no_such_input, no_such_input_text};
use crate::maps::{keys_of, lists_keys};
use crate::metrics::{
    bare_update, decrement_active_inputs, decrement_active_outputs, updates, Metric, MetricChange,
    MetricUpdate, MetricUpdateModel,
};
use crate::streams::{fresh, models, AnalysisInfo, InputModel, InputsMap, OutputInfo};
use crate::text::{join5, signed_decimal, signed_decimal_text};

verus! {

/// What removing an input leaves to do: tasks to end and metrics to change.
#[derive(Debug)]
pub struct DeletedInput {
    /// Whether a task runs for the input.
    pub running: bool,
    /// Outputs that run.
    pub outputs: Vec<i64>,
    pub analyses: Vec<AnalysisInfo>,
    pub metrics: Vec<MetricUpdate>,
}

/// One input less, and `n` outputs less.
pub open spec fn removal_metrics(n: int) -> Seq<MetricUpdateModel> {
    seq![bare_update(Metric::ActiveInputs, MetricChange::Decrement)] + Seq::new(
        n as nat,
        |i: int| bare_update(Metric::ActiveOutputs, MetricChange::Decrement),
    )
}

/// Remove an input with all that hangs on it.
pub fn delete_input(streams: &mut InputsMap, input_id: i64) -> (r: Result<DeletedInput, String>)
    ensures
        ({
            let before = models(old(streams)@);
            let after = models(final(streams)@);
            if before.contains_key(input_id) {
                let was = before[input_id];
                &&& r is Ok
                &&& after == before.remove(input_id)
                &&& r->Ok_0.running == was.running
                &&& lists_keys(r->Ok_0.outputs@, was.outputs)
                &&& r->Ok_0.analyses@ == was.analyses
                &&& updates(r->Ok_0.metrics@) == removal_metrics(was.outputs.len() as int)
            } else {
                &&& r matches Err(e) && e@ == no_such_input(input_id)
                &&& after == before
            }
        }),
{
    broadcast use vstd::std_specs::hash::group_hash_axioms;

    let ghost before = streams@;
    match streams.remove(&input_id) {
        None => {
            assert(models(streams@) =~= models(before));
            Err(no_such_input_text(input_id))
        },
        Some(info) => {
            assert(models(before)[input_id] == info@);
            assert(models(streams@) =~= models(before).remove(input_id));
            let outputs = keys_of(&info.output_tasks);
            let mut metrics: Vec<MetricUpdate> = vec![decrement_active_inputs()];
            assert(updates(metrics@) =~= removal_metrics(0));
            let mut k: usize = 0;
            while k < outputs.len()
                invariant
                    k <= outputs@.len(),
                    updates(metrics@) == removal_metrics(k as int),
                decreases outputs@.len() - k,
            {
                let ghost m0 = metrics@;
                metrics.push(decrement_active_outputs());
                k += 1;
                proof {
                    let one = bare_update(Metric::ActiveOutputs, MetricChange::Decrement);
                    assert(updates(metrics@) =~= updates(m0).push(one));
                    assert(removal_metrics(k - 1).push(one) =~= removal_metrics(k as int));
                }
            }
            Ok(
                DeletedInput {
                    running: info.running,
                    outputs,
                    analyses: info.analysis_tasks,
                    metrics,
                },
            )
        },
    }
}

/// The answer for an output that an input does not run.
pub open spec fn no_such_output_of(output_id: i64, input_id: i64) -> Seq<char> {
    "Output con ID '"@ + signed_decimal(output_id as int) + "' no encontrado para Input '"@
        + signed_decimal(input_id as int) + "'"@
}

/// Remove an output that runs.
pub fn delete_output(streams: &mut InputsMap, input_id: i64, output_id: i64) -> (r: Result<
    MetricUpdate,
    String,
>)
    ensures
        ({
            let before = models(old(streams)@);
            let after = models(final(streams)@);
            if !before.contains_key(input_id) {
                &&& r matches Err(e) && e@ == no_such_input(input_id)
                &&& after == before
            } else if !before[input_id].outputs.contains_key(output_id) {
                &&& r matches Err(e) && e@ == no_such_output_of(output_id, input_id)
                &&& after == before
            } else {
                let was = before[input_id];
                &&& r matches Ok(m) && m@ == bare_update(
                    Metric::ActiveOutputs,
                    MetricChange::Decrement,
                )
                &&& after == before.insert(
                    input_id,
                    InputModel { outputs: was.outputs.remove(output_id), ..was },
                )
            }
        }),
{
    broadcast use vstd::std_specs::hash::group_hash_axioms;

    let ghost before = streams@;
    match streams.remove(&input_id) {
        None => {
            assert(models(streams@) =~= models(before));
            Err(no_such_input_text(input_id))
        },
        Some(mut info) => {
            let ghost was = info@;
            assert(models(before)[input_id] == was);
            let removed = info.output_tasks.remove(&output_id);
            assert(info@ =~= (InputModel { outputs: was.outputs.remove(output_id), ..was }));
            streams.insert(input_id, info);
            assert(models(streams@) =~= models(before).insert(input_id, info@));
            if removed.is_some() {
                Ok(decrement_active_outputs())
            } else {
                assert(was.outputs.remove(output_id) =~= was.outputs);
                assert(models(streams@) =~= models(before));
                let o = signed_decimal_text(output_id);
                let i = signed_decimal_text(input_id);
                Err(
                    join5(
                        "Output con ID '",
                        o.as_str(),
                        "' no encontrado para Input '",
                        i.as_str(),
                        "'",
                    ),
                )
            }
        },
    }
}

// ---------------------------------------------------------------- laws

/// Removing an input that was just made leaves the other inputs as they were, and takes back the
/// one input that making it added to the metrics. The same holds for an output.
pub proof fn law_removal_undoes_making(
    streams: Map<i64, InputModel>,
    id: i64,
    i: InputModel,
    was: InputModel,
    output_id: i64,
    o: OutputInfo,
)
    requires
        !streams.contains_key(id),
        fresh(i),
        !was.outputs.contains_key(output_id),
    ensures
        streams.insert(id, i).remove(id) == streams,
        removal_metrics(i.outputs.len() as int) == seq![
            bare_update(Metric::ActiveInputs, MetricChange::Decrement),
        ],
        was.outputs.insert(output_id, o).remove(output_id) == was.outputs,
{
    assert(streams.insert(id, i).remove(id) =~= streams);
    assert(was.outputs.insert(output_id, o).remove(output_id) =~= was.outputs);
    assert(removal_metrics(0) =~= seq![bare_update(Metric::ActiveInputs, MetricChange::Decrement)]);
}

} // verus!
