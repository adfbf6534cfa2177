//! Bringing back the streams that the database holds when the gateway starts.
use std::collections::HashMap;
use vstd::prelude::*;
use crate::clock::UnixNanos;
use crate::creation::{is_draft, is_made_output, OutputDraft};
use crate::ip::{is_socket_address, parse_socket_address};
use crate::metrics::{
    bare_update, increment_active_inputs, increment_active_outputs, updates, Metric, MetricChange,
    MetricUpdate, MetricUpdateModel,
};
use crate::naming::{new_destination, output_kind_key};
use crate::requests::{
    CreateInputRequest, CreateOutputRequest, SrtInputConfig, SrtOutputConfig,
};
use crate::responses::{InputRow, OutputRow};
use crate::srt_config::SrtCommonConfig;
use crate::srt_stream::SrtSinkWithState;
use crate::streams::{
    create_srt_output, create_udp_output, is_spawned_input, is_srt_output, is_stopped_input,
    is_udp_output, models, spawn_input, stopped_input, InputModel, InputsMap, Lookup, OutputInfo,
};
use crate::text::{clone_text, join2, opt_text, signed_decimal, signed_decimal_text, text_eq};

verus! {

// ---------------------------------------------------------------- inputs

/// A row of the table of inputs with its configuration read both ways: as a whole request, and
/// as the SRT side of one.
#[derive(Debug)]
pub struct InputRowData {
    pub row: InputRow,
    pub request: Result<CreateInputRequest, String>,
    pub srt: Result<SrtInputConfig, String>,
}

/// What a row of the table of inputs asks for.
pub enum InputLoad {
    /// A kind that is not brought back.
    Skip,
    /// The configuration cannot be read; the load ends.
    Fail(Seq<char>),
    /// Known, but not running.
    Stopped(CreateInputRequest),
    /// Running.
    Running(CreateInputRequest),
}

/// What a row of the table of inputs asks for. A stopped SRT input takes its name along into its
/// configuration, a running one does not.
pub open spec fn input_load(d: InputRowData) -> InputLoad {
    let stopped = d.row.status@ == "stopped"@;
    if d.row.kind@ == "udp"@ {
        match d.request {
            Ok(req) => if stopped {
                InputLoad::Stopped(req)
            } else {
                InputLoad::Running(req)
            },
            Err(e) => InputLoad::Fail(e@),
        }
    } else if d.row.kind@ == "srt_listener"@ || d.row.kind@ == "srt_caller"@ {
        match d.srt {
            Ok(config) => if stopped {
                InputLoad::Stopped(CreateInputRequest::Srt { name: d.row.name, config })
            } else {
                InputLoad::Running(CreateInputRequest::Srt { name: None, config })
            },
            Err(e) => InputLoad::Fail(e@),
        }
    } else {
        InputLoad::Skip
    }
}

/// How one row changes the inputs.
pub open spec fn input_row_loaded(
    before: Map<i64, InputModel>,
    d: InputRowData,
    now: UnixNanos,
    after: Map<i64, InputModel>,
) -> bool {
    match input_load(d) {
        InputLoad::Skip => after == before,
        InputLoad::Fail(_) => false,
        InputLoad::Stopped(config) => after.contains_key(d.row.id) && after == before.insert(
            d.row.id,
            after[d.row.id],
        ) && is_stopped_input(after[d.row.id], d.row.id, d.row.name, config),
        InputLoad::Running(req) => after.contains_key(d.row.id) && after == before.insert(
            d.row.id,
            after[d.row.id],
        ) && is_spawned_input(after[d.row.id], req, d.row.id, d.row.name, now),
    }
}

/// Whether the inputs develop from nothing, row by row, to what was loaded.
pub open spec fn inputs_loaded(
    rows: Seq<InputRowData>,
    now: UnixNanos,
    trace: Seq<Map<i64, InputModel>>,
) -> bool {
    &&& trace.len() == rows.len() + 1
    &&& trace[0] == Map::<i64, InputModel>::empty()
    &&& forall|k: int|
        0 <= k < rows.len() ==> input_row_loaded(
            trace[k],
            #[trigger] rows[k],
            now,
            trace[k + 1],
        )
}

/// The first row that ends the load.
pub open spec fn first_failing_input(rows: Seq<InputRowData>, k: int) -> bool {
    &&& 0 <= k < rows.len()
    &&& input_load(rows[k]) is Fail
    &&& forall|j: int| 0 <= j < k ==> !(input_load(#[trigger] rows[j]) is Fail)
}

/// Number of rows whose inputs run.
pub open spec fn started_inputs(rows: Seq<InputRowData>) -> nat
    decreases rows.len(),
{
    if rows.len() == 0 {
        0
    } else {
        started_inputs(rows.drop_last()) + (if input_load(rows.last()) is Running {
            1nat
        } else {
            0nat
        })
    }
}

/// So many more inputs run.
pub open spec fn inputs_more(n: nat) -> Seq<MetricUpdateModel> {
    Seq::new(n, |i: int| bare_update(Metric::ActiveInputs, MetricChange::Increment))
}

/// So many more outputs run.
pub open spec fn outputs_more(n: nat) -> Seq<MetricUpdateModel> {
    Seq::new(n, |i: int| bare_update(Metric::ActiveOutputs, MetricChange::Increment))
}

/// Inputs that were loaded, and metrics to change.
#[derive(Debug)]
pub struct LoadedInputs {
    pub inputs: InputsMap,
    pub metrics: Vec<MetricUpdate>,
}

/// Why a load ended at a row, and the metrics to change for the rows in front of it.
#[derive(Debug)]
pub struct LoadFailure {
    pub message: String,
    pub metrics: Vec<MetricUpdate>,
}

/// Load the inputs. Those that were stopped are known but do not run. One configuration that
/// cannot be read ends the load; the inputs in front of it have been counted as running then.
pub fn load_inputs(rows: Vec<InputRowData>, now: UnixNanos) -> (r: Result<
    LoadedInputs,
    LoadFailure,
>)
    ensures
        match r {
            Ok(l) => exists|trace: Seq<Map<i64, InputModel>>| #[trigger]
                inputs_loaded(rows@, now, trace) && trace.last() == models(l.inputs@) && updates(
                    l.metrics@,
                ) == inputs_more(started_inputs(rows@)),
            Err(e) => exists|k: int| #[trigger]
                first_failing_input(rows@, k) && input_load(rows@[k]) == InputLoad::Fail(
                    e.message@,
                ) && updates(e.metrics@) == inputs_more(started_inputs(rows@.take(k))),
        },
{
    broadcast use vstd::std_specs::hash::group_hash_axioms;

    let ghost all = rows@;
    let mut rest: Vec<InputRowData> = rows;
    let mut inputs: InputsMap = HashMap::new();
    let mut metrics: Vec<MetricUpdate> = Vec::new();
    let ghost mut trace: Seq<Map<i64, InputModel>> = seq![Map::empty()];
    let ghost mut k: int = 0;
    assert(models(inputs@) =~= Map::<i64, InputModel>::empty());
    assert(updates(metrics@) =~= inputs_more(started_inputs(all.take(0))));
    while rest.len() > 0
        invariant
            0 <= k <= all.len(),
            all == rows@,
            updates(metrics@) == inputs_more(started_inputs(all.take(k))),
            rest@ == all.skip(k),
            trace.len() == k + 1,
            trace[0] == Map::<i64, InputModel>::empty(),
            trace[k] == models(inputs@),
            forall|j: int|
                0 <= j < k ==> input_row_loaded(trace[j], #[trigger] all[j], now, trace[j + 1]),
            forall|j: int| 0 <= j < k ==> !(input_load(#[trigger] all[j]) is Fail),
        decreases rest@.len(),
    {
        let d = rest.remove(0);
        let ghost data = d;
        let ghost before = models(inputs@);
        let ghost m0 = metrics@;
        assert(data == all[k]);
        assert(all.take(k + 1).drop_last() =~= all.take(k));
        assert(all.take(k + 1).last() == data);
        let stopped: bool = text_eq(d.row.status.as_str(), "stopped");
        let id: i64 = d.row.id;
        let is_udp: bool = text_eq(d.row.kind.as_str(), "udp");
        let is_srt: bool = text_eq(d.row.kind.as_str(), "srt_listener") || text_eq(
            d.row.kind.as_str(),
            "srt_caller",
        );
        if is_udp || is_srt {
            let req: CreateInputRequest = if is_udp {
                match d.request {
                    Ok(req) => req,
                    Err(e) => {
                        assert(first_failing_input(all, k));
                        return Err(LoadFailure { message: e, metrics });
                    },
                }
            } else {
                match d.srt {
                    Ok(config) => {
                        let name = if stopped {
                            clone_text(&d.row.name)
                        } else {
                            None
                        };
                        CreateInputRequest::Srt { name, config }
                    },
                    Err(e) => {
                        assert(first_failing_input(all, k));
                        return Err(LoadFailure { message: e, metrics });
                    },
                }
            };
            let info = if stopped {
                stopped_input(id, d.row.name, req)
            } else {
                metrics.push(increment_active_inputs());
                spawn_input(req, id, d.row.name, now)
            };
            let ghost made = info@;
            let ghost i0 = inputs@;
            inputs.insert(id, info);
            assert(models(inputs@) =~= models(i0).insert(id, made));
        }
        proof {
            assert(input_row_loaded(before, data, now, models(inputs@)));
            let one = bare_update(Metric::ActiveInputs, MetricChange::Increment);
            if input_load(data) is Running {
                assert(updates(metrics@) =~= updates(m0).push(one));
            }
            assert(updates(metrics@) =~= inputs_more(started_inputs(all.take(k + 1))));
            let t0 = trace;
            trace = trace.push(models(inputs@));
            k = k + 1;
            assert(rest@ =~= all.skip(k));
            assert forall|j: int| 0 <= j < k implies input_row_loaded(
                trace[j],
                #[trigger] all[j],
                now,
                trace[j + 1],
            ) by {
                if j < k - 1 {
                    assert(trace[j] == t0[j]);
                    assert(trace[j + 1] == t0[j + 1]);
                }
            }
        }
    }
    assert(inputs_loaded(all, now, trace));
    assert(all.take(k) =~= all);
    Ok(LoadedInputs { inputs, metrics })
}

// ---------------------------------------------------------------- outputs

/// A row of the table of outputs with what its configuration reads as, and what looking up its
/// destination gave.
#[derive(Debug)]
pub struct OutputRowData {
    pub row: OutputRow,
    /// The SRT side of the output, where the configuration reads as one.
    pub config: Option<SrtOutputConfig>,
    /// The common SRT settings; those of an empty configuration, where there is none.
    pub common: Result<SrtCommonConfig, String>,
    pub lookup: Lookup,
}

/// The destination in a row, by default an empty one.
pub open spec fn row_destination(row: OutputRow) -> Seq<char> {
    match row.destination {
        Some(d) => d@,
        None => Seq::empty(),
    }
}

/// Whether the destination of a row is looked up: that of a UDP output that is to run, on an
/// input that was loaded, where it is an address with a port.
pub open spec fn needs_lookup(inputs: Set<i64>, row: OutputRow) -> bool {
    &&& inputs.contains(row.input_id)
    &&& row.kind@ == "udp"@
    &&& row.status@ != "stopped"@
    &&& is_socket_address(row_destination(row))
}

/// The destination to look up before a row is loaded.
pub fn row_to_look_up(inputs: &InputsMap, row: &OutputRow) -> (r: Option<String>)
    ensures
        opt_text(r) == (if needs_lookup(models(inputs@).dom(), *row) {
            Some(row_destination(*row))
        } else {
            None
        }),
{
    broadcast use vstd::std_specs::hash::group_hash_axioms;

    let destination = match &row.destination {
        Some(t) => t.clone(),
        None => String::new(),
    };
    assert(destination@ =~= row_destination(*row));
    if inputs.contains_key(&row.input_id) && text_eq(row.kind.as_str(), "udp") && !text_eq(
        row.status.as_str(),
        "stopped",
    ) && parse_socket_address(destination.as_str()) {
        Some(destination)
    } else {
        None
    }
}

/// SRT settings without anything set.
pub open spec fn plain_srt() -> SrtCommonConfig {
    SrtCommonConfig {
        latency_ms: None,
        stream_id: None,
        passphrase: None,
        expected_bitrate_kbps: None,
        fec: None,
    }
}

/// A caller for a destination.
pub open spec fn is_caller_for(
    c: SrtOutputConfig,
    destination: Seq<char>,
    settings: SrtCommonConfig,
) -> bool {
    c matches SrtOutputConfig::Caller {
        remote_host,
        remote_port,
        common,
        bind_host,
        destination_addr,
    } && remote_host is None && remote_port is None && bind_host is None && opt_text(
        destination_addr,
    ) == Some(destination) && common == settings
}

/// A listener on a port.
pub open spec fn listener_on(port: u16, settings: SrtCommonConfig) -> SrtOutputConfig {
    SrtOutputConfig::Listener {
        bind_host: None,
        bind_port: None,
        automatic_port: None,
        common: settings,
        listen_port: Some(port),
    }
}

/// What a stopped output is kept as. Where its configuration does not read, a caller calls the
/// destination of the row, and a listener listens on the port of the row, by default 8000.
pub open spec fn is_kept_as(c: CreateOutputRequest, d: OutputRowData) -> bool {
    if d.row.kind@ == "udp"@ {
        c matches CreateOutputRequest::Udp {
            input_id,
            remote_host,
            remote_port,
            automatic_port,
            name,
            bind_host,
            multicast_ttl,
            multicast_interface,
            destination_addr,
        } && input_id == d.row.input_id && remote_host is None && remote_port is None
            && automatic_port is None && name == d.row.name && bind_host is None && multicast_ttl
            is None && multicast_interface is None && opt_text(destination_addr) == Some(
            row_destination(d.row),
        )
    } else {
        c matches CreateOutputRequest::Srt { input_id, name, config } && input_id == d.row.input_id
            && name == d.row.name && (match d.config {
            Some(given) => config == given,
            None => if d.row.kind@ == "srt_caller"@ {
                is_caller_for(config, row_destination(d.row), plain_srt())
            } else {
                config == listener_on(
                    match d.row.listen_port {
                        Some(p) => p,
                        None => 8000,
                    },
                    plain_srt(),
                )
            },
        })
    }
}

/// The kinds of outputs that are brought back.
pub open spec fn is_loaded_kind(kind: Seq<char>) -> bool {
    kind == "udp"@ || kind == "srt_caller"@ || kind == "srt_listener"@
}

/// Why a row of a running output ends the load: SRT settings that do not read, or an SRT
/// listener without a port.
pub open spec fn output_row_failure(d: OutputRowData) -> Option<Seq<char>> {
    if d.row.status@ == "stopped"@ || !(d.row.kind@ == "srt_caller"@ || d.row.kind@
        == "srt_listener"@) {
        None
    } else {
        match d.common {
            Err(e) => Some(e@),
            Ok(_) => if d.row.kind@ == "srt_listener"@ && d.row.listen_port is None {
                Some(
                    "Missing listen_port for SRT Listener output "@ + signed_decimal(
                        d.row.id as int,
                    ),
                )
            } else {
                None
            },
        }
    }
}

/// How one row changes the inputs. Rows of inputs that were not loaded change nothing, nor do
/// rows of other kinds, nor UDP outputs whose destination is no address with a port or was not
/// found.
pub open spec fn output_row_loaded(
    before: Map<i64, InputModel>,
    d: OutputRowData,
    now: UnixNanos,
    after: Map<i64, InputModel>,
) -> bool {
    let input_id = d.row.input_id;
    let id = d.row.id;
    let destination = row_destination(d.row);
    if !before.contains_key(input_id) || !is_loaded_kind(d.row.kind@) {
        after == before
    } else {
        let was = before[input_id];
        if d.row.status@ == "stopped"@ {
            exists|c: CreateOutputRequest| #[trigger]
                is_kept_as(c, d) && after == before.insert(
                    input_id,
                    InputModel { stopped: was.stopped.insert(id, c), ..was },
                )
        } else if d.row.kind@ == "udp"@ {
            if is_socket_address(destination) && d.lookup is Found {
                exists|o: OutputInfo| #[trigger]
                    is_udp_output(o, input_id, destination, id, d.row.name, None, None, now)
                        && after == before.insert(
                        input_id,
                        InputModel { outputs: was.outputs.insert(id, o), ..was },
                    )
            } else {
                after == before
            }
        } else {
            &&& output_row_failure(d) is None
            &&& exists|o: OutputInfo, c: SrtOutputConfig|
                #![trigger is_srt_output(o, input_id, c, id, d.row.name, now)]
                is_srt_output(o, input_id, c, id, d.row.name, now) && (if d.row.kind@
                    == "srt_caller"@ {
                    is_caller_for(c, destination, d.common->Ok_0)
                } else {
                    c == listener_on(d.row.listen_port->0, d.common->Ok_0)
                }) && after == before.insert(
                    input_id,
                    InputModel { outputs: was.outputs.insert(id, o), ..was },
                )
        }
    }
}

/// Whether a row starts an output of an input that was loaded.
pub open spec fn starts_output(inputs: Set<i64>, d: OutputRowData) -> bool {
    &&& inputs.contains(d.row.input_id)
    &&& is_loaded_kind(d.row.kind@)
    &&& d.row.status@ != "stopped"@
    &&& d.row.kind@ == "udp"@ ==> is_socket_address(row_destination(d.row)) && d.lookup is Found
}

/// Number of rows whose outputs run.
pub open spec fn started_outputs(inputs: Set<i64>, rows: Seq<OutputRowData>) -> nat
    decreases rows.len(),
{
    if rows.len() == 0 {
        0
    } else {
        started_outputs(inputs, rows.drop_last()) + (if starts_output(inputs, rows.last()) {
            1nat
        } else {
            0nat
        })
    }
}

/// Whether the inputs develop, row by row, to what was loaded.
pub open spec fn outputs_loaded(
    before: Map<i64, InputModel>,
    rows: Seq<OutputRowData>,
    now: UnixNanos,
    trace: Seq<Map<i64, InputModel>>,
) -> bool {
    &&& trace.len() == rows.len() + 1
    &&& trace[0] == before
    &&& forall|k: int|
        0 <= k < rows.len() ==> output_row_loaded(
            trace[k],
            #[trigger] rows[k],
            now,
            trace[k + 1],
        )
}

/// A row that ends the load: it belongs to an input that was loaded and cannot be used.
pub open spec fn is_failing_output(
    inputs: Map<i64, InputModel>,
    rows: Seq<OutputRowData>,
    k: int,
) -> bool {
    &&& 0 <= k < rows.len()
    &&& inputs.contains_key(rows[k].row.input_id)
    &&& output_row_failure(rows[k]) is Some
    &&& forall|j: int|
        0 <= j < k && inputs.contains_key((#[trigger] rows[j]).row.input_id) ==> output_row_failure(
            rows[j],
        ) is None
}

proof fn lemma_kinds_differ()
    ensures
        "udp"@ != "srt_caller"@,
        "udp"@ != "srt_listener"@,
        "srt_caller"@ != "srt_listener"@,
{
    reveal_strlit("udp");
    reveal_strlit("srt_caller");
    reveal_strlit("srt_listener");
    assert("udp"@.len() == 3);
    assert("srt_caller"@.len() == 10);
    assert("srt_listener"@.len() == 12);
}

fn plain_settings() -> (r: SrtCommonConfig)
    ensures
        r == plain_srt(),
{
    SrtCommonConfig {
        latency_ms: None,
        stream_id: None,
        passphrase: None,
        expected_bitrate_kbps: None,
        fec: None,
    }
}

fn caller_for(destination: String, settings: SrtCommonConfig) -> (r: SrtOutputConfig)
    ensures
        is_caller_for(r, destination@, settings),
{
    SrtOutputConfig::Caller {
        remote_host: None,
        remote_port: None,
        common: settings,
        bind_host: None,
        destination_addr: Some(destination),
    }
}

fn kept_as(d: OutputRowData, destination: String) -> (r: CreateOutputRequest)
    requires
        is_loaded_kind(d.row.kind@),
        destination@ == row_destination(d.row),
    ensures
        is_kept_as(r, d),
{
    let input_id: i64 = d.row.input_id;
    if text_eq(d.row.kind.as_str(), "udp") {
        return CreateOutputRequest::Udp {
            input_id,
            remote_host: None,
            remote_port: None,
            automatic_port: None,
            name: d.row.name,
            bind_host: None,
            multicast_ttl: None,
            multicast_interface: None,
            destination_addr: Some(destination),
        };
    }
    let config = match d.config {
        Some(given) => given,
        None => if text_eq(d.row.kind.as_str(), "srt_caller") {
            caller_for(destination, plain_settings())
        } else {
            let port: u16 = match d.row.listen_port {
                Some(p) => p,
                None => 8000,
            };
            SrtOutputConfig::Listener {
                bind_host: None,
                bind_port: None,
                automatic_port: None,
                common: plain_settings(),
                listen_port: Some(port),
            }
        },
    };
    CreateOutputRequest::Srt { input_id, name: d.row.name, config }
}

/// What became of one row of a loaded input.
enum LoadedOutput {
    Stopped(CreateOutputRequest),
    Running(OutputInfo),
    Nothing,
}

fn make_running(
    d: OutputRowData,
    destination: String,
    now: UnixNanos,
) -> (r: Result<LoadedOutput, String>)
    requires
        is_loaded_kind(d.row.kind@),
        d.row.status@ != "stopped"@,
        destination@ == row_destination(d.row),
    ensures
        match r {
            Err(e) => output_row_failure(d) == Some(e@),
            Ok(made) => {
                &&& output_row_failure(d) is None
                &&& if d.row.kind@ == "udp"@ {
                    if is_socket_address(destination@) && d.lookup is Found {
                        made matches LoadedOutput::Running(o) && is_udp_output(
                            o,
                            d.row.input_id,
                            destination@,
                            d.row.id,
                            d.row.name,
                            None,
                            None,
                            now,
                        )
                    } else {
                        made is Nothing
                    }
                } else {
                    made matches LoadedOutput::Running(o) && exists|c: SrtOutputConfig| #[trigger]
                        is_srt_output(o, d.row.input_id, c, d.row.id, d.row.name, now) && (
                        if d.row.kind@ == "srt_caller"@ {
                            is_caller_for(c, destination@, d.common->Ok_0)
                        } else {
                            c == listener_on(d.row.listen_port->0, d.common->Ok_0)
                        })
                }
            },
        },
{
    let input_id: i64 = d.row.input_id;
    let id: i64 = d.row.id;
    proof {
        lemma_kinds_differ();
    }
    if text_eq(d.row.kind.as_str(), "udp") {
        if !parse_socket_address(destination.as_str()) {
            return Ok(LoadedOutput::Nothing);
        }
        return match create_udp_output(
            input_id,
            destination,
            id,
            d.row.name,
            None,
            &None,
            d.lookup,
            now,
        ) {
            Ok(o) => Ok(LoadedOutput::Running(o)),
            Err(_) => Ok(LoadedOutput::Nothing),
        };
    }
    let common = match d.common {
        Ok(c) => c,
        Err(e) => {
            return Err(e);
        },
    };
    let ghost given = common;
    let config = if text_eq(d.row.kind.as_str(), "srt_caller") {
        caller_for(destination, common)
    } else {
        match d.row.listen_port {
            Some(port) => SrtOutputConfig::Listener {
                bind_host: None,
                bind_port: None,
                automatic_port: None,
                common,
                listen_port: Some(port),
            },
            None => {
                let n = signed_decimal_text(id);
                return Err(join2("Missing listen_port for SRT Listener output ", n.as_str()));
            },
        }
    };
    let ghost c = config;
    let o = create_srt_output(input_id, config, id, d.row.name, now);
    assert(is_srt_output(o, input_id, c, id, d.row.name, now));
    Ok(LoadedOutput::Running(o))
}

fn load_output_row(
    inputs: &mut InputsMap,
    d: OutputRowData,
    now: UnixNanos,
) -> (r: Result<bool, String>)
    ensures
        match r {
            Ok(running) => {
                &&& output_row_loaded(models(old(inputs)@), d, now, models(final(inputs)@))
                &&& models(old(inputs)@).contains_key(d.row.input_id) ==> output_row_failure(d)
                    is None
                &&& running == starts_output(models(old(inputs)@).dom(), d)
            },
            Err(e) => models(old(inputs)@).contains_key(d.row.input_id) && output_row_failure(d)
                == Some(e@) && models(final(inputs)@) == models(old(inputs)@),
        },
{
    broadcast use vstd::std_specs::hash::group_hash_axioms;

    let ghost before = inputs@;
    let ghost data = d;
    let input_id: i64 = d.row.input_id;
    let id: i64 = d.row.id;
    let stopped: bool = text_eq(d.row.status.as_str(), "stopped");
    let known_kind: bool = text_eq(d.row.kind.as_str(), "udp") || text_eq(
        d.row.kind.as_str(),
        "srt_caller",
    ) || text_eq(d.row.kind.as_str(), "srt_listener");
    if !inputs.contains_key(&input_id) || !known_kind {
        return Ok(false);
    }
    let destination = match &d.row.destination {
        Some(t) => t.clone(),
        None => String::new(),
    };
    assert(destination@ =~= row_destination(data.row));
    let made = if stopped {
        let c = kept_as(d, destination);
        LoadedOutput::Stopped(c)
    } else {
        match make_running(d, destination, now) {
            Ok(made) => made,
            Err(e) => {
                return Err(e);
            },
        }
    };
    match inputs.remove(&input_id) {
        None => Ok(false),
        Some(mut info) => {
            let ghost was = info@;
            assert(models(before)[input_id] == was);
            let mut running: bool = false;
            match made {
                LoadedOutput::Stopped(c) => {
                    let ghost kept = c;
                    assert(is_kept_as(kept, data));
                    info.stopped_outputs.insert(id, c);
                    assert(info@ =~= (InputModel {
                        stopped: was.stopped.insert(id, kept),
                        ..was
                    }));
                },
                LoadedOutput::Running(o) => {
                    let ghost added = o;
                    running = true;
                    info.output_tasks.insert(id, o);
                    assert(info@ =~= (InputModel {
                        outputs: was.outputs.insert(id, added),
                        ..was
                    }));
                },
                LoadedOutput::Nothing => {
                    assert(info@ =~= was);
                },
            }
            inputs.insert(input_id, info);
            assert(models(inputs@) =~= models(before).insert(input_id, info@));
            proof {
                if made is Nothing {
                    assert(models(inputs@) =~= models(before));
                }
            }
            Ok(running)
        },
    }
}

/// Load the outputs of the inputs that were loaded. One row that cannot be used ends the load;
/// the rows in front of it have been loaded, and their outputs counted as running, then.
pub fn load_outputs(
    inputs: &mut InputsMap,
    rows: Vec<OutputRowData>,
    now: UnixNanos,
) -> (r: Result<Vec<MetricUpdate>, LoadFailure>)
    ensures
        match r {
            Ok(metrics) => updates(metrics@) == outputs_more(
                started_outputs(models(old(inputs)@).dom(), rows@),
            ) && exists|trace: Seq<Map<i64, InputModel>>| #[trigger]
                outputs_loaded(models(old(inputs)@), rows@, now, trace) && trace.last() == models(
                    final(inputs)@,
                ),
            Err(e) => exists|k: int, trace: Seq<Map<i64, InputModel>>|
                #![trigger is_failing_output(models(old(inputs)@), rows@, k), outputs_loaded(
                    models(old(inputs)@),
                    rows@.take(k),
                    now,
                    trace,
                )]
                is_failing_output(models(old(inputs)@), rows@, k) && output_row_failure(rows@[k])
                    == Some(e.message@) && outputs_loaded(
                    models(old(inputs)@),
                    rows@.take(k),
                    now,
                    trace,
                ) && trace.last() == models(final(inputs)@) && updates(e.metrics@) == outputs_more(
                    started_outputs(models(old(inputs)@).dom(), rows@.take(k)),
                ),
        },
{
    let ghost all = rows@;
    let ghost before = models(inputs@);
    let mut rest: Vec<OutputRowData> = rows;
    let mut metrics: Vec<MetricUpdate> = Vec::new();
    let ghost mut trace: Seq<Map<i64, InputModel>> = seq![before];
    let ghost mut k: int = 0;
    assert(updates(metrics@) =~= outputs_more(started_outputs(before.dom(), all.take(0))));
    while rest.len() > 0
        invariant
            0 <= k <= all.len(),
            all == rows@,
            updates(metrics@) == outputs_more(started_outputs(before.dom(), all.take(k))),
            before == models(old(inputs)@),
            rest@ == all.skip(k),
            trace.len() == k + 1,
            trace[0] == before,
            trace[k] == models(inputs@),
            models(inputs@).dom() == before.dom(),
            forall|j: int|
                0 <= j < k ==> output_row_loaded(trace[j], #[trigger] all[j], now, trace[j + 1]),
            forall|j: int|
                0 <= j < k && before.contains_key((#[trigger] all[j]).row.input_id)
                    ==> output_row_failure(all[j]) is None,
        decreases rest@.len(),
    {
        let d = rest.remove(0);
        let ghost m0 = models(inputs@);
        let ghost u0 = metrics@;
        assert(d == all[k]);
        let ghost data = d;
        assert(all.take(k + 1).drop_last() =~= all.take(k));
        assert(all.take(k + 1).last() == data);
        match load_output_row(inputs, d, now) {
            Ok(running) => {
                if running {
                    metrics.push(increment_active_outputs());
                }
            },
            Err(e) => {
                assert(before.contains_key(data.row.input_id));
                assert(is_failing_output(before, all, k));
                assert forall|j: int| 0 <= j < k implies output_row_loaded(
                    trace[j],
                    #[trigger] all.take(k)[j],
                    now,
                    trace[j + 1],
                ) by {
                    assert(all.take(k)[j] == all[j]);
                }
                assert(outputs_loaded(before, all.take(k), now, trace));
                return Err(LoadFailure { message: e, metrics });
            },
        }
        proof {
            assert(models(inputs@).dom() =~= m0.dom());
            let one = bare_update(Metric::ActiveOutputs, MetricChange::Increment);
            if starts_output(before.dom(), data) {
                assert(updates(metrics@) =~= updates(u0).push(one));
            }
            assert(updates(metrics@) =~= outputs_more(
                started_outputs(before.dom(), all.take(k + 1)),
            ));
            let t0 = trace;
            trace = trace.push(models(inputs@));
            k = k + 1;
            assert(rest@ =~= all.skip(k));
            assert forall|j: int| 0 <= j < k implies output_row_loaded(
                trace[j],
                #[trigger] all[j],
                now,
                trace[j + 1],
            ) by {
                if j < k - 1 {
                    assert(trace[j] == t0[j]);
                    assert(trace[j + 1] == t0[j + 1]);
                }
            }
        }
    }
    assert(outputs_loaded(before, all, now, trace));
    assert(all.take(k) =~= all);
    Ok(metrics)
}

// ---------------------------------------------------------------- laws

/// Every row of a kind that is brought back gives an input, and every input comes from such a
/// row and sits under its own number.
pub proof fn law_inputs_come_from_rows(
    rows: Seq<InputRowData>,
    now: UnixNanos,
    trace: Seq<Map<i64, InputModel>>,
    id: i64,
)
    requires
        inputs_loaded(rows, now, trace),
    ensures
        trace.last().contains_key(id) <==> exists|k: int|
            0 <= k < rows.len() && (#[trigger] rows[k]).row.id == id && !(input_load(rows[k])
                is Skip),
        trace.last().contains_key(id) ==> trace.last()[id].id == id,
{
    lemma_inputs_so_far(rows, now, trace, id, rows.len() as int);
}

proof fn lemma_inputs_so_far(
    rows: Seq<InputRowData>,
    now: UnixNanos,
    trace: Seq<Map<i64, InputModel>>,
    id: i64,
    n: int,
)
    requires
        inputs_loaded(rows, now, trace),
        0 <= n <= rows.len(),
    ensures
        trace[n].contains_key(id) <==> exists|k: int|
            0 <= k < n && (#[trigger] rows[k]).row.id == id && !(input_load(rows[k]) is Skip),
        trace[n].contains_key(id) ==> trace[n][id].id == id,
    decreases n,
{
    if n > 0 {
        lemma_inputs_so_far(rows, now, trace, id, n - 1);
        assert(input_row_loaded(trace[n - 1], rows[n - 1], now, trace[n]));
        let d = rows[n - 1];
        if d.row.id == id && !(input_load(d) is Skip) {
            assert(trace[n].contains_key(id));
        } else {
            assert(trace[n].contains_key(id) == trace[n - 1].contains_key(id));
        }
    }
}

/// An input whose row says that it is stopped does not run after the load, and any other does,
/// where no later row has its number.
pub proof fn law_stopped_inputs_stay_stopped(
    rows: Seq<InputRowData>,
    now: UnixNanos,
    trace: Seq<Map<i64, InputModel>>,
    k: int,
)
    requires
        inputs_loaded(rows, now, trace),
        0 <= k < rows.len(),
        !(input_load(rows[k]) is Skip),
        forall|j: int| k < j < rows.len() ==> (#[trigger] rows[j]).row.id != rows[k].row.id,
    ensures
        trace.last()[rows[k].row.id].running == (rows[k].row.status@ != "stopped"@),
        rows[k].row.name is Some ==> opt_text(trace.last()[rows[k].row.id].name) == opt_text(
            rows[k].row.name,
        ),
{
    lemma_row_stays(rows, now, trace, k, rows.len() as int);
    assert(input_row_loaded(trace[k], rows[k], now, trace[k + 1]));
}

proof fn lemma_row_stays(
    rows: Seq<InputRowData>,
    now: UnixNanos,
    trace: Seq<Map<i64, InputModel>>,
    k: int,
    n: int,
)
    requires
        inputs_loaded(rows, now, trace),
        0 <= k < n <= rows.len(),
        !(input_load(rows[k]) is Skip),
        forall|j: int| k < j < rows.len() ==> (#[trigger] rows[j]).row.id != rows[k].row.id,
    ensures
        trace[n].contains_key(rows[k].row.id),
        trace[n][rows[k].row.id] == trace[k + 1][rows[k].row.id],
    decreases n,
{
    if n > k + 1 {
        lemma_row_stays(rows, now, trace, k, n - 1);
        assert(input_row_loaded(trace[n - 1], rows[n - 1], now, trace[n]));
        assert(rows[n - 1].row.id != rows[k].row.id);
    } else {
        assert(input_row_loaded(trace[k], rows[k], now, trace[k + 1]));
    }
}

/// Loading outputs neither makes nor loses an input.
pub proof fn law_outputs_keep_inputs(
    before: Map<i64, InputModel>,
    rows: Seq<OutputRowData>,
    now: UnixNanos,
    trace: Seq<Map<i64, InputModel>>,
)
    requires
        outputs_loaded(before, rows, now, trace),
    ensures
        trace.last().dom() == before.dom(),
{
    lemma_outputs_keep_inputs(before, rows, now, trace, rows.len() as int);
}

proof fn lemma_outputs_keep_inputs(
    before: Map<i64, InputModel>,
    rows: Seq<OutputRowData>,
    now: UnixNanos,
    trace: Seq<Map<i64, InputModel>>,
    n: int,
)
    requires
        outputs_loaded(before, rows, now, trace),
        0 <= n <= rows.len(),
    ensures
        trace[n].dom() == before.dom(),
    decreases n,
{
    if n > 0 {
        lemma_outputs_keep_inputs(before, rows, now, trace, n - 1);
        assert(output_row_loaded(trace[n - 1], rows[n - 1], now, trace[n]));
        assert(trace[n].dom() =~= trace[n - 1].dom());
    }
}

/// An input that was saved when it was made runs again after a load: a UDP input as it was made,
/// an SRT input with the same SRT side. Program filters are not brought back.
pub proof fn law_saved_inputs_come_back(req: CreateInputRequest, d: InputRowData)
    requires
        !(req is Spts),
        d.row.kind@ == req.kind_key(),
        d.row.status@ == "listening"@,
        d.request == Ok::<CreateInputRequest, String>(req),
        req matches CreateInputRequest::Srt { config, .. } ==> d.srt == Ok::<
            SrtInputConfig,
            String,
        >(config),
    ensures
        match req {
            CreateInputRequest::Srt { config, .. } => input_load(d) == InputLoad::Running(
                CreateInputRequest::Srt { name: None, config },
            ),
            _ => input_load(d) == InputLoad::Running(req),
        },
{
    lemma_kinds_differ();
    reveal_strlit("listening");
    reveal_strlit("stopped");
    assert("listening"@.len() == 9);
    assert("stopped"@.len() == 7);
}

/// A UDP output that was saved when it was made runs again after a load under the same name and
/// to the same destination, where that is an address with a port and is found.
pub proof fn law_saved_udp_outputs_come_back(
    before: Map<i64, InputModel>,
    after: Map<i64, InputModel>,
    draft: OutputDraft,
    made: OutputInfo,
    made_at: UnixNanos,
    d: OutputRowData,
    now: UnixNanos,
)
    requires
        draft.req is Udp,
        is_draft(draft, draft.req, draft.assigned_port),
        is_made_output(made, draft, d.row.id, made_at),
        opt_text(d.row.name) == Some(draft.name@),
        d.row.input_id == draft.input_id,
        d.row.kind@ == output_kind_key(draft.req),
        row_destination(d.row) == draft.destination@,
        d.row.status@ == "connecting"@,
        is_socket_address(draft.destination@),
        d.lookup is Found,
        before.contains_key(draft.input_id),
        output_row_loaded(before, d, now, after),
    ensures
        after.contains_key(draft.input_id),
        after[draft.input_id].outputs.contains_key(made.id),
        ({
            let o = after[draft.input_id].outputs[made.id];
            &&& o.destination@ == made.destination@
            &&& opt_text(o.name) == opt_text(made.name)
            &&& o.kind == made.kind
            &&& o.status == made.status
        }),
{
    lemma_kinds_differ();
    reveal_strlit("connecting");
    reveal_strlit("stopped");
    assert("connecting"@.len() == 10);
    assert("stopped"@.len() == 7);
}

/// An SRT output that was saved when it was made connects to the same address after a load, or
/// listens on the same port, with the same SRT settings. The host of a caller has no colon.
pub proof fn law_saved_srt_outputs_come_back(
    req: CreateOutputRequest,
    d: OutputRowData,
    c: SrtOutputConfig,
    input_id: i64,
)
    requires
        req is Srt,
        row_destination(d.row) == new_destination(req).0,
        d.row.listen_port == new_destination(req).1,
        d.common == Ok::<SrtCommonConfig, String>(req->config.common_config()),
        req->config matches SrtOutputConfig::Caller { .. } ==> is_caller_for(
            c,
            row_destination(d.row),
            d.common->Ok_0,
        ),
        req->config matches SrtOutputConfig::Listener { .. } ==> d.row.listen_port is Some && c
            == listener_on(d.row.listen_port->0, d.common->Ok_0),
        req.peer_host() matches Some(h) ==> forall|i: int|
            0 <= i < h.len() ==> #[trigger] h[i] != ':',
    ensures
        c.common_config() == req->config.common_config(),
        req->config is Caller ==> (SrtSinkWithState {
            config: c,
            input_id,
            output_id: d.row.id,
        }).address() == (SrtSinkWithState {
            config: req->config,
            input_id,
            output_id: d.row.id,
        }).address(),
        req->config is Listener ==> c.port() == Some(
            match req.port() {
                Some(p) => p,
                None => 8000u16,
            },
        ),
{
    if req->config is Caller {
        let host = match req.peer_host() {
            Some(h) => h,
            None => "127.0.0.1"@,
        };
        let port = match req.peer_port() {
            Some(p) => p,
            None => 8000u16,
        };
        reveal_strlit("127.0.0.1");
        assert forall|i: int| 0 <= i < host.len() implies #[trigger] host[i] != ':' by {}
        crate::text_laws::law_address_round_trip(host, port);
    }
}

/// What looking up a destination gave changes nothing where it need not be looked up.
pub proof fn law_other_rows_need_no_lookup(
    before: Map<i64, InputModel>,
    d: OutputRowData,
    lookup: Lookup,
    now: UnixNanos,
    after: Map<i64, InputModel>,
)
    requires
        !needs_lookup(before.dom(), d.row),
        output_row_loaded(before, d, now, after),
    ensures
        output_row_loaded(before, OutputRowData { lookup, ..d }, now, after),
        starts_output(before.dom(), OutputRowData { lookup, ..d }) == starts_output(
            before.dom(),
            d,
        ),
{
    let other = OutputRowData { lookup, ..d };
    if before.contains_key(d.row.input_id) && d.row.status@ == "stopped"@ && is_loaded_kind(
        d.row.kind@,
    ) {
        let was = before[d.row.input_id];
        let c = choose|c: CreateOutputRequest| #[trigger]
            is_kept_as(c, d) && after == before.insert(
                d.row.input_id,
                InputModel { stopped: was.stopped.insert(d.row.id, c), ..was },
            );
        assert(is_kept_as(c, other));
    }
}

} // verus!
