//! What clients are told of the streams that the gateway knows.
use std::collections::HashMap;
use vstd::prelude::*;
use crate::clock::{calculate_connection_uptime, connection_uptime, UnixNanos};
use crate::maps::{keys_of, lists_keys};
use crate::naming::{
    output_kind_key, output_kind_of, shown_destination, shown_destination_of,
};
use crate::requests::{
    input_type_display_string, input_type_text, usable_port, CreateInputRequest,
    CreateOutputRequest,
};
use crate::responses::{
    InputDetailResponse, InputListResponse, InputResponse, InputRow, OutputDetailResponse,
    OutputListResponse, OutputResponse,
};
use crate::stats::InputStats;
use crate::status::output_kind_string;
use crate::streams::{InputInfo, InputModel, InputsMap, OutputInfo};
use crate::text::{clone_text, join3, opt_text, signed_decimal, signed_decimal_text};

verus! {

// ---------------------------------------------------------------- what the database holds

/// What the database holds of an output: its configuration, and what that means where it can be
/// read.
#[derive(Debug)]
pub struct StoredOutput {
    pub config_json: Option<String>,
    pub config: Option<CreateOutputRequest>,
}

/// What the database holds of an input: its row, and what its configuration means where it can
/// be read.
#[derive(Debug)]
pub struct StoredInput {
    pub row: InputRow,
    pub config: Option<CreateInputRequest>,
}

/// The stored configuration of an output.
pub open spec fn stored_config(stored: Map<i64, StoredOutput>, id: i64) -> Option<String> {
    if stored.contains_key(id) {
        stored[id].config_json
    } else {
        None
    }
}

/// The port in the stored configuration of an output.
pub open spec fn stored_port(stored: Map<i64, StoredOutput>, id: i64) -> Option<u16> {
    if stored.contains_key(id) && stored[id].config is Some {
        stored[id].config->0.assigned_port()
    } else {
        None
    }
}

fn config_of(stored: &HashMap<i64, StoredOutput>, id: i64) -> (r: Option<String>)
    ensures
        r == stored_config(stored@, id),
{
    broadcast use vstd::std_specs::hash::group_hash_axioms;

    match stored.get(&id) {
        Some(s) => clone_text(&s.config_json),
        None => None,
    }
}

fn port_in_config(stored: &HashMap<i64, StoredOutput>, id: i64) -> (r: Option<u16>)
    ensures
        r == stored_port(stored@, id),
{
    broadcast use vstd::std_specs::hash::group_hash_axioms;

    match stored.get(&id) {
        Some(s) => match &s.config {
            Some(c) => c.extract_assigned_port(),
            None => None,
        },
        None => None,
    }
}

/// The kind of an input as people read it, by its row in the database.
pub open spec fn shown_input_type(stored: Option<StoredInput>) -> Seq<char> {
    match stored {
        Some(s) => input_type_text(s.row.kind@),
        None => "Unknown"@,
    }
}

fn input_type_of(stored: Option<&StoredInput>) -> (r: String)
    ensures
        r@ == shown_input_type(
            match stored {
                Some(s) => Some(*s),
                None => None,
            },
        ),
{
    match stored {
        Some(s) => input_type_display_string(s.row.kind.as_str()).to_owned(),
        None => "Unknown".to_owned(),
    }
}

// ---------------------------------------------------------------- messages

/// The answer for an input that is not known.
pub open spec fn no_such_input(id: i64) -> Seq<char> {
    "Input con ID '"@ + signed_decimal(id as int) + "' no encontrado"@
}

/// The answer for an output that is not known.
pub open spec fn no_such_output(id: i64) -> Seq<char> {
    "Output con ID '"@ + signed_decimal(id as int) + "' no encontrado"@
}

/// The answer for an input that is not known.
pub fn no_such_input_text(id: i64) -> (r: String)
    ensures
        r@ == no_such_input(id),
{
    let n = signed_decimal_text(id);
    join3("Input con ID '", n.as_str(), "' no encontrado")
}

fn no_such_output_text(id: i64) -> (r: String)
    ensures
        r@ == no_such_output(id),
{
    let n = signed_decimal_text(id);
    join3("Output con ID '", n.as_str(), "' no encontrado")
}

// ---------------------------------------------------------------- single outputs

/// An output that runs, in full.
pub open spec fn shows_running(
    d: OutputDetailResponse,
    id: i64,
    input_id: i64,
    o: OutputInfo,
    stored: Map<i64, StoredOutput>,
    now: UnixNanos,
) -> bool {
    &&& d.id == id
    &&& d.name == o.name
    &&& d.input_id == input_id
    &&& d.destination == o.destination
    &&& d.output_type@ == o.kind.key()
    &&& d.status@ == o.status.text()
    &&& d.assigned_port == stored_port(stored, id)
    &&& d.config == stored_config(stored, id)
    &&& d.uptime_seconds == connection_uptime(o.status, o.connected_at, now)
    &&& d.peer_address == o.peer_address
    &&& d.error_message == o.error_message
}

/// An output that is stopped, in full. Its configuration in text form is given.
pub open spec fn shows_stopped(
    d: OutputDetailResponse,
    id: i64,
    input_id: i64,
    config: CreateOutputRequest,
    text: Option<String>,
) -> bool {
    &&& d.id == id
    &&& d.name == config.given_name()
    &&& d.input_id == input_id
    &&& d.destination@ == shown_destination(config)
    &&& d.output_type@ == output_kind_key(config)
    &&& d.status@ == "stopped"@
    &&& d.assigned_port == config.assigned_port()
    &&& opt_text(d.config) == (match text {
        Some(t) => Some(t@),
        None => Some(Seq::<char>::empty()),
    })
    &&& d.uptime_seconds is None
    &&& d.peer_address is None
    &&& d.error_message is None
}

fn running_detail(
    id: i64,
    input_id: i64,
    o: &OutputInfo,
    stored: &HashMap<i64, StoredOutput>,
    now: UnixNanos,
) -> (r: OutputDetailResponse)
    ensures
        shows_running(r, id, input_id, *o, stored@, now),
{
    OutputDetailResponse {
        id,
        name: clone_text(&o.name),
        input_id,
        destination: o.destination.clone(),
        output_type: output_kind_string(&o.kind).to_owned(),
        status: o.status.to_string(),
        assigned_port: port_in_config(stored, id),
        config: config_of(stored, id),
        uptime_seconds: calculate_connection_uptime(&o.status, o.connected_at, now),
        peer_address: clone_text(&o.peer_address),
        error_message: clone_text(&o.error_message),
    }
}

fn name_of(config: &CreateOutputRequest) -> (r: Option<String>)
    ensures
        r == config.given_name(),
{
    match config {
        CreateOutputRequest::Udp { name, .. } => clone_text(name),
        CreateOutputRequest::Srt { name, .. } => clone_text(name),
    }
}

fn stopped_detail(
    id: i64,
    input_id: i64,
    config: &CreateOutputRequest,
    text: Option<&String>,
) -> (r: OutputDetailResponse)
    ensures
        shows_stopped(
            r,
            id,
            input_id,
            *config,
            match text {
                Some(t) => Some(*t),
                None => None,
            },
        ),
{
    let json = match text {
        Some(t) => t.clone(),
        None => String::new(),
    };
    OutputDetailResponse {
        id,
        name: name_of(config),
        input_id,
        destination: shown_destination_of(config),
        output_type: output_kind_of(config).to_owned(),
        status: "stopped".to_owned(),
        assigned_port: config.extract_assigned_port(),
        config: Some(json),
        uptime_seconds: None,
        peer_address: None,
        error_message: None,
    }
}

/// The text of a key, where there is one.
pub open spec fn text_for(texts: Map<i64, String>, id: i64) -> Option<String> {
    if texts.contains_key(id) {
        Some(texts[id])
    } else {
        None
    }
}

/// Whether a list shows all outputs of an input: first those that run and then those that are
/// stopped, each once.
pub open spec fn shows_outputs(
    list: Seq<OutputDetailResponse>,
    input_id: i64,
    i: InputModel,
    stored: Map<i64, StoredOutput>,
    texts: Map<i64, String>,
    now: UnixNanos,
) -> bool {
    exists|running: Seq<i64>, stopped: Seq<i64>|
        #![trigger lists_keys(running, i.outputs), lists_keys(stopped, i.stopped)]
        {
            &&& lists_keys(running, i.outputs)
            &&& lists_keys(stopped, i.stopped)
            &&& list.len() == running.len() + stopped.len()
            &&& forall|k: int|
                0 <= k < running.len() ==> shows_running(
                    #[trigger] list[k],
                    running[k],
                    input_id,
                    i.outputs[running[k]],
                    stored,
                    now,
                )
            &&& forall|k: int|
                running.len() <= k < list.len() ==> shows_stopped(
                    #[trigger] list[k],
                    stopped[k - running.len()],
                    input_id,
                    i.stopped[stopped[k - running.len()]],
                    text_for(texts, stopped[k - running.len()]),
                )
        }
}

fn output_details(
    input_id: i64,
    info: &InputInfo,
    stored: &HashMap<i64, StoredOutput>,
    texts: &HashMap<i64, String>,
    now: UnixNanos,
) -> (r: Vec<OutputDetailResponse>)
    ensures
        shows_outputs(r@, input_id, info@, stored@, texts@, now),
{
    broadcast use vstd::std_specs::hash::group_hash_axioms;

    let running = keys_of(&info.output_tasks);
    let stopped = keys_of(&info.stopped_outputs);
    let mut r: Vec<OutputDetailResponse> = Vec::new();
    let mut k: usize = 0;
    while k < running.len()
        invariant
            k <= running@.len(),
            r@.len() == k,
            forall|id: i64| #[trigger]
                running@.contains(id) <==> info.output_tasks@.contains_key(id),
            forall|j: int|
                0 <= j < k ==> shows_running(
                    #[trigger] r@[j],
                    running@[j],
                    input_id,
                    info@.outputs[running@[j]],
                    stored@,
                    now,
                ),
        decreases running@.len() - k,
    {
        let id: i64 = running[k];
        assert(running@.contains(id));
        if let Some(o) = info.output_tasks.get(&id) {
            r.push(running_detail(id, input_id, o, stored, now));
        }
        k += 1;
    }
    let mut m: usize = 0;
    let ghost n = running@.len() as int;
    while m < stopped.len()
        invariant
            m <= stopped@.len(),
            n == running@.len(),
            r@.len() == n + m,
            forall|id: i64| #[trigger]
                stopped@.contains(id) <==> info.stopped_outputs@.contains_key(id),
            forall|j: int|
                0 <= j < n ==> shows_running(
                    #[trigger] r@[j],
                    running@[j],
                    input_id,
                    info@.outputs[running@[j]],
                    stored@,
                    now,
                ),
            forall|j: int|
                n <= j < r@.len() ==> shows_stopped(
                    #[trigger] r@[j],
                    stopped@[j - n],
                    input_id,
                    info@.stopped[stopped@[j - n]],
                    text_for(texts@, stopped@[j - n]),
                ),
        decreases stopped@.len() - m,
    {
        let id: i64 = stopped[m];
        assert(stopped@.contains(id));
        if let Some(c) = info.stopped_outputs.get(&id) {
            let text = texts.get(&id);
            r.push(stopped_detail(id, input_id, c, text));
        }
        m += 1;
    }
    proof {
        assert(lists_keys(running@, info@.outputs));
        assert(lists_keys(stopped@, info@.stopped));
    }
    r
}

// ---------------------------------------------------------------- one input

/// An input in full.
pub open spec fn shows_input(
    d: InputDetailResponse,
    id: i64,
    i: InputModel,
    stored_input: Option<StoredInput>,
    stored: Map<i64, StoredOutput>,
    texts: Map<i64, String>,
    now: UnixNanos,
) -> bool {
    &&& d.id == id
    &&& d.name == i.name
    &&& d.input_type@ == shown_input_type(stored_input)
    &&& d.status@ == i.status.text()
    &&& d.assigned_port == (match stored_input {
        Some(s) => match s.config {
            Some(c) => usable_port(c.port()),
            None => None,
        },
        None => None,
    })
    &&& shows_outputs(d.outputs@, id, i, stored, texts, now)
    &&& d.uptime_seconds == connection_uptime(i.status, i.connected_at, now)
    &&& d.source_address == i.source_address
    &&& d.config == (match stored_input {
        Some(s) => Some(s.row.config_json),
        None => None,
    })
    &&& d.error_message == i.error_message
}

/// An input with all its outputs.
pub fn get_input(
    streams: &InputsMap,
    input_id: i64,
    stored_input: &Option<StoredInput>,
    stored: &HashMap<i64, StoredOutput>,
    texts: &HashMap<i64, String>,
    now: UnixNanos,
) -> (r: Result<InputDetailResponse, String>)
    ensures
        if streams@.contains_key(input_id) {
            r matches Ok(d) && shows_input(
                d,
                input_id,
                streams@[input_id]@,
                *stored_input,
                stored@,
                texts@,
                now,
            )
        } else {
            r matches Err(e) && e@ == no_such_input(input_id)
        },
{
    broadcast use vstd::std_specs::hash::group_hash_axioms;

    match streams.get(&input_id) {
        None => Err(no_such_input_text(input_id)),
        Some(info) => {
            let assigned_port = match stored_input {
                Some(s) => match &s.config {
                    Some(c) => c.extract_assigned_port(),
                    None => None,
                },
                None => None,
            };
            let config = match stored_input {
                Some(s) => Some(s.row.config_json.clone()),
                None => None,
            };
            let outputs = output_details(input_id, info, stored, texts, now);
            Ok(
                InputDetailResponse {
                    id: input_id,
                    name: clone_text(&info.name),
                    input_type: input_type_of(stored_input.as_ref()),
                    status: info.status.to_string(),
                    assigned_port,
                    outputs,
                    uptime_seconds: calculate_connection_uptime(
                        &info.status,
                        info.connected_at,
                        now,
                    ),
                    source_address: clone_text(&info.source_address),
                    config,
                    error_message: clone_text(&info.error_message),
                },
            )
        },
    }
}

/// All outputs of an input.
pub fn get_input_outputs(
    streams: &InputsMap,
    input_id: i64,
    stored: &HashMap<i64, StoredOutput>,
    texts: &HashMap<i64, String>,
    now: UnixNanos,
) -> (r: Result<Vec<OutputDetailResponse>, String>)
    ensures
        if streams@.contains_key(input_id) {
            r matches Ok(list) && shows_outputs(
                list@,
                input_id,
                streams@[input_id]@,
                stored@,
                texts@,
                now,
            )
        } else {
            r matches Err(e) && e@ == no_such_input(input_id)
        },
{
    broadcast use vstd::std_specs::hash::group_hash_axioms;

    match streams.get(&input_id) {
        None => Err(no_such_input_text(input_id)),
        Some(info) => Ok(output_details(input_id, info, stored, texts, now)),
    }
}

/// Whether an input runs an output.
pub open spec fn runs_output(streams: Map<i64, InputInfo>, input_id: i64, output_id: i64) -> bool {
    streams.contains_key(input_id) && streams[input_id]@.outputs.contains_key(output_id)
}

/// An output that runs, wherever it hangs.
pub fn get_output(
    streams: &InputsMap,
    output_id: i64,
    stored: &HashMap<i64, StoredOutput>,
    now: UnixNanos,
) -> (r: Result<OutputDetailResponse, String>)
    ensures
        match r {
            Ok(d) => exists|input_id: i64| #[trigger]
                runs_output(streams@, input_id, output_id) && shows_running(
                    d,
                    output_id,
                    input_id,
                    streams@[input_id]@.outputs[output_id],
                    stored@,
                    now,
                ),
            Err(e) => e@ == no_such_output(output_id) && forall|input_id: i64| !#[trigger]
                runs_output(streams@, input_id, output_id),
        },
{
    broadcast use vstd::std_specs::hash::group_hash_axioms;

    let inputs = keys_of(streams);
    let mut k: usize = 0;
    while k < inputs.len()
        invariant
            k <= inputs@.len(),
            forall|id: i64| #[trigger] inputs@.contains(id) <==> streams@.contains_key(id),
            forall|j: int|
                0 <= j < k ==> !runs_output(streams@, #[trigger] inputs@[j], output_id),
        decreases inputs@.len() - k,
    {
        let input_id: i64 = inputs[k];
        assert(inputs@.contains(input_id));
        if let Some(info) = streams.get(&input_id) {
            if let Some(o) = info.output_tasks.get(&output_id) {
                assert(runs_output(streams@, input_id, output_id));
                return Ok(running_detail(output_id, input_id, o, stored, now));
            }
        }
        k += 1;
    }
    assert forall|input_id: i64| !#[trigger] runs_output(streams@, input_id, output_id) by {
        if streams@.contains_key(input_id) {
            assert(inputs@.contains(input_id));
            let j = choose|j: int| 0 <= j < inputs@.len() && inputs@[j] == input_id;
            assert(inputs@[j] == input_id);
        }
    }
    Err(no_such_output_text(output_id))
}

// ---------------------------------------------------------------- all inputs

/// An input in the list of inputs.
pub open spec fn lists_input(
    e: InputListResponse,
    id: i64,
    i: InputModel,
    stored: Option<StoredInput>,
    now: UnixNanos,
) -> bool {
    &&& e.id == id
    &&& e.name == i.name
    &&& e.input_type@ == shown_input_type(stored)
    &&& e.status@ == i.status.text()
    &&& e.assigned_port == usable_port(i.config.port())
    &&& e.output_count == i.outputs.len()
    &&& e.uptime_seconds == connection_uptime(i.status, i.connected_at, now)
    &&& e.source_address == i.source_address
    &&& e.error_message == i.error_message
}

/// What the database holds of an input.
pub open spec fn stored_for(stored: Map<i64, StoredInput>, id: i64) -> Option<StoredInput> {
    if stored.contains_key(id) {
        Some(stored[id])
    } else {
        None
    }
}

/// All inputs, each once.
pub fn list_inputs(
    streams: &InputsMap,
    stored: &HashMap<i64, StoredInput>,
    now: UnixNanos,
) -> (r: Vec<InputListResponse>)
    ensures
        exists|ids: Seq<i64>| #[trigger]
            lists_keys(ids, streams@) && r@.len() == ids.len() && forall|k: int|
                0 <= k < ids.len() ==> lists_input(
                    #[trigger] r@[k],
                    ids[k],
                    streams@[ids[k]]@,
                    stored_for(stored@, ids[k]),
                    now,
                ),
{
    broadcast use vstd::std_specs::hash::group_hash_axioms;

    let ids = keys_of(streams);
    let mut r: Vec<InputListResponse> = Vec::new();
    let mut k: usize = 0;
    while k < ids.len()
        invariant
            k <= ids@.len(),
            r@.len() == k,
            forall|id: i64| #[trigger] ids@.contains(id) <==> streams@.contains_key(id),
            forall|j: int|
                0 <= j < k ==> lists_input(
                    #[trigger] r@[j],
                    ids@[j],
                    streams@[ids@[j]]@,
                    stored_for(stored@, ids@[j]),
                    now,
                ),
        decreases ids@.len() - k,
    {
        let id: i64 = ids[k];
        assert(ids@.contains(id));
        if let Some(info) = streams.get(&id) {
            let row = stored.get(&id);
            r.push(
                InputListResponse {
                    id,
                    name: clone_text(&info.name),
                    input_type: input_type_of(row),
                    status: info.status.to_string(),
                    assigned_port: info.config.extract_assigned_port(),
                    output_count: info.output_tasks.len(),
                    uptime_seconds: calculate_connection_uptime(
                        &info.status,
                        info.connected_at,
                        now,
                    ),
                    source_address: clone_text(&info.source_address),
                    error_message: clone_text(&info.error_message),
                },
            );
        }
        k += 1;
    }
    assert(lists_keys(ids@, streams@));
    r
}

// ---------------------------------------------------------------- the overview

/// An output that runs, in the overview.
pub open spec fn overview_running(
    d: OutputResponse,
    id: i64,
    input_id: i64,
    o: OutputInfo,
    now: UnixNanos,
) -> bool {
    &&& d.id == id
    &&& d.name == o.name
    &&& d.input_id == input_id
    &&& d.destination == o.destination
    &&& d.output_type@ == o.kind.key()
    &&& d.status@ == o.status.text()
    &&& d.assigned_port == o.config.assigned_port()
    &&& d.uptime_seconds == connection_uptime(o.status, o.connected_at, now)
    &&& d.peer_address == o.peer_address
    &&& d.bitrate_bps is None
    &&& d.error_message == o.error_message
}

/// An output that is stopped, in the overview.
pub open spec fn overview_stopped(
    d: OutputResponse,
    id: i64,
    input_id: i64,
    config: CreateOutputRequest,
) -> bool {
    &&& d.id == id
    &&& d.name == config.given_name()
    &&& d.input_id == input_id
    &&& d.destination@ == shown_destination(config)
    &&& d.output_type@ == output_kind_key(config)
    &&& d.status@ == "stopped"@
    &&& d.assigned_port == config.assigned_port()
    &&& d.uptime_seconds is None
    &&& d.peer_address is None
    &&& d.bitrate_bps is None
    &&& d.error_message is None
}

/// Whether a list is the overview of an input's outputs: first those that run and then those
/// that are stopped, each once.
pub open spec fn overview_outputs(
    list: Seq<OutputResponse>,
    input_id: i64,
    i: InputModel,
    now: UnixNanos,
) -> bool {
    exists|running: Seq<i64>, stopped: Seq<i64>|
        #![trigger lists_keys(running, i.outputs), lists_keys(stopped, i.stopped)]
        {
            &&& lists_keys(running, i.outputs)
            &&& lists_keys(stopped, i.stopped)
            &&& list.len() == running.len() + stopped.len()
            &&& forall|k: int|
                0 <= k < running.len() ==> overview_running(
                    #[trigger] list[k],
                    running[k],
                    input_id,
                    i.outputs[running[k]],
                    now,
                )
            &&& forall|k: int|
                running.len() <= k < list.len() ==> overview_stopped(
                    #[trigger] list[k],
                    stopped[k - running.len()],
                    input_id,
                    i.stopped[stopped[k - running.len()]],
                )
        }
}

fn running_overview(id: i64, input_id: i64, o: &OutputInfo, now: UnixNanos) -> (r: OutputResponse)
    ensures
        overview_running(r, id, input_id, *o, now),
{
    OutputResponse {
        id,
        name: clone_text(&o.name),
        input_id,
        destination: o.destination.clone(),
        output_type: output_kind_string(&o.kind).to_owned(),
        status: o.status.to_string(),
        assigned_port: o.config.extract_assigned_port(),
        uptime_seconds: calculate_connection_uptime(&o.status, o.connected_at, now),
        peer_address: clone_text(&o.peer_address),
        bitrate_bps: None,
        error_message: clone_text(&o.error_message),
    }
}

fn stopped_overview(id: i64, input_id: i64, config: &CreateOutputRequest) -> (r: OutputResponse)
    ensures
        overview_stopped(r, id, input_id, *config),
{
    OutputResponse {
        id,
        name: name_of(config),
        input_id,
        destination: shown_destination_of(config),
        output_type: output_kind_of(config).to_owned(),
        status: "stopped".to_owned(),
        assigned_port: config.extract_assigned_port(),
        uptime_seconds: None,
        peer_address: None,
        bitrate_bps: None,
        error_message: None,
    }
}

fn outputs_overview(input_id: i64, info: &InputInfo, now: UnixNanos) -> (r: Vec<OutputResponse>)
    ensures
        overview_outputs(r@, input_id, info@, now),
{
    broadcast use vstd::std_specs::hash::group_hash_axioms;

    let running = keys_of(&info.output_tasks);
    let stopped = keys_of(&info.stopped_outputs);
    let mut r: Vec<OutputResponse> = Vec::new();
    let mut k: usize = 0;
    while k < running.len()
        invariant
            k <= running@.len(),
            r@.len() == k,
            forall|id: i64| #[trigger]
                running@.contains(id) <==> info.output_tasks@.contains_key(id),
            forall|j: int|
                0 <= j < k ==> overview_running(
                    #[trigger] r@[j],
                    running@[j],
                    input_id,
                    info@.outputs[running@[j]],
                    now,
                ),
        decreases running@.len() - k,
    {
        let id: i64 = running[k];
        assert(running@.contains(id));
        if let Some(o) = info.output_tasks.get(&id) {
            r.push(running_overview(id, input_id, o, now));
        }
        k += 1;
    }
    let mut m: usize = 0;
    let ghost n = running@.len() as int;
    while m < stopped.len()
        invariant
            m <= stopped@.len(),
            n == running@.len(),
            r@.len() == n + m,
            forall|id: i64| #[trigger]
                stopped@.contains(id) <==> info.stopped_outputs@.contains_key(id),
            forall|j: int|
                0 <= j < n ==> overview_running(
                    #[trigger] r@[j],
                    running@[j],
                    input_id,
                    info@.outputs[running@[j]],
                    now,
                ),
            forall|j: int|
                n <= j < r@.len() ==> overview_stopped(
                    #[trigger] r@[j],
                    stopped@[j - n],
                    input_id,
                    info@.stopped[stopped@[j - n]],
                ),
        decreases stopped@.len() - m,
    {
        let id: i64 = stopped[m];
        assert(stopped@.contains(id));
        if let Some(c) = info.stopped_outputs.get(&id) {
            r.push(stopped_overview(id, input_id, c));
        }
        m += 1;
    }
    proof {
        assert(lists_keys(running@, info@.outputs));
        assert(lists_keys(stopped@, info@.stopped));
    }
    r
}

/// An input in the overview.
pub open spec fn overview_input(
    d: InputResponse,
    id: i64,
    i: InputModel,
    now: UnixNanos,
) -> bool {
    &&& d.id == id
    &&& d.name == i.name
    &&& d.status@ == i.status.text()
    &&& d.assigned_port == usable_port(i.config.port())
    &&& overview_outputs(d.outputs@, id, i, now)
    &&& d.uptime_seconds == connection_uptime(i.status, i.connected_at, now)
    &&& d.source_address == i.source_address
    &&& d.bitrate_bps is None
    &&& d.error_message == i.error_message
}

/// The overview of the system: every input with its outputs.
pub fn get_status(streams: &InputsMap, now: UnixNanos) -> (r: Vec<InputResponse>)
    ensures
        exists|ids: Seq<i64>| #[trigger]
            lists_keys(ids, streams@) && r@.len() == ids.len() && forall|k: int|
                0 <= k < ids.len() ==> overview_input(
                    #[trigger] r@[k],
                    ids[k],
                    streams@[ids[k]]@,
                    now,
                ),
{
    broadcast use vstd::std_specs::hash::group_hash_axioms;

    let ids = keys_of(streams);
    let mut r: Vec<InputResponse> = Vec::new();
    let mut k: usize = 0;
    while k < ids.len()
        invariant
            k <= ids@.len(),
            r@.len() == k,
            forall|id: i64| #[trigger] ids@.contains(id) <==> streams@.contains_key(id),
            forall|j: int|
                0 <= j < k ==> overview_input(
                    #[trigger] r@[j],
                    ids@[j],
                    streams@[ids@[j]]@,
                    now,
                ),
        decreases ids@.len() - k,
    {
        let id: i64 = ids[k];
        assert(ids@.contains(id));
        if let Some(info) = streams.get(&id) {
            let outputs = outputs_overview(id, info, now);
            r.push(
                InputResponse {
                    id,
                    name: clone_text(&info.name),
                    status: info.status.to_string(),
                    assigned_port: info.config.extract_assigned_port(),
                    outputs,
                    uptime_seconds: calculate_connection_uptime(
                        &info.status,
                        info.connected_at,
                        now,
                    ),
                    source_address: clone_text(&info.source_address),
                    bitrate_bps: None,
                    error_message: clone_text(&info.error_message),
                },
            );
        }
        k += 1;
    }
    assert(lists_keys(ids@, streams@));
    r
}

// ---------------------------------------------------------------- all outputs

/// An output in the list of outputs: what the overview says of it, the name of its input and
/// its stored configuration.
pub open spec fn lists_output(
    e: OutputListResponse,
    d: OutputResponse,
    input_name: Option<String>,
    stored: Map<i64, StoredOutput>,
) -> bool {
    &&& e.id == d.id
    &&& e.name == d.name
    &&& e.input_id == d.input_id
    &&& e.input_name == input_name
    &&& e.destination == d.destination
    &&& e.output_type == d.output_type
    &&& e.status == d.status
    &&& e.assigned_port == d.assigned_port
    &&& e.uptime_seconds == d.uptime_seconds
    &&& e.peer_address == d.peer_address
    &&& e.error_message == d.error_message
    &&& e.config == stored_config(stored, d.id)
}

/// Whether a list shows the outputs of one input in the list of outputs.
pub open spec fn lists_outputs_of(
    list: Seq<OutputListResponse>,
    input_id: i64,
    i: InputModel,
    stored: Map<i64, StoredOutput>,
    now: UnixNanos,
) -> bool {
    exists|overview: Seq<OutputResponse>| #[trigger]
        overview_outputs(overview, input_id, i, now) && list.len() == overview.len() && forall|
            k: int,
        |
            0 <= k < list.len() ==> lists_output(#[trigger] list[k], overview[k], i.name, stored)
}

/// Whether a list is put together of one part for each input.
pub open spec fn lists_all_outputs(
    list: Seq<OutputListResponse>,
    parts: Seq<Seq<OutputListResponse>>,
    ids: Seq<i64>,
    streams: Map<i64, InputInfo>,
    stored: Map<i64, StoredOutput>,
    now: UnixNanos,
) -> bool {
    &&& list == parts.flatten()
    &&& parts.len() == ids.len()
    &&& forall|k: int|
        0 <= k < ids.len() ==> lists_outputs_of(
            #[trigger] parts[k],
            ids[k],
            streams[ids[k]]@,
            stored,
            now,
        )
}

fn list_outputs_of(
    input_id: i64,
    info: &InputInfo,
    stored: &HashMap<i64, StoredOutput>,
    now: UnixNanos,
) -> (r: Vec<OutputListResponse>)
    ensures
        lists_outputs_of(r@, input_id, info@, stored@, now),
{
    let overview = outputs_overview(input_id, info, now);
    let mut r: Vec<OutputListResponse> = Vec::new();
    let mut k: usize = 0;
    while k < overview.len()
        invariant
            k <= overview@.len(),
            r@.len() == k,
            forall|j: int|
                0 <= j < k ==> lists_output(
                    #[trigger] r@[j],
                    overview@[j],
                    info@.name,
                    stored@,
                ),
        decreases overview@.len() - k,
    {
        let d = &overview[k];
        r.push(
            OutputListResponse {
                id: d.id,
                name: clone_text(&d.name),
                input_id: d.input_id,
                input_name: clone_text(&info.name),
                destination: d.destination.clone(),
                output_type: d.output_type.clone(),
                status: d.status.clone(),
                assigned_port: d.assigned_port,
                uptime_seconds: d.uptime_seconds,
                peer_address: clone_text(&d.peer_address),
                error_message: clone_text(&d.error_message),
                config: config_of(stored, d.id),
            },
        );
        k += 1;
    }
    assert(overview_outputs(overview@, input_id, info@, now));
    r
}

/// All outputs of all inputs.
pub fn list_outputs(
    streams: &InputsMap,
    stored: &HashMap<i64, StoredOutput>,
    now: UnixNanos,
) -> (r: Vec<OutputListResponse>)
    ensures
        exists|ids: Seq<i64>, parts: Seq<Seq<OutputListResponse>>|
            #![trigger lists_keys(ids, streams@), lists_all_outputs(
                r@,
                parts,
                ids,
                streams@,
                stored@,
                now,
            )]
            lists_keys(ids, streams@) && lists_all_outputs(
                r@,
                parts,
                ids,
                streams@,
                stored@,
                now,
            ),
{
    broadcast use vstd::std_specs::hash::group_hash_axioms;

    let ids = keys_of(streams);
    let mut r: Vec<OutputListResponse> = Vec::new();
    let ghost mut parts: Seq<Seq<OutputListResponse>> = Seq::empty();
    let mut k: usize = 0;
    assert(r@ =~= parts.flatten());
    while k < ids.len()
        invariant
            k <= ids@.len(),
            parts.len() == k,
            r@ == parts.flatten(),
            forall|id: i64| #[trigger] ids@.contains(id) <==> streams@.contains_key(id),
            forall|j: int|
                0 <= j < k ==> lists_outputs_of(
                    #[trigger] parts[j],
                    ids@[j],
                    streams@[ids@[j]]@,
                    stored@,
                    now,
                ),
        decreases ids@.len() - k,
    {
        let id: i64 = ids[k];
        assert(ids@.contains(id));
        if let Some(info) = streams.get(&id) {
            let mut part = list_outputs_of(id, info, stored, now);
            let ghost p = part@;
            r.append(&mut part);
            proof {
                let grown = parts.push(p);
                broadcast use Seq::lemma_flatten_push;
                parts = grown;
            }
        }
        k += 1;
    }
    assert(lists_keys(ids@, streams@));
    assert(lists_all_outputs(r@, parts, ids@, streams@, stored@, now));
    r
}

// ---------------------------------------------------------------- single answers

/// The answer to a request for statistics.
#[derive(Debug, Clone, Copy)]
pub enum StatsReply {
    /// There is no such input.
    NotFound,
    /// There are no statistics yet.
    NoContent,
    Stats(InputStats),
}

/// The statistics of an input, where there are any; `latest` is what its task reported last.
pub fn input_stats(streams: &InputsMap, id: i64, latest: Option<InputStats>) -> (r: StatsReply)
    ensures
        r == (if !streams@.contains_key(id) {
            StatsReply::NotFound
        } else {
            match latest {
                Some(s) => StatsReply::Stats(s),
                None => StatsReply::NoContent,
            }
        }),
{
    broadcast use vstd::std_specs::hash::group_hash_axioms;

    if !streams.contains_key(&id) {
        return StatsReply::NotFound;
    }
    match latest {
        Some(s) => StatsReply::Stats(s),
        None => StatsReply::NoContent,
    }
}

/// The word for the state of an input that has just started; `listening` where it is gone.
pub fn input_status_word(streams: &InputsMap, id: i64) -> (r: String)
    ensures
        r@ == (if streams@.contains_key(id) {
            streams@[id]@.status.text()
        } else {
            "listening"@
        }),
{
    broadcast use vstd::std_specs::hash::group_hash_axioms;

    match streams.get(&id) {
        Some(info) => info.status.to_string(),
        None => "listening".to_owned(),
    }
}

/// The word for the state of an output that has just started; `connecting` where it is gone.
pub fn output_status_word(streams: &InputsMap, input_id: i64, output_id: i64) -> (r: String)
    ensures
        r@ == (if runs_output(streams@, input_id, output_id) {
            streams@[input_id]@.outputs[output_id].status.text()
        } else {
            "connecting"@
        }),
{
    broadcast use vstd::std_specs::hash::group_hash_axioms;

    match streams.get(&input_id) {
        Some(info) => match info.output_tasks.get(&output_id) {
            Some(o) => o.status.to_string(),
            None => "connecting".to_owned(),
        },
        None => "connecting".to_owned(),
    }
}

} // verus!
