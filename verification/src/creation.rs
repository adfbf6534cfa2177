//! The course of a request for a new stream, from the first check to the answer.
//!
//! Each step hands out what has to be done outside: find a port, ask the database, look up a
//! destination. What came of it goes into the next step.
use vstd::prelude::*;
use crate::clock::UnixNanos;
use crate::interfaces::{describes_listing, get_system_interfaces, Listing};
use crate::listing::{no_such_input, no_such_input_text};
use crate::machine::is_answer;
use crate::metrics::{
    bare_update, increment_active_inputs, increment_active_outputs, Metric, MetricChange,
    MetricUpdate,
};
use crate::naming::{
    input_name, multicast_config_for, multicast_for, name_input, name_output, new_destination,
    new_destination_of, new_output_name, output_kind_key, output_kind_of,
};
use crate::requests::{
    CreateInputRequest, CreateOutputRequest, SrtInputConfig, SrtOutputConfig,
};
use crate::streams::{
    create_srt_output, create_udp_output, is_spawned_input, is_srt_output, is_udp_output, models,
    spawn_input, InputModel, InputsMap, Lookup, OutputInfo,
};
use crate::text::{
    clone_text, decimal, decimal_text, join2, join3, join5, opt_text, signed_decimal,
    signed_decimal_text,
};
use crate::validation::{
    input_problem, output_problem, validate_input_on, validate_output_on, Interfaces,
};

verus! {

/// Why a request is refused.
#[derive(Debug)]
pub enum Refusal {
    BadRequest(String),
    NotFound(String),
    Conflict(String),
    Internal(String),
}

/// The content of a [`Refusal`].
pub enum RefusalModel {
    BadRequest(Seq<char>),
    NotFound(Seq<char>),
    Conflict(Seq<char>),
    Internal(Seq<char>),
}

impl View for Refusal {
    type V = RefusalModel;

    open spec fn view(&self) -> RefusalModel {
        match self {
            Refusal::BadRequest(t) => RefusalModel::BadRequest(t@),
            Refusal::NotFound(t) => RefusalModel::NotFound(t@),
            Refusal::Conflict(t) => RefusalModel::Conflict(t@),
            Refusal::Internal(t) => RefusalModel::Internal(t@),
        }
    }
}

// ---------------------------------------------------------------- assigning a port

impl CreateInputRequest {
    /// A request with a port assigned: in both fields, and no longer automatic. Callers and
    /// filters have none.
    pub open spec fn with_port(self, port: u16) -> CreateInputRequest {
        match self {
            CreateInputRequest::Udp {
                bind_host,
                name,
                multicast_group,
                source_specific_multicast,
                ..
            } => CreateInputRequest::Udp {
                bind_host,
                bind_port: Some(port),
                automatic_port: None,
                name,
                multicast_group,
                source_specific_multicast,
                listen_port: Some(port),
            },
            CreateInputRequest::Srt {
                name,
                config: SrtInputConfig::Listener { bind_host, common, .. },
            } => CreateInputRequest::Srt {
                name,
                config: SrtInputConfig::Listener {
                    bind_host,
                    bind_port: Some(port),
                    automatic_port: None,
                    common,
                    listen_port: Some(port),
                },
            },
            _ => self,
        }
    }

    /// Assign a port.
    pub fn assign_port(self, port: u16) -> (r: CreateInputRequest)
        ensures
            r == self.with_port(port),
    {
        match self {
            CreateInputRequest::Udp {
                bind_host,
                bind_port: _,
                automatic_port: _,
                name,
                multicast_group,
                source_specific_multicast,
                listen_port: _,
            } => CreateInputRequest::Udp {
                bind_host,
                bind_port: Some(port),
                automatic_port: None,
                name,
                multicast_group,
                source_specific_multicast,
                listen_port: Some(port),
            },
            CreateInputRequest::Srt { name, config } => {
                let config = match config {
                    SrtInputConfig::Listener {
                        bind_host,
                        bind_port: _,
                        automatic_port: _,
                        common,
                        listen_port: _,
                    } => SrtInputConfig::Listener {
                        bind_host,
                        bind_port: Some(port),
                        automatic_port: None,
                        common,
                        listen_port: Some(port),
                    },
                    other => other,
                };
                CreateInputRequest::Srt { name, config }
            },
            other => other,
        }
    }
}

impl CreateOutputRequest {
    /// A request with a port assigned: the remote port of a UDP output, the port of an SRT
    /// listener. SRT callers have none.
    pub open spec fn with_port(self, port: u16) -> CreateOutputRequest {
        match self {
            CreateOutputRequest::Udp {
                input_id,
                remote_host,
                name,
                bind_host,
                multicast_ttl,
                multicast_interface,
                destination_addr,
                ..
            } => CreateOutputRequest::Udp {
                input_id,
                remote_host,
                remote_port: Some(port),
                automatic_port: None,
                name,
                bind_host,
                multicast_ttl,
                multicast_interface,
                destination_addr,
            },
            CreateOutputRequest::Srt {
                input_id,
                name,
                config: SrtOutputConfig::Listener { bind_host, common, .. },
            } => CreateOutputRequest::Srt {
                input_id,
                name,
                config: SrtOutputConfig::Listener {
                    bind_host,
                    bind_port: Some(port),
                    automatic_port: None,
                    common,
                    listen_port: Some(port),
                },
            },
            _ => self,
        }
    }

    /// Assign a port.
    pub fn assign_port(self, port: u16) -> (r: CreateOutputRequest)
        ensures
            r == self.with_port(port),
    {
        match self {
            CreateOutputRequest::Udp {
                input_id,
                remote_host,
                remote_port: _,
                automatic_port: _,
                name,
                bind_host,
                multicast_ttl,
                multicast_interface,
                destination_addr,
            } => CreateOutputRequest::Udp {
                input_id,
                remote_host,
                remote_port: Some(port),
                automatic_port: None,
                name,
                bind_host,
                multicast_ttl,
                multicast_interface,
                destination_addr,
            },
            CreateOutputRequest::Srt { input_id, name, config } => {
                let config = match config {
                    SrtOutputConfig::Listener {
                        bind_host,
                        bind_port: _,
                        automatic_port: _,
                        common,
                        listen_port: _,
                    } => SrtOutputConfig::Listener {
                        bind_host,
                        bind_port: Some(port),
                        automatic_port: None,
                        common,
                        listen_port: Some(port),
                    },
                    other => other,
                };
                CreateOutputRequest::Srt { input_id, name, config }
            },
        }
    }

    fn input_of(&self) -> (r: i64)
        ensures
            r == self.of_input(),
    {
        match self {
            CreateOutputRequest::Udp { input_id, .. } => *input_id,
            CreateOutputRequest::Srt { input_id, .. } => *input_id,
        }
    }
}

// ---------------------------------------------------------------- inputs

/// An input on its way into the database.
#[derive(Debug)]
pub struct InputDraft {
    /// What will be stored and run.
    pub req: CreateInputRequest,
    pub name: Option<String>,
    /// The port, where it was chosen by the gateway.
    pub assigned_port: Option<u16>,
}

/// What comes next for a request for an input.
#[derive(Debug)]
pub enum InputStep {
    Refused(Refusal),
    /// Find a free port.
    FindPort { req: CreateInputRequest, name: Option<String> },
    /// Save the input in the database.
    Save(InputDraft),
}

/// The first step for a request for an input: it is refused for a problem, or when it filters
/// an input that is not known. The name is made from the request as it came.
pub open spec fn input_begun(
    r: InputStep,
    streams: Map<i64, InputModel>,
    req: CreateInputRequest,
    interfaces: Interfaces,
) -> bool {
    match input_problem(req, interfaces) {
        Some(p) => r matches InputStep::Refused(f) && f@ == RefusalModel::BadRequest(p),
        None => if req matches CreateInputRequest::Spts { source_input_id, .. }
            && !streams.contains_key(source_input_id) {
            r matches InputStep::Refused(f) && f@ == RefusalModel::NotFound(
                no_such_input(req->source_input_id),
            )
        } else if req.automatic() {
            r matches InputStep::FindPort { req: q, name } && q == req && opt_text(name) == Some(
                input_name(req),
            )
        } else {
            r matches InputStep::Save(d) && d.req == req && opt_text(d.name) == Some(
                input_name(req),
            ) && d.assigned_port is None
        },
    }
}

/// The step once a port for an input was searched for.
pub open spec fn input_port_step(
    r: InputStep,
    req: CreateInputRequest,
    name: Option<String>,
    found: Result<u16, String>,
) -> bool {
    match found {
        Ok(port) => r == InputStep::Save(
            InputDraft { req: req.with_port(port), name, assigned_port: Some(port) },
        ),
        Err(e) => r matches InputStep::Refused(f) && f@ == RefusalModel::Internal(
            "Failed to find available port: "@ + e@,
        ),
    }
}

/// Check a request for an input, given the interfaces.
pub fn begin_input_on(
    streams: &InputsMap,
    req: CreateInputRequest,
    interfaces: &Interfaces,
) -> (r: InputStep)
    ensures
        input_begun(r, models(streams@), req, *interfaces),
{
    broadcast use vstd::std_specs::hash::group_hash_axioms;

    if let Err(e) = validate_input_on(&req, interfaces) {
        return InputStep::Refused(Refusal::BadRequest(e));
    }
    if let CreateInputRequest::Spts { source_input_id, .. } = &req {
        if !streams.contains_key(source_input_id) {
            return InputStep::Refused(Refusal::NotFound(no_such_input_text(*source_input_id)));
        }
    }
    let name = name_input(&req);
    if req.is_automatic_port() {
        InputStep::FindPort { req, name }
    } else {
        InputStep::Save(InputDraft { req, name, assigned_port: None })
    }
}

/// Check a request for an input on this machine: the step is the one for the interfaces that
/// the machine answered with.
pub fn begin_input(streams: &InputsMap, req: CreateInputRequest) -> (r: InputStep)
    ensures
        exists|listing: Listing, interfaces: Interfaces|
            #![trigger describes_listing(interfaces, listing), input_begun(
                r,
                models(streams@),
                req,
                interfaces,
            )]
            is_answer(listing) && describes_listing(interfaces, listing) && input_begun(
                r,
                models(streams@),
                req,
                interfaces,
            ),
{
    let interfaces = get_system_interfaces();
    let r = begin_input_on(streams, req, &interfaces);
    assert(input_begun(r, models(streams@), req, interfaces));
    r
}

/// Go on once a port was searched for.
pub fn input_port_found(
    req: CreateInputRequest,
    name: Option<String>,
    found: Result<u16, String>,
) -> (r: InputStep)
    ensures
        input_port_step(r, req, name, found),
{
    match found {
        Ok(port) => InputStep::Save(
            InputDraft { req: req.assign_port(port), name, assigned_port: Some(port) },
        ),
        Err(e) => InputStep::Refused(
            Refusal::Internal(join2("Failed to find available port: ", e.as_str())),
        ),
    }
}

/// The answer to a request that made an input.
#[derive(Debug)]
pub struct CreatedInput {
    pub id: i64,
    pub name: Option<String>,
    pub assigned_port: Option<u16>,
    pub metrics: MetricUpdate,
}

/// Run an input once the database has given it a number.
pub fn finish_input(
    streams: &mut InputsMap,
    draft: InputDraft,
    saved: Result<i64, String>,
    now: UnixNanos,
) -> (r: Result<CreatedInput, Refusal>)
    ensures
        ({
            let before = models(old(streams)@);
            let after = models(final(streams)@);
            match saved {
                Err(e) => (r matches Err(f) && f@ == RefusalModel::Internal(
                    "Database error: "@ + e@,
                )) && after == before,
                Ok(id) => {
                    &&& r is Ok
                    &&& r->Ok_0.id == id
                    &&& r->Ok_0.name == draft.name
                    &&& r->Ok_0.assigned_port == draft.assigned_port
                    &&& r->Ok_0.metrics@ == bare_update(
                        Metric::ActiveInputs,
                        MetricChange::Increment,
                    )
                    &&& exists|i: InputModel| #[trigger]
                        is_spawned_input(i, draft.req, id, draft.name, now) && after
                            == before.insert(id, i)
                },
            }
        }),
{
    broadcast use vstd::std_specs::hash::group_hash_axioms;

    let ghost before = streams@;
    match saved {
        Err(e) => Err(Refusal::Internal(join2("Database error: ", e.as_str()))),
        Ok(id) => {
            let name = clone_text(&draft.name);
            let info = spawn_input(draft.req, id, draft.name, now);
            assert(is_spawned_input(info@, draft.req, id, draft.name, now));
            let ghost made = info@;
            streams.insert(id, info);
            assert(models(streams@) =~= models(before).insert(id, made));
            Ok(
                CreatedInput {
                    id,
                    name,
                    assigned_port: draft.assigned_port,
                    metrics: increment_active_inputs(),
                },
            )
        },
    }
}

// ---------------------------------------------------------------- outputs

/// An output on its way into the database.
#[derive(Debug)]
pub struct OutputDraft {
    /// What will be stored and run.
    pub req: CreateOutputRequest,
    /// The port, where it was chosen by the gateway.
    pub assigned_port: Option<u16>,
    pub input_id: i64,
    pub destination: String,
    /// The port that the output listens on.
    pub listen_port: Option<u16>,
    pub name: String,
}

/// What comes next for a request for an output.
#[derive(Debug)]
pub enum OutputStep {
    Refused(Refusal),
    /// Find a free port.
    FindPort(CreateOutputRequest),
    /// Ask the database whether the input has an output with this destination.
    CheckDestination(OutputDraft),
    /// Ask the database whether an output listens on this port.
    CheckPort(OutputDraft, u16),
    /// Save the output in the database.
    Save(OutputDraft),
    /// Look up the destination of the output with this number.
    LookUp(OutputDraft, i64),
    /// Run the output with this number.
    Run(OutputDraft, i64),
}

/// Whether a draft is the one for a request whose port is settled.
pub open spec fn is_draft(d: OutputDraft, req: CreateOutputRequest, assigned: Option<u16>) -> bool {
    &&& d.req == req
    &&& d.assigned_port == assigned
    &&& d.input_id == req.of_input()
    &&& (d.destination@, d.listen_port) == new_destination(req)
    &&& d.name@ == new_output_name(req)
}

fn draft_of(req: CreateOutputRequest, assigned_port: Option<u16>) -> (r: OutputDraft)
    ensures
        is_draft(r, req, assigned_port),
{
    let input_id: i64 = req.input_of();
    let (destination, listen_port) = new_destination_of(&req);
    let name = name_output(&req);
    OutputDraft { req, assigned_port, input_id, destination, listen_port, name }
}

/// The first step for a request for an output: it is refused for a problem, or when its input
/// is not known.
pub open spec fn output_begun(
    r: OutputStep,
    streams: Map<i64, InputModel>,
    req: CreateOutputRequest,
    interfaces: Interfaces,
) -> bool {
    match output_problem(req, interfaces) {
        Some(p) => r matches OutputStep::Refused(f) && f@ == RefusalModel::BadRequest(p),
        None => if !streams.contains_key(req.of_input()) {
            r matches OutputStep::Refused(f) && f@ == RefusalModel::NotFound(
                no_such_input(req.of_input()),
            )
        } else if req.automatic() {
            r == OutputStep::FindPort(req)
        } else {
            r matches OutputStep::CheckDestination(d) && is_draft(d, req, None)
        },
    }
}

/// The step once a port for an output was searched for.
pub open spec fn output_port_step(
    r: OutputStep,
    req: CreateOutputRequest,
    found: Result<u16, String>,
) -> bool {
    match found {
        Ok(port) => r matches OutputStep::CheckDestination(d) && is_draft(
            d,
            req.with_port(port),
            Some(port),
        ),
        Err(e) => r matches OutputStep::Refused(f) && f@ == RefusalModel::Internal(
            "Failed to find available port: "@ + e@,
        ),
    }
}

/// The step once the database told whether the input has an output with this destination.
pub open spec fn destination_step(
    r: OutputStep,
    draft: OutputDraft,
    exists_already: Result<bool, String>,
) -> bool {
    match exists_already {
        Ok(true) => r matches OutputStep::Refused(f) && f@ == RefusalModel::Conflict(
            output_exists_text(draft.input_id, draft.destination@),
        ),
        Ok(false) => match draft.listen_port {
            Some(port) => r == OutputStep::CheckPort(draft, port),
            None => r == OutputStep::Save(draft),
        },
        Err(e) => r matches OutputStep::Refused(f) && f@ == RefusalModel::Internal(
            "Database error: "@ + e@,
        ),
    }
}

/// The step once the database told whether an output listens on the port.
pub open spec fn port_step(
    r: OutputStep,
    draft: OutputDraft,
    port: u16,
    conflict: Result<bool, String>,
) -> bool {
    match conflict {
        Ok(true) => r matches OutputStep::Refused(f) && f@ == RefusalModel::Conflict(
            port_taken_text(port),
        ),
        Ok(false) => r == OutputStep::Save(draft),
        Err(e) => r matches OutputStep::Refused(f) && f@ == RefusalModel::Internal(
            "Database error: "@ + e@,
        ),
    }
}

/// Check a request for an output, given the interfaces.
pub fn begin_output_on(
    streams: &InputsMap,
    req: CreateOutputRequest,
    interfaces: &Interfaces,
) -> (r: OutputStep)
    ensures
        output_begun(r, models(streams@), req, *interfaces),
{
    broadcast use vstd::std_specs::hash::group_hash_axioms;

    if let Err(e) = validate_output_on(&req, interfaces) {
        return OutputStep::Refused(Refusal::BadRequest(e));
    }
    let input_id: i64 = req.input_of();
    if !streams.contains_key(&input_id) {
        return OutputStep::Refused(Refusal::NotFound(no_such_input_text(input_id)));
    }
    if req.is_automatic_port() {
        OutputStep::FindPort(req)
    } else {
        OutputStep::CheckDestination(draft_of(req, None))
    }
}

/// Check a request for an output on this machine: the step is the one for the interfaces that
/// the machine answered with.
pub fn begin_output(streams: &InputsMap, req: CreateOutputRequest) -> (r: OutputStep)
    ensures
        exists|listing: Listing, interfaces: Interfaces|
            #![trigger describes_listing(interfaces, listing), output_begun(
                r,
                models(streams@),
                req,
                interfaces,
            )]
            is_answer(listing) && describes_listing(interfaces, listing) && output_begun(
                r,
                models(streams@),
                req,
                interfaces,
            ),
{
    let interfaces = get_system_interfaces();
    let r = begin_output_on(streams, req, &interfaces);
    assert(output_begun(r, models(streams@), req, interfaces));
    r
}

/// Go on once a port was searched for.
pub fn output_port_found(req: CreateOutputRequest, found: Result<u16, String>) -> (r: OutputStep)
    ensures
        output_port_step(r, req, found),
{
    match found {
        Ok(port) => OutputStep::CheckDestination(draft_of(req.assign_port(port), Some(port))),
        Err(e) => OutputStep::Refused(
            Refusal::Internal(join2("Failed to find available port: ", e.as_str())),
        ),
    }
}

fn database_error(e: String) -> (r: OutputStep)
    ensures
        r matches OutputStep::Refused(f) && f@ == RefusalModel::Internal("Database error: "@ + e@),
{
    OutputStep::Refused(Refusal::Internal(join2("Database error: ", e.as_str())))
}

/// The answer that an input has an output with this destination already.
pub open spec fn output_exists_text(input_id: i64, destination: Seq<char>) -> Seq<char> {
    "Output ya existe para input "@ + signed_decimal(input_id as int) + " con destino '"@
        + destination + "'"@
}

/// The answer that another output listens on this port already.
pub open spec fn port_taken_text(port: u16) -> Seq<char> {
    "Puerto "@ + decimal(port as nat) + " ya está en uso por otro output"@
}

/// Go on once the database told whether the input has an output with this destination.
pub fn destination_checked(draft: OutputDraft, exists_already: Result<bool, String>) -> (r:
    OutputStep)
    ensures
        destination_step(r, draft, exists_already),
{
    match exists_already {
        Ok(taken) => if taken {
            let i = signed_decimal_text(draft.input_id);
            OutputStep::Refused(
                Refusal::Conflict(
                    join5(
                        "Output ya existe para input ",
                        i.as_str(),
                        " con destino '",
                        draft.destination.as_str(),
                        "'",
                    ),
                ),
            )
        } else {
            match draft.listen_port {
                Some(port) => OutputStep::CheckPort(draft, port),
                None => OutputStep::Save(draft),
            }
        },
        Err(e) => database_error(e),
    }
}

/// Go on once the database told whether an output listens on the port.
pub fn port_checked(
    draft: OutputDraft,
    port: u16,
    conflict: Result<bool, String>,
) -> (r: OutputStep)
    ensures
        port_step(r, draft, port, conflict),
{
    match conflict {
        Ok(taken) => if taken {
            let p = decimal_text(port as u64);
            OutputStep::Refused(
                Refusal::Conflict(join3("Puerto ", p.as_str(), " ya está en uso por otro output")),
            )
        } else {
            OutputStep::Save(draft)
        },
        Err(e) => database_error(e),
    }
}

/// Go on once the database has given the output a number, or could not. Only a UDP output has a
/// destination to look up.
pub fn output_saved(draft: OutputDraft, saved: Result<i64, String>) -> (r: OutputStep)
    ensures
        match saved {
            Ok(id) => r == (if draft.req is Udp {
                OutputStep::LookUp(draft, id)
            } else {
                OutputStep::Run(draft, id)
            }),
            Err(e) => r matches OutputStep::Refused(f) && f@ == RefusalModel::Internal(
                "Database error: "@ + e@,
            ),
        },
{
    match saved {
        Ok(id) => match &draft.req {
            CreateOutputRequest::Udp { .. } => OutputStep::LookUp(draft, id),
            CreateOutputRequest::Srt { .. } => OutputStep::Run(draft, id),
        },
        Err(e) => database_error(e),
    }
}

/// The answer when the configuration of an output cannot be written down.
pub fn serialization_failed(e: String) -> (r: OutputStep)
    ensures
        r matches OutputStep::Refused(f) && f@ == RefusalModel::Internal(
            "Serialization error: "@ + e@,
        ),
{
    OutputStep::Refused(Refusal::Internal(join2("Serialization error: ", e.as_str())))
}

/// The answer to a request that made an output.
#[derive(Debug)]
pub struct CreatedOutput {
    pub output_id: i64,
    pub input_id: i64,
    pub destination: String,
    pub kind: String,
    pub assigned_port: Option<u16>,
    pub metrics: MetricUpdate,
}

/// The output that a draft becomes. Multicast settings come with a host field that holds a
/// multicast address.
pub open spec fn is_made_output(
    o: OutputInfo,
    draft: OutputDraft,
    id: i64,
    now: UnixNanos,
) -> bool {
    match draft.req {
        CreateOutputRequest::Udp {
            name,
            bind_host,
            multicast_ttl,
            multicast_interface,
            remote_host,
            ..
        } => is_udp_output(
            o,
            draft.input_id,
            draft.destination@,
            id,
            name,
            bind_host,
            multicast_for(opt_text(remote_host), multicast_ttl, multicast_interface),
            now,
        ),
        CreateOutputRequest::Srt { name, config, .. } => is_srt_output(
            o,
            draft.input_id,
            config,
            id,
            name,
            now,
        ),
    }
}

/// Run an output that was saved.
pub fn finish_output(
    streams: &mut InputsMap,
    draft: OutputDraft,
    id: i64,
    lookup: Lookup,
    now: UnixNanos,
) -> (r: Result<CreatedOutput, Refusal>)
    requires
        old(streams)@.contains_key(draft.input_id),
    ensures
        ({
            let before = models(old(streams)@);
            let after = models(final(streams)@);
            if draft.req is Srt || lookup is Found {
                &&& r is Ok
                &&& exists|o: OutputInfo| #[trigger]
                    is_made_output(o, draft, id, now) && {
                        let was = before[draft.input_id];
                        &&& after == before.insert(
                            draft.input_id,
                            InputModel { outputs: was.outputs.insert(id, o), ..was },
                        )
                        &&& r->Ok_0.output_id == id
                        &&& r->Ok_0.input_id == draft.input_id
                        &&& r->Ok_0.destination == o.destination
                        &&& r->Ok_0.kind@ == o.kind.text()
                        &&& r->Ok_0.assigned_port == draft.assigned_port
                        &&& r->Ok_0.metrics@ == bare_update(
                            Metric::ActiveOutputs,
                            MetricChange::Increment,
                        )
                    }
            } else {
                &&& r matches Err(f) && f@ == RefusalModel::BadRequest(
                    match lookup {
                        Lookup::Failed(m) => "Error resolviendo '"@ + draft.destination@ + "': "@
                            + m@,
                        _ => "No se pudo resolver '"@ + draft.destination@ + "'"@,
                    },
                )
                &&& after == before
            }
        }),
{
    broadcast use vstd::std_specs::hash::group_hash_axioms;

    let ghost before = streams@;
    let ghost d = draft;
    let input_id: i64 = draft.input_id;
    let made = match draft.req {
        CreateOutputRequest::Udp {
            input_id: _,
            remote_host,
            remote_port: _,
            automatic_port: _,
            name,
            bind_host,
            multicast_ttl,
            multicast_interface,
            destination_addr: _,
        } => {
            let multicast = multicast_config_for(&remote_host, multicast_ttl, &multicast_interface);
            create_udp_output(
                input_id,
                draft.destination,
                id,
                name,
                bind_host,
                &multicast,
                lookup,
                now,
            )
        },
        CreateOutputRequest::Srt { input_id: _, name, config } => Ok(
            create_srt_output(input_id, config, id, name, now),
        ),
    };
    match made {
        Err(e) => Err(Refusal::BadRequest(e)),
        Ok(o) => {
            let ghost added = o;
            assert(is_made_output(added, d, id, now));
            let destination = o.destination.clone();
            let kind = o.kind.to_string();
            if let Some(mut info) = streams.remove(&input_id) {
                let ghost was = info@;
                assert(models(before)[input_id] == was);
                info.output_tasks.insert(id, o);
                assert(info@ =~= (InputModel { outputs: was.outputs.insert(id, added), ..was }));
                streams.insert(input_id, info);
                assert(models(streams@) =~= models(before).insert(input_id, info@));
            }
            Ok(
                CreatedOutput {
                    output_id: id,
                    input_id,
                    destination,
                    kind,
                    assigned_port: draft.assigned_port,
                    metrics: increment_active_outputs(),
                },
            )
        },
    }
}

/// What is saved of an output.
#[derive(Debug)]
pub struct OutputRecord<'a> {
    pub name: &'a str,
    pub input_id: i64,
    pub kind: &'static str,
    pub destination: &'a str,
    pub listen_port: Option<u16>,
}

/// What is saved of an output; an SRT output is saved with its SRT configuration.
pub fn output_record<'a>(draft: &'a OutputDraft) -> (r: OutputRecord<'a>)
    ensures
        r.name@ == draft.name@,
        r.input_id == draft.input_id,
        r.kind@ == output_kind_key(draft.req),
        r.destination@ == draft.destination@,
        r.listen_port == draft.listen_port,
{
    OutputRecord {
        name: draft.name.as_str(),
        input_id: draft.input_id,
        kind: output_kind_of(&draft.req),
        destination: draft.destination.as_str(),
        listen_port: draft.listen_port,
    }
}

// ---------------------------------------------------------------- laws

/// An input is saved only when its request has no problem, and an automatic one only with the
/// port that was found.
pub proof fn law_saved_input_passed_all_checks(
    streams: Map<i64, InputModel>,
    req: CreateInputRequest,
    interfaces: Interfaces,
    found: Result<u16, String>,
    first: InputStep,
    second: InputStep,
)
    requires
        input_begun(first, streams, req, interfaces),
        match first {
            InputStep::FindPort { req: q, name } => input_port_step(second, q, name, found),
            _ => second == first,
        },
        second is Save,
    ensures
        input_problem(req, interfaces) is None,
        opt_text(second->Save_0.name) == Some(input_name(req)),
        match second->Save_0.assigned_port {
            Some(port) => req.automatic() && found == Ok::<u16, String>(port)
                && second->Save_0.req == req.with_port(port),
            None => !req.automatic() && second->Save_0.req == req,
        },
{
}

/// An output is saved only when its request has no problem, its input is known, the input has
/// no output with this destination, and no output listens on its port.
pub proof fn law_saved_output_passed_all_checks(
    streams: Map<i64, InputModel>,
    req: CreateOutputRequest,
    interfaces: Interfaces,
    found: Result<u16, String>,
    exists_already: Result<bool, String>,
    conflict: Result<bool, String>,
    first: OutputStep,
    second: OutputStep,
    third: OutputStep,
    fourth: OutputStep,
)
    requires
        output_begun(first, streams, req, interfaces),
        match first {
            OutputStep::FindPort(q) => output_port_step(second, q, found),
            _ => second == first,
        },
        match second {
            OutputStep::CheckDestination(d) => destination_step(third, d, exists_already),
            _ => third == second,
        },
        match third {
            OutputStep::CheckPort(d, p) => port_step(fourth, d, p, conflict),
            _ => fourth == third,
        },
        fourth is Save,
    ensures
        output_problem(req, interfaces) is None,
        streams.contains_key(req.of_input()),
        exists_already == Ok::<bool, String>(false),
        fourth->Save_0.listen_port is Some ==> conflict == Ok::<bool, String>(false),
        fourth->Save_0.input_id == req.of_input(),
        match fourth->Save_0.assigned_port {
            Some(port) => req.automatic() && found == Ok::<u16, String>(port) && is_draft(
                fourth->Save_0,
                req.with_port(port),
                Some(port),
            ),
            None => !req.automatic() && is_draft(fourth->Save_0, req, None),
        },
{
}

/// An input that left its port open holds the port that it was assigned, in the field that is
/// read first, and no longer leaves it open.
pub proof fn law_assigned_input_port_is_used(req: CreateInputRequest, port: u16)
    requires
        req.automatic(),
        port != 0,
    ensures
        req.with_port(port).bind_port_or_zero() == port,
        crate::requests::usable_port(req.with_port(port).port()) == Some(port),
        !req.with_port(port).automatic(),
        req.with_port(port).given_name() == req.given_name(),
        req.with_port(port).kind_key() == req.kind_key(),
{
}

/// An output that left its port open sends to or listens on the port that it was assigned.
pub proof fn law_assigned_output_port_is_used(req: CreateOutputRequest, port: u16)
    requires
        req.automatic(),
        port != 0,
    ensures
        req.with_port(port).assigned_port() == Some(port),
        req is Udp ==> req.with_port(port).peer_port() == Some(port),
        req is Srt ==> req.with_port(port).port() == Some(port),
        req.with_port(port).of_input() == req.of_input(),
        output_kind_key(req.with_port(port)) == output_kind_key(req),
{
}

} // verus!
