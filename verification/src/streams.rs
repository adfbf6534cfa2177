//! Streams that the gateway knows, and what a stream looks like when it is made.
use std::collections::HashMap;
use vstd::prelude::*;
use crate::clock::UnixNanos;
use crate::naming::{
    auto_srt_output_name, auto_udp_output_name, multicast_config_for, multicast_for, name_or,
    name_spts_input, name_srt_output, name_udp_output, specific_host, specific_host_of,
    spts_input_name, srt_destination, srt_destination_of, udp_destination, udp_destination_of,
    MulticastOutputConfig,
};
use crate::requests::{
    CreateInputRequest, CreateOutputRequest, SrtInputConfig, SrtOutputConfig,
};
use crate::status::{AnalysisType, OutputKind, StreamStatus};
use crate::text::{
    clone_text, decimal, decimal_text, join3, join4, opt_text, signed_decimal, signed_decimal_text,
};

verus! {

/// An input that the gateway knows.
#[derive(Debug)]
pub struct InputInfo {
    pub id: i64,
    pub name: Option<String>,
    pub status: StreamStatus,
    /// Whether a task runs for the input.
    pub running: bool,
    /// What the input is made from when it starts again.
    pub config: CreateInputRequest,
    /// Outputs that run.
    pub output_tasks: HashMap<i64, OutputInfo>,
    /// Outputs that were stopped, with what they are made from when they start again.
    pub stopped_outputs: HashMap<i64, CreateOutputRequest>,
    /// Analyses that run.
    pub analysis_tasks: Vec<AnalysisInfo>,
    /// Analyses that ran when the input stopped.
    pub paused_analysis: Vec<AnalysisType>,
    pub started_at: Option<UnixNanos>,
    pub connected_at: Option<UnixNanos>,
    /// Address of the sender.
    pub source_address: Option<String>,
    pub error_message: Option<String>,
}

/// An output that runs.
#[derive(Debug)]
pub struct OutputInfo {
    pub id: i64,
    pub name: Option<String>,
    pub input_id: i64,
    pub kind: OutputKind,
    pub status: StreamStatus,
    pub destination: String,
    /// What the output is made from when it starts again.
    pub config: CreateOutputRequest,
    pub started_at: Option<UnixNanos>,
    pub connected_at: Option<UnixNanos>,
    /// Address of the receiver.
    pub peer_address: Option<String>,
    pub error_message: Option<String>,
}

/// An analysis that runs.
#[derive(Debug)]
pub struct AnalysisInfo {
    pub id: String,
    pub analysis_type: AnalysisType,
    pub input_id: i64,
    pub created_at: UnixNanos,
    pub timeout_minutes: Option<u64>,
    pub expires_at: Option<UnixNanos>,
}

/// All inputs by their number.
pub type InputsMap = HashMap<i64, InputInfo>;

/// The mathematical content of an [`InputInfo`].
#[verifier::ext_equal]
pub struct InputModel {
    pub id: i64,
    pub name: Option<String>,
    pub status: StreamStatus,
    pub running: bool,
    pub config: CreateInputRequest,
    pub outputs: Map<i64, OutputInfo>,
    pub stopped: Map<i64, CreateOutputRequest>,
    pub analyses: Seq<AnalysisInfo>,
    pub paused: Seq<AnalysisType>,
    pub started_at: Option<UnixNanos>,
    pub connected_at: Option<UnixNanos>,
    pub source_address: Option<String>,
    pub error_message: Option<String>,
}

impl View for InputInfo {
    type V = InputModel;

    open spec fn view(&self) -> InputModel {
        InputModel {
            id: self.id,
            name: self.name,
            status: self.status,
            running: self.running,
            config: self.config,
            outputs: self.output_tasks@,
            stopped: self.stopped_outputs@,
            analyses: self.analysis_tasks@,
            paused: self.paused_analysis@,
            started_at: self.started_at,
            connected_at: self.connected_at,
            source_address: self.source_address,
            error_message: self.error_message,
        }
    }
}

/// The content of all inputs.
pub open spec fn models(m: Map<i64, InputInfo>) -> Map<i64, InputModel> {
    m.map_values(|i: InputInfo| i@)
}

// ---------------------------------------------------------------- new inputs

/// Nothing hangs on a new input, and it is not connected.
pub open spec fn fresh(i: InputModel) -> bool {
    &&& i.outputs == Map::<i64, OutputInfo>::empty()
    &&& i.stopped == Map::<i64, CreateOutputRequest>::empty()
    &&& i.analyses == Seq::<AnalysisInfo>::empty()
    &&& i.paused == Seq::<AnalysisType>::empty()
    &&& i.connected_at is None
    &&& i.error_message is None
}

/// A UDP input that has just started: it listens.
pub open spec fn is_udp_input(
    i: InputModel,
    id: i64,
    name: Option<String>,
    port: u16,
    bind_host: Option<Seq<char>>,
    group: Option<String>,
    source: Option<String>,
    now: UnixNanos,
) -> bool {
    &&& fresh(i)
    &&& i.id == id
    &&& i.name == name
    &&& i.status == StreamStatus::Listening
    &&& i.running
    &&& i.started_at == Some(now)
    &&& i.source_address is None
    &&& i.config matches CreateInputRequest::Udp {
        bind_host: h,
        bind_port,
        automatic_port,
        name: n,
        multicast_group,
        source_specific_multicast,
        listen_port,
    } && opt_text(h) == bind_host && bind_port == Some(port) && automatic_port is None && n == name
        && multicast_group == group && source_specific_multicast == source && listen_port == Some(
        port,
    )
}

/// The state in which an SRT input starts.
pub open spec fn srt_input_start(config: SrtInputConfig) -> StreamStatus {
    match config {
        SrtInputConfig::Listener { .. } => StreamStatus::Listening,
        SrtInputConfig::Caller { .. } => StreamStatus::Connecting,
    }
}

/// An SRT input that has just started.
pub open spec fn is_srt_input(
    i: InputModel,
    id: i64,
    name: Option<String>,
    req: CreateInputRequest,
    now: UnixNanos,
) -> bool {
    &&& fresh(i)
    &&& i.id == id
    &&& i.name == name
    &&& req matches CreateInputRequest::Srt { config, .. } && i.status == srt_input_start(config)
    &&& i.running
    &&& i.started_at == Some(now)
    &&& i.source_address is None
    &&& i.config == req
}

/// The source of a program filter, as it is shown.
pub open spec fn spts_source_text(source_input_id: i64, program_number: u16) -> Seq<char> {
    "MPTS Input "@ + signed_decimal(source_input_id as int) + " Program "@ + decimal(
        program_number as nat,
    )
}

/// A program filter that has just started: it listens until the first packet of its program.
pub open spec fn is_spts_input(
    i: InputModel,
    source_input_id: i64,
    id: i64,
    program: u16,
    fill: bool,
    name: Option<String>,
    now: UnixNanos,
) -> bool {
    &&& fresh(i)
    &&& i.id == id
    &&& opt_text(i.name) == Some(name_or(name, spts_input_name(program, source_input_id)))
    &&& i.status == StreamStatus::Listening
    &&& i.running
    &&& i.started_at == Some(now)
    &&& opt_text(i.source_address) == Some(spts_source_text(source_input_id, program))
    &&& i.config matches CreateInputRequest::Spts {
        source_input_id: s,
        program_number,
        fill_with_nulls,
        name: n,
    } && s == source_input_id && program_number == program && fill_with_nulls == Some(fill)
        && opt_text(n) == opt_text(i.name)
}

/// An input that is known but does not run.
pub open spec fn is_stopped_input(
    i: InputModel,
    id: i64,
    name: Option<String>,
    config: CreateInputRequest,
) -> bool {
    &&& fresh(i)
    &&& i.id == id
    &&& i.name == name
    &&& i.status == StreamStatus::Stopped
    &&& !i.running
    &&& i.config == config
    &&& i.started_at is None
    &&& i.source_address is None
}

/// A UDP input that has just started.
pub fn udp_input(
    id: i64,
    name: Option<String>,
    listen_port: u16,
    bind_host: Option<String>,
    multicast_group: Option<String>,
    source_specific_multicast: Option<String>,
    now: UnixNanos,
) -> (r: InputInfo)
    ensures
        is_udp_input(
            r@,
            id,
            name,
            listen_port,
            opt_text(bind_host),
            multicast_group,
            source_specific_multicast,
            now,
        ),
{
    InputInfo {
        id,
        name: clone_text(&name),
        status: StreamStatus::Listening,
        running: true,
        config: CreateInputRequest::Udp {
            bind_host,
            bind_port: Some(listen_port),
            automatic_port: None,
            name,
            multicast_group,
            source_specific_multicast,
            listen_port: Some(listen_port),
        },
        output_tasks: HashMap::new(),
        stopped_outputs: HashMap::new(),
        analysis_tasks: Vec::new(),
        paused_analysis: Vec::new(),
        started_at: Some(now),
        connected_at: None,
        source_address: None,
        error_message: None,
    }
}

/// An SRT input that has just started.
pub fn srt_input(
    id: i64,
    name: Option<String>,
    req: CreateInputRequest,
    now: UnixNanos,
) -> (r: InputInfo)
    requires
        req is Srt,
    ensures
        is_srt_input(r@, id, name, req, now),
{
    let status = match &req {
        CreateInputRequest::Srt { config, .. } => match config {
            SrtInputConfig::Listener { .. } => StreamStatus::Listening,
            SrtInputConfig::Caller { .. } => StreamStatus::Connecting,
        },
        _ => StreamStatus::Listening,
    };
    InputInfo {
        id,
        name,
        status,
        running: true,
        config: req,
        output_tasks: HashMap::new(),
        stopped_outputs: HashMap::new(),
        analysis_tasks: Vec::new(),
        paused_analysis: Vec::new(),
        started_at: Some(now),
        connected_at: None,
        source_address: None,
        error_message: None,
    }
}

/// The source of a program filter, as it is shown.
pub fn spts_source(source_input_id: i64, program_number: u16) -> (r: String)
    ensures
        r@ == spts_source_text(source_input_id, program_number),
{
    let i = signed_decimal_text(source_input_id);
    let p = decimal_text(program_number as u64);
    join4("MPTS Input ", i.as_str(), " Program ", p.as_str())
}

/// A program filter that has just started.
pub fn spts_input(
    source_input_id: i64,
    spts_id: i64,
    program_number: u16,
    fill_with_nulls: bool,
    name: Option<String>,
    now: UnixNanos,
) -> (r: InputInfo)
    ensures
        is_spts_input(
            r@,
            source_input_id,
            spts_id,
            program_number,
            fill_with_nulls,
            name,
            now,
        ),
{
    let final_name = match name {
        Some(n) => Some(n),
        None => Some(name_spts_input(program_number, source_input_id)),
    };
    InputInfo {
        id: spts_id,
        name: clone_text(&final_name),
        status: StreamStatus::Listening,
        running: true,
        config: CreateInputRequest::Spts {
            source_input_id,
            program_number,
            fill_with_nulls: Some(fill_with_nulls),
            name: final_name,
        },
        output_tasks: HashMap::new(),
        stopped_outputs: HashMap::new(),
        analysis_tasks: Vec::new(),
        paused_analysis: Vec::new(),
        started_at: Some(now),
        connected_at: None,
        source_address: Some(spts_source(source_input_id, program_number)),
        error_message: None,
    }
}

/// An input that is known but does not run.
pub fn stopped_input(id: i64, name: Option<String>, config: CreateInputRequest) -> (r: InputInfo)
    ensures
        is_stopped_input(r@, id, name, config),
{
    InputInfo {
        id,
        name,
        status: StreamStatus::Stopped,
        running: false,
        config,
        output_tasks: HashMap::new(),
        stopped_outputs: HashMap::new(),
        analysis_tasks: Vec::new(),
        paused_analysis: Vec::new(),
        started_at: None,
        connected_at: None,
        source_address: None,
        error_message: None,
    }
}

/// An input made from a request, as it is when it has just started.
pub open spec fn is_spawned_input(
    i: InputModel,
    req: CreateInputRequest,
    id: i64,
    name: Option<String>,
    now: UnixNanos,
) -> bool {
    match req {
        CreateInputRequest::Udp { multicast_group, source_specific_multicast, .. } => is_udp_input(
            i,
            id,
            name,
            req.bind_port_or_zero(),
            specific_host(req.host()),
            multicast_group,
            source_specific_multicast,
            now,
        ),
        CreateInputRequest::Srt { .. } => is_srt_input(i, id, name, req, now),
        CreateInputRequest::Spts { source_input_id, program_number, fill_with_nulls, .. } =>
            is_spts_input(
            i,
            source_input_id,
            id,
            program_number,
            fill_with_nulls == Some(true),
            name,
            now,
        ),
    }
}

/// Make an input from a request. Its task reads from the socket, or from the input that the
/// request filters.
pub fn spawn_input(
    req: CreateInputRequest,
    id: i64,
    name: Option<String>,
    now: UnixNanos,
) -> (r: InputInfo)
    ensures
        is_spawned_input(r@, req, id, name, now),
{
    match &req {
        CreateInputRequest::Udp { multicast_group, source_specific_multicast, .. } => {
            let port: u16 = req.get_bind_port();
            let bind_host = specific_host_of(req.get_bind_host());
            let group = clone_text(multicast_group);
            let source = clone_text(source_specific_multicast);
            udp_input(id, name, port, bind_host, group, source, now)
        },
        CreateInputRequest::Srt { .. } => srt_input(id, name, req, now),
        CreateInputRequest::Spts { source_input_id, program_number, fill_with_nulls, .. } => {
            let fill: bool = match fill_with_nulls {
                Some(b) => *b,
                None => false,
            };
            spts_input(*source_input_id, id, *program_number, fill, name, now)
        },
    }
}

// ---------------------------------------------------------------- new outputs

/// What looking up a destination gave.
#[derive(Debug)]
pub enum Lookup {
    /// An address was found.
    Found,
    /// There is no address.
    Empty,
    /// The lookup failed, with a message.
    Failed(String),
}

/// A UDP output that has just started: it counts as connected at once.
pub open spec fn is_udp_output(
    o: OutputInfo,
    input_id: i64,
    destination: Seq<char>,
    output_id: i64,
    name: Option<String>,
    bind_host: Option<String>,
    multicast: Option<MulticastOutputConfig>,
    now: UnixNanos,
) -> bool {
    let final_name = name_or(name, auto_udp_output_name(destination));
    &&& o.id == output_id
    &&& opt_text(o.name) == Some(final_name)
    &&& name is Some ==> o.name == name
    &&& o.config.given_name() == o.name
    &&& o.input_id == input_id
    &&& o.kind == OutputKind::Udp
    &&& o.status == StreamStatus::Connected
    &&& o.destination@ == destination
    &&& o.started_at == Some(now)
    &&& o.connected_at == Some(now)
    &&& o.peer_address is None
    &&& o.error_message is None
    &&& o.config matches CreateOutputRequest::Udp {
        input_id: i,
        remote_host,
        remote_port,
        automatic_port,
        name: n,
        bind_host: h,
        multicast_ttl,
        multicast_interface,
        destination_addr,
    } && i == input_id && remote_host is None && remote_port is None && automatic_port is None
        && opt_text(n) == Some(final_name) && h == bind_host && opt_text(destination_addr) == Some(
        destination,
    ) && (match multicast {
        Some(m) => multicast_ttl == Some(m.ttl) && multicast_interface == m.interface,
        None => multicast_ttl is None && multicast_interface is None,
    })
}

/// The kind of an SRT output.
pub open spec fn srt_output_kind(config: SrtOutputConfig) -> OutputKind {
    match config {
        SrtOutputConfig::Caller { .. } => OutputKind::SrtCaller,
        SrtOutputConfig::Listener { .. } => OutputKind::SrtListener,
    }
}

/// The state in which an SRT output starts.
pub open spec fn srt_output_start(config: SrtOutputConfig) -> StreamStatus {
    match config {
        SrtOutputConfig::Caller { .. } => StreamStatus::Connecting,
        SrtOutputConfig::Listener { .. } => StreamStatus::Listening,
    }
}

/// An SRT output that has just started.
pub open spec fn is_srt_output(
    o: OutputInfo,
    input_id: i64,
    cfg: SrtOutputConfig,
    output_id: i64,
    name: Option<String>,
    now: UnixNanos,
) -> bool {
    let final_name = name_or(name, auto_srt_output_name(cfg));
    &&& o.id == output_id
    &&& opt_text(o.name) == Some(final_name)
    &&& name is Some ==> o.name == name
    &&& o.config.given_name() == o.name
    &&& o.input_id == input_id
    &&& o.kind == srt_output_kind(cfg)
    &&& o.status == srt_output_start(cfg)
    &&& o.destination@ == srt_destination(cfg)
    &&& o.started_at == Some(now)
    &&& o.connected_at is None
    &&& o.peer_address is None
    &&& o.error_message is None
    &&& o.config matches CreateOutputRequest::Srt { input_id: i, name: n, config: c } && i
        == input_id && opt_text(n) == Some(final_name) && c == cfg
}

/// Make a UDP output, once its destination was looked up.
pub fn create_udp_output(
    input_id: i64,
    destination_addr: String,
    output_id: i64,
    name: Option<String>,
    bind_host: Option<String>,
    multicast_config: &Option<MulticastOutputConfig>,
    lookup: Lookup,
    now: UnixNanos,
) -> (r: Result<OutputInfo, String>)
    ensures
        match lookup {
            Lookup::Found => r matches Ok(o) && is_udp_output(
                o,
                input_id,
                destination_addr@,
                output_id,
                name,
                bind_host,
                *multicast_config,
                now,
            ),
            Lookup::Empty => r matches Err(e) && e@ == "No se pudo resolver '"@ + destination_addr@
                + "'"@,
            Lookup::Failed(m) => r matches Err(e) && e@ == "Error resolviendo '"@
                + destination_addr@ + "': "@ + m@,
        },
{
    match lookup {
        Lookup::Found => {},
        Lookup::Empty => {
            return Err(join3("No se pudo resolver '", destination_addr.as_str(), "'"));
        },
        Lookup::Failed(m) => {
            return Err(
                join4("Error resolviendo '", destination_addr.as_str(), "': ", m.as_str()),
            );
        },
    }
    let final_name = name_udp_output(&name, destination_addr.as_str());
    let (multicast_ttl, multicast_interface) = match multicast_config {
        Some(m) => (Some(m.ttl), clone_text(&m.interface)),
        None => (None, None),
    };
    Ok(
        OutputInfo {
            id: output_id,
            name: Some(final_name.clone()),
            input_id,
            kind: OutputKind::Udp,
            status: StreamStatus::Connected,
            destination: destination_addr.clone(),
            config: CreateOutputRequest::Udp {
                input_id,
                remote_host: None,
                remote_port: None,
                automatic_port: None,
                name: Some(final_name),
                bind_host,
                multicast_ttl,
                multicast_interface,
                destination_addr: Some(destination_addr),
            },
            started_at: Some(now),
            connected_at: Some(now),
            peer_address: None,
            error_message: None,
        },
    )
}

/// Make an SRT output.
pub fn create_srt_output(
    input_id: i64,
    cfg: SrtOutputConfig,
    output_id: i64,
    name: Option<String>,
    now: UnixNanos,
) -> (r: OutputInfo)
    ensures
        is_srt_output(r, input_id, cfg, output_id, name, now),
{
    let final_name = name_srt_output(&name, &cfg);
    let destination = srt_destination_of(&cfg);
    let (kind, status) = match &cfg {
        SrtOutputConfig::Caller { .. } => (OutputKind::SrtCaller, StreamStatus::Connecting),
        SrtOutputConfig::Listener { .. } => (OutputKind::SrtListener, StreamStatus::Listening),
    };
    OutputInfo {
        id: output_id,
        name: Some(final_name.clone()),
        input_id,
        kind,
        status,
        destination,
        config: CreateOutputRequest::Srt { input_id, name: Some(final_name), config: cfg },
        started_at: Some(now),
        connected_at: None,
        peer_address: None,
        error_message: None,
    }
}

// ---------------------------------------------------------------- restarting an output

/// The output that a stopped output becomes when it starts again.
pub open spec fn is_restarted_output(
    o: OutputInfo,
    input_id: i64,
    output_id: i64,
    config: CreateOutputRequest,
    now: UnixNanos,
) -> bool {
    match config {
        CreateOutputRequest::Udp { name, bind_host, multicast_ttl, multicast_interface, .. } =>
            is_udp_output(
            o,
            input_id,
            udp_destination(config),
            output_id,
            name,
            bind_host,
            multicast_for(
                match config.peer_host() {
                    Some(h) => Some(h),
                    None => Some("127.0.0.1"@),
                },
                multicast_ttl,
                multicast_interface,
            ),
            now,
        ),
        CreateOutputRequest::Srt { input_id: i, name, config } => is_srt_output(
            o,
            i,
            config,
            output_id,
            name,
            now,
        ),
    }
}

/// Why an output could not start again.
pub open spec fn restart_problem(config: CreateOutputRequest, lookup: Lookup) -> Seq<char> {
    "Failed to create UDP output: "@ + (match lookup {
        Lookup::Failed(m) => "Error resolviendo '"@ + udp_destination(config) + "': "@ + m@,
        _ => "No se pudo resolver '"@ + udp_destination(config) + "'"@,
    })
}

/// Make an output from what a stopped output is kept as. Only the lookup of a UDP destination
/// can fail.
pub fn restart_output(
    input_id: i64,
    output_id: i64,
    config: CreateOutputRequest,
    lookup: Lookup,
    now: UnixNanos,
) -> (r: Result<OutputInfo, String>)
    ensures
        r is Ok <==> config is Srt || lookup is Found,
        r matches Ok(o) ==> is_restarted_output(o, input_id, output_id, config, now),
        r matches Err(e) ==> e@ == restart_problem(config, lookup),
{
    let destination = udp_destination_of(&config);
    let remote = match config.get_remote_host() {
        Some(h) => Some(h),
        None => Some("127.0.0.1".to_owned()),
    };
    match config {
        CreateOutputRequest::Udp { name, bind_host, multicast_ttl, multicast_interface, .. } => {
            let multicast = multicast_config_for(&remote, multicast_ttl, &multicast_interface);
            let made = create_udp_output(
                input_id,
                destination,
                output_id,
                name,
                bind_host,
                &multicast,
                lookup,
                now,
            );
            match made {
                Ok(o) => Ok(o),
                Err(e) => Err(crate::text::join2("Failed to create UDP output: ", e.as_str())),
            }
        },
        CreateOutputRequest::Srt { input_id: i, name, config } => Ok(
            create_srt_output(i, config, output_id, name, now),
        ),
    }
}

} // verus!
