use std::collections::HashMap;
use stream_gateway::analysis::{
    analysis_list, analysis_refusal, analysis_run, get_active_analyses, input_not_found, is_timeout_valid,
    resume_analyses, start_analysis, start_analysis_as, stop_all_analysis, stop_analysis,
};
use stream_gateway::creation::{
    begin_input, begin_input_on, begin_output, begin_output_on, destination_checked, finish_input,
    finish_output, input_port_found, output_port_found, output_record, output_saved, port_checked,
    serialization_failed, InputDraft, InputStep, OutputDraft, OutputStep, Refusal,
};
use stream_gateway::deletion::{delete_input, delete_output};
use stream_gateway::listing::{
    get_input, get_input_outputs, get_output, get_status, input_stats, input_status_word,
    list_inputs, list_outputs, output_status_word, StatsReply, StoredInput, StoredOutput,
};
use stream_gateway::loading::{
    load_inputs, load_outputs, row_to_look_up, InputRowData, OutputRowData,
};
use stream_gateway::maps::keys_of;
use stream_gateway::metrics::{Metric, MetricChange, MetricUpdate};
use stream_gateway::requests::{
    CreateInputRequest, CreateOutputRequest, SrtInputConfig, SrtOutputConfig,
};
use stream_gateway::responses::{InputRow, OutputRow};
use stream_gateway::srt_config::SrtCommonConfig;
use stream_gateway::state_processor::{
    get_input_stream_type, get_output_stream_type, handle_output_state_change, process_state_change,
};
use stream_gateway::stats::{InputStats, UdpStats};
use stream_gateway::status::{AnalysisType, OutputKind, StateChange, StreamStatus};
use stream_gateway::stream_control::{
    destinations_to_look_up, start_input, start_output, stop_input, stop_output,
};
use stream_gateway::streams::{
    create_srt_output, create_udp_output, spawn_input, stopped_input, InputsMap, Lookup,
};

const SECOND: i128 = 1_000_000_000;

fn text(s: &str) -> Option<String> {
    Some(s.to_string())
}

fn udp_req(port: Option<u16>) -> CreateInputRequest {
    CreateInputRequest::Udp {
        bind_host: None,
        bind_port: port,
        automatic_port: None,
        name: None,
        multicast_group: None,
        source_specific_multicast: None,
        listen_port: None,
    }
}

fn srt_caller_req() -> CreateInputRequest {
    CreateInputRequest::Srt {
        name: None,
        config: SrtInputConfig::Caller {
            remote_host: text("far"),
            remote_port: Some(9000),
            common: SrtCommonConfig::default(),
            bind_host: None,
            target_addr: None,
        },
    }
}

fn spts_req(source_input_id: i64) -> CreateInputRequest {
    CreateInputRequest::Spts { source_input_id, program_number: 101, fill_with_nulls: None, name: None }
}

fn udp_out_req(input_id: i64, port: Option<u16>) -> CreateOutputRequest {
    CreateOutputRequest::Udp {
        input_id,
        remote_host: text("10.0.0.9"),
        remote_port: port,
        automatic_port: None,
        name: None,
        bind_host: None,
        multicast_ttl: None,
        multicast_interface: None,
        destination_addr: None,
    }
}

fn listener(port: Option<u16>) -> SrtOutputConfig {
    SrtOutputConfig::Listener {
        bind_host: None,
        bind_port: port,
        automatic_port: None,
        common: SrtCommonConfig::default(),
        listen_port: None,
    }
}

fn srt_out_req(input_id: i64, port: Option<u16>) -> CreateOutputRequest {
    CreateOutputRequest::Srt { input_id, name: None, config: listener(port) }
}

/// A UDP input with number 1 that runs a UDP output with number 10 and an SRT listener with
/// number 11.
fn gateway() -> InputsMap {
    let mut streams: InputsMap = HashMap::new();
    let mut input = spawn_input(udp_req(Some(5000)), 1, text("cam"), SECOND);
    let destination = "10.0.0.9:6000".to_string();
    let found = Lookup::Found;
    let udp = create_udp_output(1, destination, 10, None, None, &None, found, SECOND).unwrap();
    input.output_tasks.insert(10, udp);
    input.output_tasks.insert(11, create_srt_output(1, listener(Some(7000)), 11, None, SECOND));
    streams.insert(1, input);
    streams
}

fn changes(m: &Vec<MetricUpdate>) -> Vec<(Metric, MetricChange)> {
    m.iter().map(|u| (u.metric, u.change)).collect()
}

fn sorted(mut v: Vec<i64>) -> Vec<i64> {
    v.sort();
    v
}

// ---------------------------------------------------------------- making streams

#[test]
fn inputs_are_spawned() {
    let i = spawn_input(udp_req(Some(5000)), 1, text("cam"), 7);
    assert_eq!((i.id, i.name.as_deref(), i.status), (1, Some("cam"), StreamStatus::Listening));
    assert_eq!((i.running, i.started_at, i.connected_at), (true, Some(7), None));
    assert_eq!(i.config.get_bind_port(), 5000);
    let i = spawn_input(srt_caller_req(), 2, None, 7);
    assert_eq!(i.status, StreamStatus::Connecting);
    let i = spawn_input(spts_req(4), 3, None, 7);
    assert_eq!(i.name.as_deref(), Some("SPTS Program 101 from Input 4"));
    assert_eq!(i.source_address.as_deref(), Some("MPTS Input 4 Program 101"));
    let i = stopped_input(1, None, udp_req(Some(5000)));
    assert_eq!((i.status, i.running, i.started_at), (StreamStatus::Stopped, false, None));
}

#[test]
fn outputs_are_made() {
    let streams = gateway();
    let o = &streams[&1].output_tasks[&10];
    assert_eq!(o.name.as_deref(), Some("UDP Output to 10.0.0.9:6000"));
    assert_eq!((o.kind, o.status, o.connected_at), (OutputKind::Udp, StreamStatus::Connected, Some(SECOND)));
    let o = &streams[&1].output_tasks[&11];
    assert_eq!((o.kind, o.status, o.connected_at), (OutputKind::SrtListener, StreamStatus::Listening, None));
    assert_eq!((o.name.as_deref(), o.destination.as_str()), (Some("SRT Listener on 7000"), ":7000"));
    let make = |l| create_udp_output(1, "h:1".to_string(), 9, None, None, &None, l, 0).unwrap_err();
    assert_eq!(make(Lookup::Empty), "No se pudo resolver 'h:1'");
    assert_eq!(make(Lookup::Failed("no".to_string())), "Error resolviendo 'h:1': no");
    assert_eq!(get_input_stream_type(&streams[&1]), "udp");
    assert_eq!(get_output_stream_type(o), "srt");
    assert_eq!(sorted(keys_of(&streams[&1].output_tasks)), [10, 11]);
}

// ---------------------------------------------------------------- state changes

fn input_change(id: i64, status: StreamStatus, at: Option<i128>, address: Option<String>) -> StateChange {
    StateChange::InputStateChanged { input_id: id, new_status: status, connected_at: at, source_address: address }
}

#[test]
fn gauge_follows_connections() {
    let mut s = gateway();
    let up = input_change(1, StreamStatus::Connected, Some(2 * SECOND), text("peer:1"));
    let m = process_state_change(&mut s, up, 3 * SECOND);
    assert_eq!(
        changes(&m),
        [
            (Metric::ConnectionEventsTotal, MetricChange::Increment),
            (Metric::ActiveConnections, MetricChange::Increment),
        ]
    );
    assert_eq!(m[0].labels, ["cam", "1", "udp", "input", "connected", "peer:1"]);
    let i = &s[&1];
    assert_eq!((i.status, i.connected_at, i.source_address.as_deref()),
        (StreamStatus::Connected, Some(2 * SECOND), Some("peer:1")));

    let again = input_change(1, StreamStatus::Connected, Some(4 * SECOND), text("peer:2"));
    assert!(process_state_change(&mut s, again, 5 * SECOND).is_empty());

    let down = input_change(1, StreamStatus::Reconnecting, Some(4 * SECOND), None);
    let m = process_state_change(&mut s, down, 9 * SECOND);
    assert_eq!(
        changes(&m),
        [
            (Metric::ConnectionEventsTotal, MetricChange::Increment),
            (Metric::ActiveConnections, MetricChange::Decrement),
            (Metric::ConnectionDurations, MetricChange::Observe(5_000_000_000)),
        ]
    );
    assert_eq!(m[0].labels[4..], ["disconnected", "unknown"]);
    assert_eq!(s[&1].source_address.as_deref(), Some("peer:2"));
}

#[test]
fn inactive_inputs_have_no_peer() {
    let mut s = gateway();
    process_state_change(&mut s, input_change(1, StreamStatus::Connected, Some(5), text("p")), 6);
    let m = process_state_change(&mut s, input_change(1, StreamStatus::Error, None, None), 7);
    assert_eq!(m.len(), 2);
    assert_eq!((s[&1].connected_at, s[&1].source_address.clone()), (None, None));
    assert_eq!(s[&1].output_tasks.len(), 2);
}

#[test]
fn unknown_streams_are_ignored() {
    let mut s = gateway();
    assert!(process_state_change(&mut s, input_change(9, StreamStatus::Error, None, None), 7).is_empty());
    assert!(handle_output_state_change(&mut s, 1, 99, StreamStatus::Error, None, None, 7).is_empty());
    assert!(handle_output_state_change(&mut s, 9, 10, StreamStatus::Error, None, None, 7).is_empty());
    assert_eq!(s.len(), 1);
}

#[test]
fn outputs_change_state() {
    let mut s = gateway();
    let m = handle_output_state_change(&mut s, 1, 11, StreamStatus::Connected, Some(5), text("p"), 6);
    assert_eq!(m[0].labels, ["SRT_Listener_on_7000", "11", "srt", "output", "connected", "p"]);
    let o = &s[&1].output_tasks[&11];
    assert_eq!((o.status, o.connected_at, o.peer_address.as_deref()), (StreamStatus::Connected, Some(5), Some("p")));
    assert_eq!(output_status_word(&s, 1, 11), "connected");
    assert_eq!(output_status_word(&s, 1, 99), "connecting");
    assert_eq!(output_status_word(&s, 9, 11), "connecting");
    assert_eq!(input_status_word(&s, 1), "listening");
    assert_eq!(input_status_word(&s, 9), "listening");
}

// ---------------------------------------------------------------- analyses

#[test]
fn analyses_start_and_stop() {
    let mut s = gateway();
    let id = start_analysis(&mut s, 1, AnalysisType::Mux, Some(5), SECOND).unwrap();
    assert_eq!(id.len(), 36);
    for (k, c) in id.chars().enumerate() {
        match k {
            8 | 13 | 18 | 23 => assert_eq!(c, '-'),
            14 => assert_eq!(c, '4'),
            19 => assert!("89ab".contains(c)),
            _ => assert!(c.is_ascii_digit() || ('a'..='f').contains(&c)),
        }
    }
    let other = start_analysis(&mut s, 1, AnalysisType::Tr101, None, SECOND).unwrap();
    assert_ne!(id, other);
    assert_eq!(
        start_analysis(&mut s, 1, AnalysisType::Mux, None, SECOND).unwrap_err(),
        "Analysis type mux is already running for input 1"
    );
    assert_eq!(start_analysis(&mut s, 9, AnalysisType::Mux, None, 0).unwrap_err(), "Input 9 not found");
    assert_eq!(input_not_found(9), "Input 9 not found");

    let a = stop_analysis(&mut s, 1, AnalysisType::Mux).unwrap();
    assert_eq!((a.id, a.expires_at), (id, Some(301 * SECOND)));
    assert_eq!(
        stop_analysis(&mut s, 1, AnalysisType::Mux).unwrap_err(),
        "No active mux analysis found for input 1"
    );
    assert_eq!(stop_analysis(&mut s, 9, AnalysisType::Mux).unwrap_err(), "Input 9 not found");
    let rest = stop_all_analysis(&mut s, 1).unwrap();
    assert_eq!((rest.len(), rest[0].id.as_str()), (1, other.as_str()));
    assert!(stop_all_analysis(&mut s, 1).unwrap().is_empty());
    assert_eq!(stop_all_analysis(&mut s, 9).unwrap_err(), "Input 9 not found");
}

#[test]
fn analyses_are_listed() {
    let mut s = gateway();
    start_analysis_as(&mut s, 1, AnalysisType::Tr101, Some(5), "x".to_string(), 0).unwrap();
    start_analysis_as(&mut s, 1, AnalysisType::Mux, None, "y".to_string(), 0).unwrap();
    let list = get_active_analyses(&s, 1).unwrap();
    let r = analysis_list(1, &list, 61 * SECOND);
    assert_eq!((r.input_id, r.active_analyses.len()), (1, 2));
    let a = &r.active_analyses[0];
    assert_eq!((a.id.as_str(), a.analysis_type.as_str(), a.status.as_str()), ("x", "tr101", "running"));
    assert_eq!(a.created_at, "1970-01-01T00:00:00+00:00");
    assert_eq!(a.expires_at.as_deref(), Some("1970-01-01T00:05:00+00:00"));
    assert_eq!((a.timeout_minutes, a.remaining_minutes), (Some(5), Some(3)));
    let b = &r.active_analyses[1];
    assert_eq!((b.expires_at.clone(), b.remaining_minutes), (None, None));
    assert_eq!(analysis_list(1, &list, 900 * SECOND).active_analyses[0].remaining_minutes, Some(0));
    assert_eq!(get_active_analyses(&s, 9).unwrap_err(), "Input 9 not found");
}

#[test]
fn analysis_with_the_same_identifier_gives_way() {
    let mut s = gateway();
    start_analysis_as(&mut s, 1, AnalysisType::Tr101, None, "x".to_string(), 0).unwrap();
    assert_eq!(start_analysis_as(&mut s, 1, AnalysisType::Mux, None, "x".to_string(), 1).unwrap(), "x");
    let list = get_active_analyses(&s, 1).unwrap();
    assert_eq!(list, [("x".to_string(), AnalysisType::Mux, 1, None, None)]);
    start_analysis_as(&mut s, 1, AnalysisType::Tr101, None, "y".to_string(), 2).unwrap();
    let ids: Vec<String> = get_active_analyses(&s, 1).unwrap().into_iter().map(|a| a.0).collect();
    assert_eq!(ids, ["x", "y"]);
}

#[test]
fn refused_analyses_are_told() {
    let mut s = gateway();
    assert_eq!(analysis_refusal(&s, 1, AnalysisType::Mux), None);
    assert_eq!(analysis_refusal(&s, 9, AnalysisType::Mux).as_deref(), Some("Input 9 not found"));
    start_analysis(&mut s, 1, AnalysisType::Mux, None, 0).unwrap();
    let message = "Analysis type mux is already running for input 1";
    assert_eq!(analysis_refusal(&s, 1, AnalysisType::Mux).as_deref(), Some(message));
    assert_eq!(start_analysis(&mut s, 1, AnalysisType::Mux, None, 0).unwrap_err(), message);
    assert_eq!(analysis_refusal(&s, 1, AnalysisType::Tr101), None);
}

#[test]
fn analysis_tasks_are_described() {
    let r = analysis_run(AnalysisType::Tr101, Some(3));
    assert_eq!((r.report_every_secs, r.tr101, r.timeout_secs), (2, true, Some(180)));
    let r = analysis_run(AnalysisType::Mux, None);
    assert_eq!((r.tr101, r.timeout_secs), (false, None));
    assert!(is_timeout_valid(SECOND, Some(1 << 20)) && is_timeout_valid(i128::MAX, None));
    assert!(!is_timeout_valid(0, Some(u64::MAX)));
    assert!(!is_timeout_valid(i128::MAX, Some(1)));
}

#[test]
fn paused_analyses_resume_once() {
    let mut s = gateway();
    let info = s.get_mut(&1).unwrap();
    info.paused_analysis = vec![AnalysisType::Mux, AnalysisType::Tr101];
    resume_analyses(info, 1, SECOND);
    let kinds: Vec<AnalysisType> = info.analysis_tasks.iter().map(|a| a.analysis_type).collect();
    assert_eq!(kinds, [AnalysisType::Mux, AnalysisType::Tr101]);
    assert!(info.analysis_tasks.iter().all(|a| a.timeout_minutes.is_none() && a.created_at == SECOND));
    assert!(info.paused_analysis.is_empty());
}

// ---------------------------------------------------------------- starting and stopping

#[test]
fn stop_then_start_restores_outputs() {
    let mut s = gateway();
    start_analysis_as(&mut s, 1, AnalysisType::Mux, Some(5), "x".to_string(), 0).unwrap();
    let stopped = stop_input(&mut s, 1).unwrap();
    assert_eq!(sorted(stopped.outputs), [10, 11]);
    assert_eq!(stopped.analyses.len(), 1);
    assert_eq!((s[&1].status, s[&1].running), (StreamStatus::Stopped, false));
    assert!(s[&1].output_tasks.is_empty() && s[&1].analysis_tasks.is_empty());
    assert_eq!(stop_input(&mut s, 1).unwrap_err(), "Input 1 is already stopped");
    assert_eq!(destinations_to_look_up(&s, 1), [(10, "10.0.0.9:6000".to_string())]);
    assert!(destinations_to_look_up(&s, 9).is_empty());

    let lookups: HashMap<i64, Lookup> = [(10, Lookup::Found)].into_iter().collect();
    let started = start_input(&mut s, 1, lookups, 9 * SECOND).unwrap();
    assert_eq!(sorted(started.outputs), [10, 11]);
    assert!(started.failed.is_empty());
    assert_eq!(
        changes(&started.metrics),
        [
            (Metric::ActiveInputs, MetricChange::Increment),
            (Metric::ActiveOutputs, MetricChange::Increment),
            (Metric::ActiveOutputs, MetricChange::Increment),
        ]
    );
    let i = &s[&1];
    assert_eq!((i.status, i.started_at), (StreamStatus::Listening, Some(9 * SECOND)));
    let o = &i.output_tasks[&10];
    assert_eq!((o.destination.as_str(), o.started_at), ("10.0.0.9:6000", Some(9 * SECOND)));
    assert_eq!(o.name.as_deref(), Some("UDP Output to 10.0.0.9:6000"));
    assert_eq!(i.output_tasks[&11].destination, ":7000");
    assert_eq!(i.analysis_tasks.len(), 1);
    assert_eq!(i.analysis_tasks[0].analysis_type, AnalysisType::Mux);
    let e = start_input(&mut s, 1, HashMap::new(), 0).unwrap_err();
    assert_eq!(e, "Input 1 is already running");
    assert_eq!(start_input(&mut s, 9, HashMap::new(), 0).unwrap_err(), "Input 9 not found");
    assert_eq!(stop_input(&mut s, 9).unwrap_err(), "Input 9 not found");
}

#[test]
fn outputs_that_cannot_restart_are_told() {
    let mut s = gateway();
    stop_input(&mut s, 1).unwrap();
    let started = start_input(&mut s, 1, HashMap::new(), 0).unwrap();
    assert_eq!(started.outputs, [11]);
    let message = "Failed to create UDP output: No se pudo resolver '10.0.0.9:6000'".to_string();
    assert_eq!(started.failed, [(10, message)]);
    assert!(!s[&1].output_tasks.contains_key(&10) && s[&1].stopped_outputs.is_empty());
}

#[test]
fn start_then_stop_output() {
    let mut s = gateway();
    assert!(stop_output(&mut s, 1, 10).is_ok());
    assert!(s[&1].stopped_outputs.contains_key(&10) && !s[&1].output_tasks.contains_key(&10));
    assert_eq!(stop_output(&mut s, 1, 10).unwrap_err(), "Output 10 is already stopped");
    assert_eq!(stop_output(&mut s, 1, 99).unwrap_err(), "Output 99 not found in input 1");
    assert_eq!(stop_output(&mut s, 9, 10).unwrap_err(), "Input 9 not found");
    let m = start_output(&mut s, 1, 10, Lookup::Found, 3 * SECOND).unwrap();
    assert_eq!((m.metric, m.change), (Metric::ActiveOutputs, MetricChange::Increment));
    assert_eq!(s[&1].output_tasks[&10].started_at, Some(3 * SECOND));
    let e = start_output(&mut s, 1, 10, Lookup::Found, 0).unwrap_err();
    assert_eq!(e, "Output 10 is already running");
    let e = start_output(&mut s, 1, 99, Lookup::Found, 0).unwrap_err();
    assert_eq!(e, "Output 99 not found in input 1");
    assert_eq!(start_output(&mut s, 9, 10, Lookup::Found, 0).unwrap_err(), "Input 9 not found");
    stop_input(&mut s, 1).unwrap();
    let e = start_output(&mut s, 1, 10, Lookup::Found, 0).unwrap_err();
    assert_eq!(e, "Cannot start output 10 because input 1 is stopped");
}

#[test]
fn failed_restart_of_an_output() {
    let mut s = gateway();
    stop_output(&mut s, 1, 10).unwrap();
    let failed = Lookup::Failed("no".to_string());
    let e = start_output(&mut s, 1, 10, failed, 0).unwrap_err();
    assert_eq!(e, "Failed to create UDP output: Error resolviendo '10.0.0.9:6000': no");
    assert!(!s[&1].stopped_outputs.contains_key(&10) && !s[&1].output_tasks.contains_key(&10));
}

// ---------------------------------------------------------------- creation and deletion

fn quiet(step: InputStep) -> InputDraft {
    match step {
        InputStep::Save(d) => d,
        _ => panic!(),
    }
}

#[test]
fn inputs_are_created() {
    let mut s: InputsMap = HashMap::new();
    let draft = quiet(begin_input(&s, udp_req(Some(5000))));
    assert_eq!((draft.name.as_deref(), draft.assigned_port), (Some("UDP Listener 5000"), None));
    let made = finish_input(&mut s, draft, Ok(7), SECOND).unwrap();
    assert_eq!((made.id, made.name.as_deref(), made.assigned_port), (7, Some("UDP Listener 5000"), None));
    assert_eq!((made.metrics.metric, made.metrics.change), (Metric::ActiveInputs, MetricChange::Increment));
    assert_eq!(s[&7].config.get_bind_port(), 5000);

    let draft = quiet(begin_input(&s, spts_req(7)));
    finish_input(&mut s, draft, Ok(8), SECOND).unwrap();
    assert_eq!(s[&8].name.as_deref(), Some("SPTS Program 101 from Input 7"));
}

#[test]
fn inputs_get_a_free_port() {
    let mut s: InputsMap = HashMap::new();
    let (req, name) = match begin_input_on(&s, udp_req(None), &Ok(vec![])) {
        InputStep::FindPort { req, name } => (req, name),
        _ => panic!(),
    };
    let draft = quiet(input_port_found(req, name, Ok(10005)));
    assert_eq!(draft.assigned_port, Some(10005));
    assert_eq!((draft.req.get_bind_port(), draft.req.is_automatic_port()), (10005, false));
    assert_eq!(finish_input(&mut s, draft, Ok(1), 0).unwrap().assigned_port, Some(10005));
    assert_eq!(s[&1].config.get_bind_port(), 10005);
    let step = input_port_found(udp_req(None), None, Err("none".to_string()));
    assert!(matches!(step, InputStep::Refused(Refusal::Internal(e)) if e == "Failed to find available port: none"));
}

#[test]
fn inputs_are_refused() {
    let mut s: InputsMap = HashMap::new();
    let bad = CreateInputRequest::Udp {
        bind_host: text("x"),
        bind_port: Some(1),
        automatic_port: None,
        name: None,
        multicast_group: None,
        source_specific_multicast: None,
        listen_port: None,
    };
    let step = begin_input(&s, bad);
    assert!(matches!(step, InputStep::Refused(Refusal::BadRequest(e)) if e == "Invalid bind IP address format: 'x'"));
    let step = begin_input(&s, spts_req(4));
    assert!(matches!(step, InputStep::Refused(Refusal::NotFound(e)) if e == "Input con ID '4' no encontrado"));
    let draft = quiet(begin_input(&s, udp_req(Some(5000))));
    let r = finish_input(&mut s, draft, Err("disk".to_string()), 0).unwrap_err();
    assert!(matches!(r, Refusal::Internal(e) if e == "Database error: disk"));
    assert!(s.is_empty());
}

fn checked(step: OutputStep) -> OutputDraft {
    match step {
        OutputStep::CheckDestination(d) => d,
        _ => panic!(),
    }
}

#[test]
fn udp_outputs_are_created() {
    let mut s = gateway();
    let draft = checked(begin_output(&s, udp_out_req(1, Some(6001))));
    assert_eq!((draft.destination.as_str(), draft.listen_port, draft.input_id), ("10.0.0.9:6001", None, 1));
    let draft = match destination_checked(draft, Ok(false)) {
        OutputStep::Save(d) => d,
        _ => panic!(),
    };
    let record = output_record(&draft);
    assert_eq!((record.name, record.kind), ("UDP Output to 10.0.0.9:6001", "udp"));
    assert_eq!((record.destination, record.input_id), ("10.0.0.9:6001", 1));
    let (draft, id) = match output_saved(draft, Ok(12)) {
        OutputStep::LookUp(d, id) => (d, id),
        _ => panic!(),
    };
    let made = finish_output(&mut s, draft, id, Lookup::Found, SECOND).unwrap();
    assert_eq!((made.output_id, made.input_id, made.kind.as_str()), (12, 1, "UDP"));
    assert_eq!(made.destination, "10.0.0.9:6001");
    assert_eq!(s[&1].output_tasks.len(), 3);

    let draft = checked(begin_output(&s, udp_out_req(1, Some(6002))));
    let r = finish_output(&mut s, draft, 13, Lookup::Empty, 0).unwrap_err();
    assert!(matches!(r, Refusal::BadRequest(e) if e == "No se pudo resolver '10.0.0.9:6002'"));
    assert_eq!(s[&1].output_tasks.len(), 3);
}

#[test]
fn legacy_destinations_are_used() {
    let mut s = gateway();
    let req = CreateOutputRequest::Udp {
        input_id: 1,
        remote_host: None,
        remote_port: None,
        automatic_port: None,
        name: text("TV mas principal"),
        bind_host: None,
        multicast_ttl: None,
        multicast_interface: None,
        destination_addr: text("127.0.0.1:8001"),
    };
    let draft = checked(begin_output(&s, req));
    assert_eq!(output_record(&draft).name, "TV mas principal");
    let made = finish_output(&mut s, draft, 12, Lookup::Found, 0).unwrap();
    assert_eq!((made.destination.as_str(), made.assigned_port), ("127.0.0.1:8001", None));
    let o = &s[&1].output_tasks[&12];
    assert_eq!((o.destination.as_str(), o.kind), ("127.0.0.1:8001", OutputKind::Udp));

    let req = CreateOutputRequest::Srt {
        input_id: 1,
        name: None,
        config: SrtOutputConfig::Listener {
            bind_host: None,
            bind_port: None,
            automatic_port: None,
            common: SrtCommonConfig { latency_ms: Some(120), ..SrtCommonConfig::default() },
            listen_port: Some(8000),
        },
    };
    let draft = checked(begin_output(&s, req));
    assert_eq!((draft.destination.as_str(), draft.listen_port), (":8000", Some(8000)));
}

#[test]
fn srt_outputs_get_a_free_port() {
    let mut s = gateway();
    let req = match begin_output_on(&s, srt_out_req(1, None), &Ok(vec![])) {
        OutputStep::FindPort(req) => req,
        _ => panic!(),
    };
    let draft = checked(output_port_found(req, Ok(10007)));
    assert_eq!((draft.destination.as_str(), draft.listen_port), (":10007", Some(10007)));
    let (draft, port) = match destination_checked(draft, Ok(false)) {
        OutputStep::CheckPort(d, p) => (d, p),
        _ => panic!(),
    };
    assert_eq!(port, 10007);
    let draft = match port_checked(draft, port, Ok(false)) {
        OutputStep::Save(d) => d,
        _ => panic!(),
    };
    let (draft, id) = match output_saved(draft, Ok(12)) {
        OutputStep::Run(d, id) => (d, id),
        _ => panic!(),
    };
    let made = finish_output(&mut s, draft, id, Lookup::Empty, 0).unwrap();
    assert_eq!((made.kind.as_str(), made.assigned_port), ("SRT Listener", Some(10007)));
    assert_eq!(s[&1].output_tasks[&12].config.extract_assigned_port(), Some(10007));
}

#[test]
fn outputs_are_refused() {
    let s = gateway();
    let refusal = |step: OutputStep| match step {
        OutputStep::Refused(r) => r,
        _ => panic!(),
    };
    let r = refusal(begin_output(&s, udp_out_req(9, Some(1))));
    assert!(matches!(r, Refusal::NotFound(e) if e == "Input con ID '9' no encontrado"));
    let r = refusal(output_port_found(udp_out_req(1, None), Err("none".to_string())));
    assert!(matches!(r, Refusal::Internal(e) if e == "Failed to find available port: none"));
    let draft = || checked(begin_output(&s, srt_out_req(1, Some(7001))));
    let r = refusal(destination_checked(draft(), Ok(true)));
    assert!(matches!(r, Refusal::Conflict(e) if e == "Output ya existe para input 1 con destino ':7001'"));
    let r = refusal(destination_checked(draft(), Err("disk".to_string())));
    assert!(matches!(r, Refusal::Internal(e) if e == "Database error: disk"));
    let r = refusal(port_checked(draft(), 7001, Ok(true)));
    assert!(matches!(r, Refusal::Conflict(e) if e == "Puerto 7001 ya está en uso por otro output"));
    let r = refusal(port_checked(draft(), 7001, Err("disk".to_string())));
    assert!(matches!(r, Refusal::Internal(e) if e == "Database error: disk"));
    let r = refusal(output_saved(draft(), Err("disk".to_string())));
    assert!(matches!(r, Refusal::Internal(e) if e == "Database error: disk"));
    let r = refusal(serialization_failed("deep".to_string()));
    assert!(matches!(r, Refusal::Internal(e) if e == "Serialization error: deep"));
}

#[test]
fn removal_undoes_making() {
    let mut s = gateway();
    let m = delete_output(&mut s, 1, 10).unwrap();
    assert_eq!((m.metric, m.change), (Metric::ActiveOutputs, MetricChange::Decrement));
    assert_eq!(
        delete_output(&mut s, 1, 10).unwrap_err(),
        "Output con ID '10' no encontrado para Input '1'"
    );
    assert_eq!(delete_output(&mut s, 9, 10).unwrap_err(), "Input con ID '9' no encontrado");
    let gone = delete_input(&mut s, 1).unwrap();
    assert_eq!((gone.running, gone.outputs.clone()), (true, vec![11]));
    assert_eq!(
        changes(&gone.metrics),
        [
            (Metric::ActiveInputs, MetricChange::Decrement),
            (Metric::ActiveOutputs, MetricChange::Decrement),
        ]
    );
    assert!(s.is_empty());
    assert_eq!(delete_input(&mut s, 1).unwrap_err(), "Input con ID '1' no encontrado");
}

// ---------------------------------------------------------------- loading

fn input_row(id: i64, kind: &str, status: &str, request: Result<CreateInputRequest, String>) -> InputRowData {
    let srt = match &request {
        Ok(CreateInputRequest::Srt { config, .. }) => Ok(config.clone()),
        Ok(_) => Err("no srt".to_string()),
        Err(e) => Err(e.clone()),
    };
    InputRowData {
        row: InputRow {
            id,
            name: text("stored"),
            kind: kind.to_string(),
            config_json: "{}".to_string(),
            status: status.to_string(),
        },
        request,
        srt,
    }
}

fn output_row(id: i64, input_id: i64, kind: &str, status: &str) -> OutputRowData {
    OutputRowData {
        row: OutputRow {
            id,
            name: None,
            input_id,
            kind: kind.to_string(),
            destination: text("10.0.0.9:6000"),
            listen_port: Some(7000),
            config_json: None,
            status: status.to_string(),
        },
        config: None,
        common: Ok(SrtCommonConfig::default()),
        lookup: Lookup::Found,
    }
}

#[test]
fn saved_inputs_come_back() {
    let rows = vec![
        input_row(1, "udp", "listening", Ok(udp_req(Some(5000)))),
        input_row(2, "srt_caller", "stopped", Ok(srt_caller_req())),
        input_row(3, "srt_caller", "connected", Ok(srt_caller_req())),
        input_row(4, "spts", "listening", Ok(spts_req(1))),
    ];
    let loaded = load_inputs(rows, SECOND).unwrap();
    let s = loaded.inputs;
    assert_eq!(sorted(keys_of(&s)), [1, 2, 3]);
    assert_eq!((s[&1].status, s[&1].name.as_deref()), (StreamStatus::Listening, Some("stored")));
    assert_eq!((s[&2].status, s[&2].running), (StreamStatus::Stopped, false));
    assert_eq!(s[&3].status, StreamStatus::Connecting);
    assert_eq!(changes(&loaded.metrics), [(Metric::ActiveInputs, MetricChange::Increment); 2]);
}

#[test]
fn unreadable_inputs_end_the_load() {
    let rows = vec![
        input_row(1, "udp", "listening", Ok(udp_req(Some(5000)))),
        input_row(2, "udp", "listening", Err("bad json".to_string())),
    ];
    let e = load_inputs(rows, 0).unwrap_err();
    assert_eq!(e.message, "bad json");
    assert_eq!(changes(&e.metrics), [(Metric::ActiveInputs, MetricChange::Increment)]);
    let rows = vec![
        input_row(1, "udp", "stopped", Ok(udp_req(Some(5000)))),
        input_row(2, "srt_caller", "connected", Err("bad json".to_string())),
        input_row(3, "udp", "listening", Ok(udp_req(Some(5001)))),
    ];
    let e = load_inputs(rows, 0).unwrap_err();
    assert_eq!((e.message.as_str(), e.metrics.len()), ("bad json", 0));
}

#[test]
fn saved_outputs_come_back() {
    let rows = vec![input_row(1, "udp", "listening", Ok(udp_req(Some(5000))))];
    let mut s = load_inputs(rows, 0).unwrap().inputs;
    let mut odd = output_row(14, 1, "udp", "connected");
    odd.row.destination = text("name:6000");
    let mut lost = output_row(15, 1, "udp", "connected");
    lost.lookup = Lookup::Empty;
    let rows = vec![
        output_row(10, 1, "udp", "connected"),
        output_row(11, 1, "srt_listener", "listening"),
        output_row(12, 1, "srt_caller", "stopped"),
        output_row(13, 9, "udp", "connected"),
        odd,
        lost,
        output_row(16, 1, "other", "connected"),
    ];
    let m = load_outputs(&mut s, rows, SECOND).unwrap();
    assert_eq!(changes(&m), [(Metric::ActiveOutputs, MetricChange::Increment); 2]);
    assert_eq!(sorted(keys_of(&s[&1].output_tasks)), [10, 11]);
    assert_eq!(sorted(keys_of(&s[&1].stopped_outputs)), [12]);
    assert_eq!(s[&1].output_tasks[&10].destination, "10.0.0.9:6000");
    assert_eq!(s[&1].output_tasks[&11].destination, ":7000");
    assert_eq!(s[&1].stopped_outputs[&12].get_remote_host().as_deref(), Some("10.0.0.9"));
}

#[test]
fn only_needed_destinations_are_looked_up() {
    let s = gateway();
    let wanted = |d: OutputRowData| row_to_look_up(&s, &d.row);
    assert_eq!(wanted(output_row(10, 1, "udp", "connected")).as_deref(), Some("10.0.0.9:6000"));
    assert_eq!(wanted(output_row(10, 9, "udp", "connected")), None);
    assert_eq!(wanted(output_row(10, 1, "udp", "stopped")), None);
    assert_eq!(wanted(output_row(10, 1, "srt_caller", "connected")), None);
    let mut named = output_row(10, 1, "udp", "connected");
    named.row.destination = text("far:6000");
    assert_eq!(wanted(named), None);
    let mut bare = output_row(10, 1, "udp", "connected");
    bare.row.destination = None;
    assert_eq!(wanted(bare), None);
}

#[test]
fn saved_udp_outputs_come_back() {
    let mut s = gateway();
    let draft = checked(begin_output(&s, udp_out_req(1, Some(6001))));
    let mut row = output_row(12, 1, output_record(&draft).kind, "connecting");
    row.row.name = text(output_record(&draft).name);
    row.row.destination = text(output_record(&draft).destination);
    finish_output(&mut s, draft, 12, Lookup::Found, SECOND).unwrap();

    let rows = vec![input_row(1, "udp", "listening", Ok(udp_req(Some(5000))))];
    let mut loaded = load_inputs(rows, 0).unwrap().inputs;
    load_outputs(&mut loaded, vec![row], 2 * SECOND).unwrap();
    let (made, back) = (&s[&1].output_tasks[&12], &loaded[&1].output_tasks[&12]);
    assert_eq!((&back.name, &back.destination), (&made.name, &made.destination));
    assert_eq!((back.kind, back.status), (made.kind, made.status));
}

#[test]
fn unusable_outputs_end_the_load() {
    let rows = vec![input_row(1, "udp", "listening", Ok(udp_req(Some(5000))))];
    let mut s = load_inputs(rows, 0).unwrap().inputs;
    let mut bare = output_row(11, 1, "srt_listener", "listening");
    bare.row.listen_port = None;
    let e = load_outputs(&mut s, vec![output_row(10, 1, "udp", "connected"), bare], 0).unwrap_err();
    assert_eq!(e.message, "Missing listen_port for SRT Listener output 11");
    assert_eq!(changes(&e.metrics), [(Metric::ActiveOutputs, MetricChange::Increment)]);
    assert_eq!(keys_of(&s[&1].output_tasks), [10]);
    let mut broken = output_row(12, 1, "srt_caller", "connected");
    broken.common = Err("bad json".to_string());
    let e = load_outputs(&mut s, vec![broken], 0).unwrap_err();
    assert_eq!((e.message.as_str(), e.metrics.len()), ("bad json", 0));
}

// ---------------------------------------------------------------- listing

#[test]
fn streams_are_listed() {
    let mut s = gateway();
    stop_output(&mut s, 1, 11).unwrap();
    let now = 31 * SECOND;
    let stored_output = StoredOutput { config_json: text("{}"), config: Some(udp_out_req(1, Some(6000))) };
    let stored: HashMap<i64, StoredOutput> = [(10, stored_output)].into_iter().collect();
    let texts: HashMap<i64, String> = [(11, "{\"k\":1}".to_string())].into_iter().collect();
    let row = InputRow {
        id: 1,
        name: text("cam"),
        kind: "udp".to_string(),
        config_json: "{\"c\":1}".to_string(),
        status: "listening".to_string(),
    };
    let stored_input = Some(StoredInput { row, config: Some(udp_req(Some(5000))) });

    let d = get_input(&s, 1, &stored_input, &stored, &texts, now).unwrap();
    assert_eq!((d.id, d.name.as_deref(), d.input_type.as_str()), (1, Some("cam"), "UDP Listener"));
    assert_eq!((d.status.as_str(), d.assigned_port, d.uptime_seconds), ("listening", Some(5000), None));
    assert_eq!(d.config.as_deref(), Some("{\"c\":1}"));
    assert_eq!(d.outputs.len(), 2);
    let o = &d.outputs[0];
    assert_eq!((o.id, o.output_type.as_str(), o.status.as_str()), (10, "udp", "connected"));
    assert_eq!((o.uptime_seconds, o.config.as_deref()), (Some(30), Some("{}")));
    let o = &d.outputs[1];
    assert_eq!((o.id, o.output_type.as_str(), o.status.as_str()), (11, "srt_listener", "stopped"));
    assert_eq!((o.destination.as_str(), o.assigned_port), (":7000", Some(7000)));
    assert_eq!(o.config.as_deref(), Some("{\"k\":1}"));
    let e = get_input(&s, 9, &None, &stored, &texts, now).unwrap_err();
    assert_eq!(e, "Input con ID '9' no encontrado");

    assert_eq!(get_input_outputs(&s, 1, &stored, &texts, now).unwrap().len(), 2);
    let e = get_input_outputs(&s, 9, &stored, &texts, now).unwrap_err();
    assert_eq!(e, "Input con ID '9' no encontrado");
    assert_eq!(get_output(&s, 10, &stored, now).unwrap().destination, "10.0.0.9:6000");
    let e = get_output(&s, 99, &stored, now).unwrap_err();
    assert_eq!(e, "Output con ID '99' no encontrado");

    let inputs: HashMap<i64, StoredInput> = stored_input.into_iter().map(|i| (1, i)).collect();
    let list = list_inputs(&s, &inputs, now);
    assert_eq!((list.len(), list[0].output_count, list[0].input_type.as_str()), (1, 1, "UDP Listener"));
    let list = list_outputs(&s, &stored, now);
    assert_eq!(list.len(), 2);
    assert_eq!((list[0].id, list[0].input_name.as_deref()), (10, Some("cam")));
    let all = get_status(&s, now);
    assert_eq!((all.len(), all[0].outputs.len(), all[0].bitrate_bps), (1, 2, None));
    assert_eq!(all[0].outputs[0].uptime_seconds, Some(30));
}

#[test]
fn statistics_are_answered() {
    let s = gateway();
    assert!(matches!(input_stats(&s, 9, None), StatsReply::NotFound));
    assert!(matches!(input_stats(&s, 1, None), StatsReply::NoContent));
    let latest = UdpStats { total_packets: 4, ..UdpStats::default() };
    match input_stats(&s, 1, Some(InputStats::Udp(latest))) {
        StatsReply::Stats(InputStats::Udp(u)) => assert_eq!(u.total_packets, 4),
        _ => panic!(),
    }
}
