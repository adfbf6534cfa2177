use bytes::Bytes;
use std::collections::HashSet;
use stream_gateway::config::Config;
use stream_gateway::metrics::{Metric, MetricChange, MetricUpdate};
use stream_gateway::mpegts_filter::ProgramFilter;
use stream_gateway::port_search::{
    check_input_port_conflict, conflict_questions, find_available_port, ports_in_database,
    read_config_ports, used_ports, ConfigPorts, InputPort,
};
use stream_gateway::report::{
    convert_inspector_report, CodecData, CodecInfo, InspectedErrors, InspectedProgram,
    InspectedStream, InspectorReport,
};
use stream_gateway::requests::{CreateInputRequest, SrtInputConfig, SrtOutputConfig};
use stream_gateway::spts::{
    create_spts_output, packets_to_send, spts_destination_of, SpsDestinationConfig, SptsInputTask,
};
use stream_gateway::srt_config::SrtCommonConfig;
use stream_gateway::srt_stream::{
    Forwarder, ReadResult, SendResult, SrtNext, SrtSender, SrtSinkWithState, SrtSourceWithState,
};
use stream_gateway::stats::UdpStatsAtomic;
use stream_gateway::status::{StateChange, StreamStatus};
use stream_gateway::streams::Lookup;
use stream_gateway::udp_stream::{socket_opened, udp_packet_sent, UdpInputTask};

const SECOND: u64 = 1_000_000_000;

fn text(s: &str) -> Option<String> {
    Some(s.to_string())
}

/// State, time and address that a notice on an input tells.
fn told(n: &StateChange) -> (i64, StreamStatus, Option<i128>, Option<String>) {
    match n {
        StateChange::InputStateChanged { input_id, new_status, connected_at, source_address } => {
            (*input_id, *new_status, *connected_at, source_address.clone())
        }
        _ => panic!(),
    }
}

/// State, time and address that a notice on an output tells.
fn told_output(n: &StateChange) -> (i64, i64, StreamStatus, Option<i128>, Option<String>) {
    match n {
        StateChange::OutputStateChanged { input_id, output_id, new_status, connected_at, peer_address } => {
            (*input_id, *output_id, *new_status, *connected_at, peer_address.clone())
        }
        _ => panic!(),
    }
}

fn changes(m: &Vec<MetricUpdate>) -> Vec<(Metric, MetricChange)> {
    m.iter().map(|u| (u.metric, u.change)).collect()
}

// ---------------------------------------------------------------- UDP

#[test]
fn opened_sockets_are_told() {
    assert_eq!(told(&socket_opened(3, true)), (3, StreamStatus::Listening, None, None));
    assert_eq!(told(&socket_opened(3, false)), (3, StreamStatus::Error, None, None));
}

#[test]
fn first_packet_connects() {
    let mut task = UdpInputTask::new(3, text("cam"), 5000, 0);
    assert!(task.has_room(1316));
    let r = task.received(1316, "10.1.1.1", 5, 77);
    let address = text("10.1.1.1:5000");
    assert_eq!(told(&r.notice.unwrap()), (3, StreamStatus::Connected, Some(77), address));
    assert_eq!(
        changes(&r.metrics),
        [
            (Metric::InputBytesReceived, MetricChange::IncrementBy(1316)),
            (Metric::InputPacketsReceived, MetricChange::IncrementBy(1)),
        ]
    );
    assert_eq!(r.metrics[0].labels, ["cam", "3", "udp"]);
    assert!(r.stats.is_none());
    assert!(task.received(188, "10.1.1.1", 6, 78).notice.is_none());
    assert_eq!((task.total_bytes, task.total_packets), (1504, 2));
}

#[test]
fn statistics_come_every_second() {
    let mut task = UdpInputTask::new(3, None, 5000, 0);
    for k in 1..10 {
        assert!(task.received(100, "h", k * SECOND / 10, 0).stats.is_none());
    }
    let s = task.received(100, "h", SECOND, 0).stats.unwrap();
    assert_eq!((s.total_packets, s.total_bytes), (10, 1000));
    assert_eq!((s.packets_per_sec, s.bitrate_bps), (10, 8000));
    assert_eq!((task.window_packets, task.window_bytes, task.window_start), (0, 0, SECOND));
    let s = task.received(50, "h", 3 * SECOND, 0).stats.unwrap();
    assert_eq!((s.total_packets, s.packets_per_sec, s.bitrate_bps), (11, 1, 400));
}

#[test]
fn windows_lose_no_packet() {
    let mut task = UdpInputTask::new(3, None, 5000, 0);
    let mut counted = 0;
    for k in 0..50u64 {
        if let Some(s) = task.received(10, "h", k * SECOND / 7, 0).stats {
            counted += s.packets_per_sec;
        }
    }
    assert_eq!(counted + task.window_packets, 50);
}

#[test]
fn silence_is_told_once() {
    let mut task = UdpInputTask::new(3, None, 5000, 0);
    assert!(task.idle(60 * SECOND).is_none());
    task.received(10, "h", 60 * SECOND, 0);
    assert!(task.idle(70 * SECOND - 1).is_none());
    let n = task.idle(70 * SECOND).unwrap();
    assert_eq!(told(&n), (3, StreamStatus::Listening, None, None));
    assert!(task.idle(200 * SECOND).is_none());
    assert!(task.received(10, "h", 201 * SECOND, 0).notice.is_some());
}

#[test]
fn packets_keep_inputs_connected() {
    let mut task = UdpInputTask::new(3, None, 5000, 0);
    for k in 1..20 {
        task.received(10, "h", k * 9 * SECOND, 0);
        assert!(task.idle(k * 9 * SECOND + 8 * SECOND).is_none());
        assert!(task.connected);
    }
}

#[test]
fn full_counters_are_told() {
    let mut task = UdpInputTask::new(3, None, 5000, 0);
    task.window_bytes = u64::MAX / 8;
    assert!(!task.has_room(1) && task.has_room(0));
    task.window_bytes = 0;
    task.total_packets = u64::MAX;
    assert!(!task.has_room(0));
}

#[test]
fn sent_packets_are_counted() {
    let m = udp_packet_sent(&None, 3, 4, 188, true);
    assert_eq!(
        changes(&m),
        [
            (Metric::OutputBytesSent, MetricChange::IncrementBy(188)),
            (Metric::OutputPacketsSent, MetricChange::IncrementBy(1)),
        ]
    );
    let m = udp_packet_sent(&None, 3, 4, 188, false);
    assert_eq!(changes(&m), [(Metric::StreamErrors, MetricChange::Increment)]);
    assert_eq!(m[0].labels, ["stream_4", "4", "udp", "send_failed"]);
}

#[test]
fn counters_start_at_zero() {
    let s = UdpStatsAtomic::new().snapshot();
    assert_eq!((s.total_packets, s.total_bytes, s.packets_per_sec, s.bitrate_bps), (0, 0, 0, 0));
    let a = UdpStatsAtomic { total_packets: 1, total_bytes: 2, packets_per_sec: 3, bitrate_bps: 4 };
    let s = a.snapshot();
    assert_eq!((s.total_packets, s.total_bytes, s.packets_per_sec, s.bitrate_bps), (1, 2, 3, 4));
}

// ---------------------------------------------------------------- SRT

fn source_listener(bind_port: Option<u16>) -> SrtSourceWithState {
    SrtSourceWithState {
        config: SrtInputConfig::Listener {
            bind_host: None,
            bind_port,
            automatic_port: None,
            common: SrtCommonConfig::default(),
            listen_port: None,
        },
        input_id: 3,
    }
}

fn source_caller(remote_host: Option<String>, bind_host: Option<String>) -> SrtSourceWithState {
    SrtSourceWithState {
        config: SrtInputConfig::Caller {
            remote_host,
            remote_port: None,
            common: SrtCommonConfig::default(),
            bind_host,
            target_addr: None,
        },
        input_id: 3,
    }
}

#[test]
fn srt_sources_are_planned() {
    let s = source_listener(Some(6000));
    let plan = s.get_socket();
    assert!(plan.listen && plan.local.is_none());
    assert_eq!(plan.address, "0.0.0.0:6000");
    assert_eq!(told(&plan.notice), (3, StreamStatus::Listening, None, None));
    let n = s.connected(&plan, "9.9.9.9:1".to_string(), 42);
    assert_eq!(told(&n), (3, StreamStatus::Connected, Some(42), text("9.9.9.9:1")));

    let s = source_caller(None, text("10.0.0.1"));
    let plan = s.get_socket();
    assert!(!plan.listen);
    assert_eq!(plan.address, "127.0.0.1:8000");
    assert_eq!(plan.local.as_deref(), Some("10.0.0.1:0"));
    assert_eq!(told(&plan.notice), (3, StreamStatus::Connecting, None, None));
    let n = s.connected(&plan, "9.9.9.9:1".to_string(), 42);
    assert_eq!(told(&n).3, text("127.0.0.1:8000"));
    assert!(source_caller(text("far"), text("0.0.0.0")).get_socket().local.is_none());
    assert!(source_caller(text("far"), text("")).get_socket().local.is_none());
    assert_eq!(source_caller(text("far"), None).get_socket().address, "far:8000");
}

#[test]
fn srt_sinks_are_planned() {
    let sink = SrtSinkWithState {
        config: SrtOutputConfig::Listener {
            bind_host: None,
            bind_port: None,
            automatic_port: None,
            common: SrtCommonConfig::default(),
            listen_port: None,
        },
        input_id: 3,
        output_id: 4,
    };
    let plan = sink.get_socket();
    assert!(plan.listen);
    assert_eq!(plan.address, "0.0.0.0:8000");
    assert_eq!(told_output(&plan.notice), (3, 4, StreamStatus::Listening, None, None));
    let n = sink.connected(&plan, "9.9.9.9:1".to_string(), 42);
    assert_eq!(told_output(&n), (3, 4, StreamStatus::Connected, Some(42), text("9.9.9.9:1")));

    let sink = SrtSinkWithState {
        config: SrtOutputConfig::Caller {
            remote_host: None,
            remote_port: None,
            common: SrtCommonConfig::default(),
            bind_host: None,
            destination_addr: text("far:9000"),
        },
        input_id: 3,
        output_id: 4,
    };
    let plan = sink.get_socket();
    assert_eq!((plan.listen, plan.address.as_str()), (false, "far:9000"));
    assert_eq!(told_output(&plan.notice).2, StreamStatus::Connecting);
}

#[test]
fn gives_up_at_the_tenth_failure() {
    let mut f = Forwarder::new(3, None, 1);
    for _ in 0..9 {
        let r = f.connect_failed();
        assert_eq!(r.next, SrtNext::Retry(1));
        assert_eq!(told(&r.notice.unwrap()).1, StreamStatus::Reconnecting);
    }
    let r = f.connect_failed();
    assert_eq!(r.next, SrtNext::Stop);
    assert_eq!(told(&r.notice.unwrap()), (3, StreamStatus::Error, None, None));

    let mut s = SrtSender::new(3, 4, None);
    for round in 0..3 {
        for _ in 0..9 {
            assert_eq!(s.connect_failed().next, SrtNext::Retry(2));
        }
        s.opened(round);
    }
    for _ in 0..9 {
        assert_eq!(s.connect_failed().next, SrtNext::Retry(2));
    }
    let r = s.connect_failed();
    assert_eq!(r.next, SrtNext::Stop);
    assert_eq!(told_output(&r.notice.unwrap()).2, StreamStatus::Error);
}

#[test]
fn srt_reads_are_counted() {
    let mut f = Forwarder::new(3, text("cam"), 1);
    f.opened(5 * SECOND);
    assert!(!f.stats_due(6 * SECOND - 1));
    assert!(f.stats_due(6 * SECOND));
    assert!(!f.stats_due(6 * SECOND));
    let r = f.read(ReadResult::Got(1316));
    assert_eq!(r.next, SrtNext::Continue);
    assert!(r.notice.is_none());
    assert_eq!(
        changes(&r.metrics),
        [
            (Metric::InputBytesReceived, MetricChange::IncrementBy(1316)),
            (Metric::InputPacketsReceived, MetricChange::IncrementBy(1)),
        ]
    );
    for end in [ReadResult::Got(0), ReadResult::Failed] {
        let r = f.read(end);
        assert_eq!(r.next, SrtNext::Retry(1));
        assert_eq!(told(&r.notice.unwrap()).1, StreamStatus::Reconnecting);
        assert!(r.metrics.is_empty());
    }
}

#[test]
fn srt_sends_are_counted() {
    let mut s = SrtSender::new(3, 4, text("out"));
    s.opened(0);
    assert!(s.stats_due(SECOND) && !s.stats_due(SECOND));
    let r = s.sent(188, SendResult::Wrote(188));
    assert_eq!(r.next, SrtNext::Continue);
    assert_eq!(r.metrics[0].labels, ["out", "3", "4", "srt"]);
    assert_eq!(r.metrics.len(), 2);
    let r = s.sent(188, SendResult::Wrote(100));
    assert_eq!(r.next, SrtNext::Continue);
    assert_eq!(r.metrics[0].labels, ["out", "4", "srt", "partial_send"]);
    let r = s.sent(188, SendResult::Failed);
    assert_eq!(r.next, SrtNext::Retry(2));
    assert_eq!(told_output(&r.notice.unwrap()).2, StreamStatus::Reconnecting);
    assert_eq!(r.metrics[0].labels[3], "send_failed");
}

// ---------------------------------------------------------------- program filters

fn packet(pid: u16) -> Vec<u8> {
    let mut p = vec![0x47, (pid >> 8) as u8, (pid & 0xff) as u8, 0x10];
    p.resize(188, 0xff);
    p
}

#[test]
fn filtered_inputs_connect_with_the_first_packet() {
    let (mut task, notice) = SptsInputTask::new(9, 4, 101, false, 7);
    let source = text("MPTS Input 4 Program 101");
    assert_eq!(told(&notice), (9, StreamStatus::Listening, None, source.clone()));
    let r = task.received(&Bytes::from(packet(0x55)));
    assert!(r.packets.is_none() && r.notice.is_none());
    let r = task.received(&Bytes::from(packet(1)));
    assert_eq!(r.packets, Some(Bytes::from(packet(1))));
    assert_eq!(told(&r.notice.unwrap()), (9, StreamStatus::Connected, Some(7), source));
    let r = task.received(&Bytes::from(packet(1)));
    assert!(r.packets.is_some() && r.notice.is_none());
    assert_eq!(told(&task.source_closed()), (9, StreamStatus::Stopped, None, None));
}

#[test]
fn filtered_outputs_send_what_passes() {
    let mut filter = ProgramFilter::new(1, false);
    assert!(packets_to_send(&mut filter, &Bytes::from(packet(0x55))).is_none());
    assert_eq!(packets_to_send(&mut filter, &Bytes::from(packet(1))), Some(Bytes::from(packet(1))));
}

fn spts_udp(host: Option<String>, port: Option<u16>, addr: Option<String>) -> SpsDestinationConfig {
    SpsDestinationConfig::Udp {
        remote_host: host,
        remote_port: port,
        bind_host: None,
        multicast_ttl: Some(4),
        multicast_interface: None,
        destination_addr: addr,
    }
}

#[test]
fn filtered_outputs_are_made() {
    assert_eq!(spts_destination_of(&spts_udp(None, None, None)), "127.0.0.1:8000");
    assert_eq!(spts_destination_of(&spts_udp(text("h"), Some(1), text("far:9"))), "far:9");
    let d = spts_udp(text("239.0.0.1"), Some(5000), None);
    let o = create_spts_output(3, 4, None, 101, true, d, Lookup::Found, 7).unwrap();
    assert_eq!((o.id, o.input_id, o.name.as_str()), (4, 3, "SPTS Program 101 Output"));
    assert_eq!((o.destination.as_str(), o.status), ("239.0.0.1:5000", StreamStatus::Connected));
    assert_eq!((o.multicast.unwrap().ttl, o.connected_at, o.fill_with_nulls), (4, Some(7), true));
    assert_eq!((o.metrics.metric, o.metrics.change), (Metric::ActiveOutputs, MetricChange::Increment));
    assert!(o.metrics.labels.is_empty());

    let d = spts_udp(None, None, None);
    let e = create_spts_output(3, 4, None, 1, true, d, Lookup::Empty, 7).unwrap_err();
    assert_eq!(e, "Could not resolve '127.0.0.1:8000'");
    let d = spts_udp(None, None, None);
    let failed = Lookup::Failed("no".to_string());
    let e = create_spts_output(3, 4, None, 1, true, d, failed, 7).unwrap_err();
    assert_eq!(e, "Error resolving '127.0.0.1:8000': no");

    let d = SpsDestinationConfig::Srt {
        config: SrtOutputConfig::Listener {
            bind_host: None,
            bind_port: Some(7000),
            automatic_port: None,
            common: SrtCommonConfig::default(),
            listen_port: None,
        },
    };
    let o = create_spts_output(3, 4, text("n"), 1, false, d, Lookup::Empty, 7).unwrap();
    assert_eq!((o.name.as_str(), o.destination.as_str()), ("n", ":7000"));
    assert_eq!((o.status, o.connected_at), (StreamStatus::Listening, None));
}

// ---------------------------------------------------------------- ports

fn set(ports: &[u16]) -> HashSet<u16> {
    ports.iter().copied().collect()
}

#[test]
fn stored_configurations_name_ports() {
    let p = read_config_ports("{\"listen_port\": 5000, \"bind_port\": 6000}");
    assert_eq!(p, ConfigPorts { listen_port: Some(5000), bind_port: Some(6000) });
    let p = read_config_ports("{\"listen_port\": \"5000\", \"bind_port\": -1}");
    assert_eq!(p, ConfigPorts { listen_port: None, bind_port: None });
    let none = ConfigPorts { listen_port: None, bind_port: None };
    assert_eq!(read_config_ports("{\"config\": {\"bind_port\": 6000}}"), none);
    assert_eq!(read_config_ports("not json"), none);
    assert_eq!(read_config_ports("[1]"), none);
}

#[test]
fn ports_in_use_are_collected() {
    let configs = vec![
        "{\"listen_port\": 5000}".to_string(),
        "{\"bind_port\": 6000}".to_string(),
        "broken".to_string(),
    ];
    let used = ports_in_database(&vec![Some(7000), None], &configs);
    assert_eq!(used, set(&[5000, 6000, 7000]));
    let big = vec![ConfigPorts { listen_port: Some(65536 + 80), bind_port: None }];
    assert_eq!(used_ports(&vec![Some(-1)], &big), set(&[80, 65535]));
}

#[test]
fn first_free_port_is_found() {
    let config = Config { auto_port_range_start: 100, auto_port_range_end: 104 };
    assert_eq!(find_available_port(&config, &set(&[]), &set(&[])), Ok(100));
    assert_eq!(find_available_port(&config, &set(&[100, 102]), &set(&[101])), Ok(103));
    assert_eq!(
        find_available_port(&config, &set(&[100, 102]), &set(&[101, 103])).unwrap_err(),
        "No available ports in range 100..104"
    );
    let empty = Config { auto_port_range_start: 9, auto_port_range_end: 9 };
    assert!(find_available_port(&empty, &set(&[]), &set(&[])).is_err());
}

#[test]
fn port_search_ends() {
    let config = Config { auto_port_range_start: 100, auto_port_range_end: 104 };
    let mut refused = set(&[]);
    while let Ok(port) = find_available_port(&config, &set(&[102]), &refused) {
        assert!(refused.insert(port));
    }
    assert_eq!(refused, set(&[100, 101, 103]));
}

#[test]
fn conflicts_are_asked_for() {
    assert_eq!(conflict_questions(&None), [None]);
    assert_eq!(conflict_questions(&Some(vec![])), [None]);
    assert_eq!(conflict_questions(&Some(vec![4, 5])), [Some(4), Some(5)]);
}

#[test]
fn ports_of_inputs_conflict() {
    let input = |id: i64, port: u16| InputPort {
        id,
        config: Some(CreateInputRequest::Udp {
            bind_host: None,
            bind_port: Some(port),
            automatic_port: None,
            name: None,
            multicast_group: None,
            source_specific_multicast: None,
            listen_port: None,
        }),
    };
    let inputs = vec![InputPort { id: 1, config: None }, input(2, 5000), input(3, 0)];
    assert!(check_input_port_conflict(&inputs, 5000, None, false));
    assert!(!check_input_port_conflict(&inputs, 5000, Some(2), false));
    assert!(!check_input_port_conflict(&inputs, 0, None, false));
    assert!(!check_input_port_conflict(&inputs, 5001, None, false));
    assert!(check_input_port_conflict(&inputs, 5001, None, true));
}

// ---------------------------------------------------------------- reports

#[test]
fn reports_are_converted() {
    let stream = |pid: u16, codec: Option<CodecInfo>| InspectedStream { stream_type: 27, pid, codec };
    let fps_bits = (25.0f64).to_bits();
    let video = CodecInfo::Video { codec: "H264".to_string(), width: 1920, height: 1080, fps_bits };
    let audio = CodecInfo::Audio { codec: "AAC".to_string(), sample_rate: Some(48000), channels: Some(2) };
    let subtitle = CodecInfo::Subtitle { codec: "DVB".to_string() };
    let report = InspectorReport {
        programs: vec![InspectedProgram {
            program_number: 1,
            streams: vec![
                stream(256, Some(video)),
                stream(257, Some(audio)),
                stream(258, Some(subtitle)),
                stream(259, None),
            ],
        }],
        tr101_metrics: InspectedErrors {
            sync_byte_errors: 1,
            continuity_counter_errors: 2,
            pat_crc_errors: 3,
            pmt_crc_errors: 4,
            cat_crc_errors: 5,
            pid_errors: 6,
            transport_error_indicator: 7,
            pcr_repetition_errors: 8,
            pcr_accuracy_errors: 9,
            pts_errors: 10,
        },
    };
    let r = convert_inspector_report(&report, 0);
    assert_eq!(r.timestamp, "1970-01-01T00:00:00+00:00");
    assert_eq!((r.programs.len(), r.programs[0].program_number), (1, 1));
    let s = &r.programs[0].streams;
    assert_eq!((s.len(), s[0].pid, s[0].stream_type), (4, 256, 27));
    assert!(matches!(&s[0].codec, Some(CodecData::Video { codec, width: 1920, height: 1080, fps_bits: b })
        if codec == "H264" && *b == fps_bits));
    assert!(matches!(&s[1].codec, Some(CodecData::Audio { sample_rate: Some(48000), channels: Some(2), .. })));
    assert!(matches!(&s[2].codec, Some(CodecData::Subtitle { codec }) if codec == "DVB"));
    assert!(s[3].codec.is_none());
    let m = r.tr101_metrics.unwrap();
    assert_eq!((m.sync_byte_errors, m.continuity_counter_errors, m.crc_errors), (1, 2, 7));
    assert_eq!((m.pid_errors, m.transport_errors, m.pts_errors), (6, 7, 10));
    assert_eq!((m.pat_errors, m.pmt_errors, m.cat_errors, m.pcr_discontinuity_errors), (3, 4, 5, 0));
    assert_eq!((m.pcr_repetition_errors, m.pcr_accuracy_errors), (8, 9));
}
