use stream_gateway::interfaces::InterfaceInfo;
use stream_gateway::metrics::{
    decrement_active_inputs, decrement_active_outputs, duration_buckets, increment_active_inputs,
    increment_active_outputs, record_connection_duration_event, record_connection_event,
    record_input_bytes, record_input_packets, record_output_bytes, record_output_packets,
    record_srt_stats, record_stream_error, update_active_connections, Metric, MetricChange,
    MetricKind, MetricUpdate, SrtStats,
};
use stream_gateway::naming::{
    generate_input_name, get_name_from_request, multicast_config_for, name_input, name_output,
    name_spts_input, name_srt_output, name_udp_output, new_destination_of, output_kind_of,
    shown_destination_of, specific_host_of, srt_destination_of, udp_destination_of,
};
use stream_gateway::port_rules::{should_use_auto_port_input, should_use_auto_port_output};
use stream_gateway::requests::{
    deserialize_optional_string, input_kind_string, input_type_display_string, CreateInputRequest,
    CreateOutputRequest, SrtInputConfig, SrtOutputConfig,
};
use stream_gateway::srt_config::{BufferSizes, FecConfig, SrtCommonConfig};
use stream_gateway::validation::{
    validate_input_on, validate_output_on, validate_srt_config, validate_srt_output_config,
    validate_udp_input_config, validate_udp_output_config, Interfaces,
};

fn text(s: &str) -> Option<String> {
    Some(s.to_string())
}

fn udp_in(bind_host: Option<String>, bind_port: Option<u16>, listen_port: Option<u16>) -> CreateInputRequest {
    CreateInputRequest::Udp {
        bind_host,
        bind_port,
        automatic_port: None,
        name: None,
        multicast_group: None,
        source_specific_multicast: None,
        listen_port,
    }
}

fn group_in(group: Option<String>, source: Option<String>) -> CreateInputRequest {
    CreateInputRequest::Udp {
        bind_host: None,
        bind_port: Some(5000),
        automatic_port: None,
        name: None,
        multicast_group: group,
        source_specific_multicast: source,
        listen_port: None,
    }
}

fn srt_listener(bind_host: Option<String>, bind_port: Option<u16>) -> SrtInputConfig {
    SrtInputConfig::Listener {
        bind_host,
        bind_port,
        automatic_port: None,
        common: SrtCommonConfig::default(),
        listen_port: None,
    }
}

fn srt_caller(remote_host: Option<String>, remote_port: Option<u16>, target_addr: Option<String>) -> SrtInputConfig {
    SrtInputConfig::Caller {
        remote_host,
        remote_port,
        common: SrtCommonConfig::default(),
        bind_host: text("10.0.0.1"),
        target_addr,
    }
}

fn srt_in(name: Option<String>, config: SrtInputConfig) -> CreateInputRequest {
    CreateInputRequest::Srt { name, config }
}

fn spts_in(name: Option<String>) -> CreateInputRequest {
    CreateInputRequest::Spts { source_input_id: 4, program_number: 101, fill_with_nulls: None, name }
}

fn udp_out(remote_host: Option<String>, remote_port: Option<u16>, destination_addr: Option<String>) -> CreateOutputRequest {
    CreateOutputRequest::Udp {
        input_id: 1,
        remote_host,
        remote_port,
        automatic_port: None,
        name: None,
        bind_host: None,
        multicast_ttl: None,
        multicast_interface: None,
        destination_addr,
    }
}

fn out_listener(bind_port: Option<u16>) -> SrtOutputConfig {
    SrtOutputConfig::Listener {
        bind_host: None,
        bind_port,
        automatic_port: None,
        common: SrtCommonConfig::default(),
        listen_port: None,
    }
}

fn legacy_out_listener(listen_port: Option<u16>) -> SrtOutputConfig {
    SrtOutputConfig::Listener {
        bind_host: None,
        bind_port: None,
        automatic_port: None,
        common: SrtCommonConfig { latency_ms: Some(120), ..SrtCommonConfig::default() },
        listen_port,
    }
}

fn out_caller(remote_host: Option<String>, remote_port: Option<u16>, destination_addr: Option<String>) -> SrtOutputConfig {
    SrtOutputConfig::Caller {
        remote_host,
        remote_port,
        common: SrtCommonConfig::default(),
        bind_host: None,
        destination_addr,
    }
}

fn srt_out(name: Option<String>, config: SrtOutputConfig) -> CreateOutputRequest {
    CreateOutputRequest::Srt { input_id: 1, name, config }
}

fn machine() -> Interfaces {
    Ok(vec![InterfaceInfo {
        name: "eth0".to_string(),
        ip: "10.0.0.1".to_string(),
        is_loopback: false,
        is_up: true,
        interface_type: "ethernet".to_string(),
    }])
}

// ---------------------------------------------------------------- ports and hosts

#[test]
fn input_ports_left_open() {
    assert!(should_use_auto_port_input(None, None));
    assert!(should_use_auto_port_input(Some(0), Some(5000)));
    assert!(should_use_auto_port_input(None, Some(0)));
    assert!(!should_use_auto_port_input(Some(5000), Some(0)));
    assert!(!should_use_auto_port_input(None, Some(5000)));
}

#[test]
fn output_ports_left_open() {
    let auto = "auto".to_string();
    let zero = "host:0".to_string();
    let fixed = "host:80".to_string();
    assert!(should_use_auto_port_output(Some(80), Some(90), Some(&auto)));
    assert!(should_use_auto_port_output(Some(80), None, Some(&zero)));
    assert!(should_use_auto_port_output(None, None, Some(&fixed)));
    assert!(should_use_auto_port_output(Some(0), Some(90), None));
    assert!(should_use_auto_port_output(Some(80), Some(0), None));
    assert!(should_use_auto_port_output(None, None, None));
    assert!(!should_use_auto_port_output(Some(80), None, Some(&fixed)));
    assert!(!should_use_auto_port_output(None, Some(90), None));
}

#[test]
fn input_getters_prefer_newer_fields() {
    let req = udp_in(None, None, Some(7000));
    assert_eq!(req.get_bind_port(), 7000);
    assert_eq!(req.get_bind_host(), "0.0.0.0");
    assert!(!req.is_automatic_port());
    assert_eq!(req.extract_assigned_port(), Some(7000));
    let req = udp_in(text("10.0.0.1"), Some(0), None);
    assert_eq!(req.get_bind_host(), "10.0.0.1");
    assert!(req.is_automatic_port());
    assert_eq!(req.extract_assigned_port(), None);

    let c = srt_caller(None, None, text("far:9000"));
    assert_eq!(c.get_remote_host().as_deref(), Some("far"));
    assert_eq!(c.get_remote_port(), Some(9000));
    assert_eq!(c.get_caller_bind_host().as_deref(), Some("10.0.0.1"));
    assert!(!c.is_automatic_port());
    let c = srt_caller(text(""), Some(0), text("far:9000"));
    assert_eq!((c.get_remote_host(), c.get_remote_port()), (None, None));
    let c = srt_listener(None, Some(6000));
    assert_eq!((c.get_bind_port(), c.get_bind_host().as_str()), (6000, "0.0.0.0"));
    assert_eq!(c.extract_assigned_port(), Some(6000));
}

#[test]
fn output_getters_prefer_newer_fields() {
    let req = udp_out(text("near"), Some(81), text("far:9000"));
    assert_eq!((req.get_remote_host().as_deref(), req.get_remote_port()), (Some("near"), Some(81)));
    let req = udp_out(None, None, text("far:9000"));
    assert_eq!((req.get_remote_host().as_deref(), req.get_remote_port()), (Some("far"), Some(9000)));
    assert!(!req.is_automatic_port());
    let c = out_listener(Some(6000));
    assert_eq!((c.get_bind_port(), c.extract_assigned_port()), (Some(6000), Some(6000)));
    assert!(out_listener(None).is_automatic_port());
    assert_eq!(out_listener(Some(0)).extract_assigned_port(), None);
}

#[test]
fn named_output_ports_are_kept() {
    assert!(!udp_out(None, None, text("127.0.0.1:8001")).is_automatic_port());
    assert!(!udp_out(text("far"), Some(9000), None).is_automatic_port());
    assert!(!udp_out(None, Some(9000), text("far")).is_automatic_port());
    for open in ["auto", "far:0", "far", ""] {
        assert!(udp_out(None, None, text(open)).is_automatic_port(), "{open}");
    }
    assert!(udp_out(None, Some(0), text("far:9000")).is_automatic_port());
    assert!(udp_out(text("far"), None, None).is_automatic_port());
    assert!(!legacy_out_listener(Some(8000)).is_automatic_port());
    assert_eq!(legacy_out_listener(Some(8000)).extract_assigned_port(), Some(8000));
    assert!(legacy_out_listener(Some(0)).is_automatic_port());
    assert!(!out_listener(Some(6000)).is_automatic_port());
    assert!(out_listener(Some(0)).is_automatic_port());
}

#[test]
fn optional_texts_of_changes() {
    assert_eq!(deserialize_optional_string(None), None);
    assert_eq!(deserialize_optional_string(text("")), Some(None));
    assert_eq!(deserialize_optional_string(text("x")), Some(text("x")));
}

// ---------------------------------------------------------------- names and destinations

#[test]
fn inputs_are_named() {
    let name = |r: CreateInputRequest| name_input(&r).unwrap();
    assert_eq!(name(udp_in(None, Some(5000), None)), "UDP Listener 5000");
    assert_eq!(name(udp_in(None, None, None)), "UDP Listener 0");
    assert_eq!(name(srt_in(None, srt_listener(None, Some(6000)))), "SRT Listener 6000");
    assert_eq!(name(srt_in(None, srt_caller(text("far"), Some(9000), None))), "SRT Caller far:9000");
    assert_eq!(name(srt_in(None, srt_caller(None, None, None))), "SRT Caller unknown:0");
    assert_eq!(name(spts_in(None)), "SPTS Program 101 from Input 4");
    assert_eq!(name_spts_input(7, -1), "SPTS Program 7 from Input -1");
}

#[test]
fn given_names_are_kept() {
    let req = srt_in(text("mine"), srt_listener(None, Some(6000)));
    assert_eq!(name_input(&req).as_deref(), Some("mine"));
    assert_eq!(get_name_from_request(&req).as_deref(), Some("mine"));
    assert_eq!(generate_input_name(&req).as_deref(), Some("SRT Listener 6000"));
    assert_eq!(get_name_from_request(&spts_in(None)), None);
    let out = srt_out(text("theirs"), out_listener(Some(1)));
    assert_eq!(name_output(&out), "theirs");
    assert_eq!(name_udp_output(&text("n"), "d"), "n");
}

#[test]
fn outputs_are_named() {
    assert_eq!(name_output(&udp_out(text("h"), Some(81), None)), "UDP Output to h:81");
    assert_eq!(name_udp_output(&None, "h:81"), "UDP Output to h:81");
    assert_eq!(name_srt_output(&None, &out_caller(text("h"), Some(82), None)), "SRT Caller to h:82");
    assert_eq!(name_srt_output(&None, &out_listener(Some(83))), "SRT Listener on 83");
    assert_eq!(name_output(&srt_out(None, out_listener(None))), "SRT Listener on 0");
}

#[test]
fn destinations_are_shown() {
    assert_eq!(udp_destination_of(&udp_out(None, None, None)), "127.0.0.1:8000");
    assert_eq!(srt_destination_of(&out_caller(None, None, None)), "unknown:0");
    assert_eq!(srt_destination_of(&out_listener(Some(83))), ":83");
    assert_eq!(shown_destination_of(&srt_out(None, out_listener(None))), ":0");
    let (d, p) = new_destination_of(&srt_out(None, out_listener(None)));
    assert_eq!((d.as_str(), p), (":8000", Some(8000)));
    let (d, p) = new_destination_of(&srt_out(None, out_caller(None, None, None)));
    assert_eq!((d.as_str(), p), ("127.0.0.1:8000", None));
    let (d, p) = new_destination_of(&udp_out(text("h"), Some(81), None));
    assert_eq!((d.as_str(), p), ("h:81", None));
}

#[test]
fn older_destinations_are_equivalent() {
    let newer = udp_out(text("far"), Some(9000), None);
    let older = udp_out(None, None, text("far:9000"));
    assert_eq!(udp_destination_of(&newer), udp_destination_of(&older));
    assert_eq!(udp_destination_of(&older), "far:9000");
}

#[test]
fn kinds_are_named() {
    assert_eq!(input_kind_string(&udp_in(None, None, None)), "udp");
    assert_eq!(input_kind_string(&srt_in(None, srt_listener(None, None))), "srt_listener");
    assert_eq!(input_kind_string(&srt_in(None, srt_caller(None, None, None))), "srt_caller");
    assert_eq!(input_kind_string(&spts_in(None)), "spts");
    assert_eq!(output_kind_of(&udp_out(None, None, None)), "udp");
    assert_eq!(output_kind_of(&srt_out(None, out_listener(None))), "srt_listener");
    assert_eq!(output_kind_of(&srt_out(None, out_caller(None, None, None))), "srt_caller");
    assert_eq!(input_type_display_string("udp"), "UDP Listener");
    assert_eq!(input_type_display_string("srt_listener"), "SRT Listener");
    assert_eq!(input_type_display_string("srt_caller"), "SRT Caller");
    assert_eq!(input_type_display_string("spts"), "SPTS Filter");
    assert_eq!(input_type_display_string("other"), "Unknown");
}

#[test]
fn multicast_settings_follow_the_host() {
    let m = multicast_config_for(&text("239.0.0.1"), None, &text("10.0.0.1")).unwrap();
    assert_eq!((m.ttl, m.interface.as_deref()), (1, Some("10.0.0.1")));
    let m = multicast_config_for(&text("239.0.0.1"), Some(9), &None).unwrap();
    assert_eq!((m.ttl, m.interface), (9, None));
    assert!(multicast_config_for(&text("10.0.0.1"), Some(9), &None).is_none());
    assert!(multicast_config_for(&None, Some(9), &None).is_none());
    assert_eq!(specific_host_of("0.0.0.0".to_string()), None);
    assert_eq!(specific_host_of("::".to_string()).as_deref(), Some("::"));
}

// ---------------------------------------------------------------- SRT settings

#[test]
fn buffers_follow_bitrate_and_latency() {
    let b = SrtCommonConfig::calculate_buffer_sizes(5000, 120);
    let expected =
        BufferSizes { rcv_buf: 93750, snd_buf: 93750, fc: 71, udp_rcv_buf: 187500, udp_snd_buf: 187500 };
    assert_eq!(b, expected);
    assert_eq!(SrtCommonConfig::calculate_buffer_sizes(0, 120).fc, 0);
    assert_eq!(SrtCommonConfig::calculate_buffer_sizes(100, 72).rcv_buf, 1125);
    assert_eq!(SrtCommonConfig::calculate_buffer_sizes(5000, -120).rcv_buf, -93750);
}

#[test]
fn buffers_grow_with_latency() {
    let mut last = 0;
    for ms in [0, 20, 120, 121, 500, 2000] {
        let b = SrtCommonConfig::calculate_buffer_sizes(8000, ms);
        assert!(b.rcv_buf >= last && b.udp_rcv_buf == 2 * b.rcv_buf);
        last = b.rcv_buf;
    }
}

#[test]
fn oversized_buffers_are_told() {
    let mut c = SrtCommonConfig::default();
    assert!(c.buffer_sizes_fit());
    c.latency_ms = Some(i32::MAX);
    assert!(c.buffer_sizes_fit());
    c.expected_bitrate_kbps = Some(u32::MAX);
    assert!(!c.buffer_sizes_fit());
    c.latency_ms = Some(i32::MIN);
    assert!(!c.buffer_sizes_fit());
    c.latency_ms = Some(1);
    assert!(c.buffer_sizes_fit());
}

#[test]
fn sockets_are_set_up() {
    let c = SrtCommonConfig {
        latency_ms: Some(120),
        stream_id: text("id"),
        passphrase: text("SECRET"),
        expected_bitrate_kbps: Some(5000),
        fec: Some(FecConfig { cols: 10, rows: 5, arq_level: Some(1), staircase: true }),
    };
    let s = c.builder();
    assert_eq!((s.peer_latency, s.receive_latency, s.live), (Some(120), None, true));
    assert!(s.buffers.is_none() && s.fec.is_none());
    assert_eq!(s.stream_id.as_deref(), Some("id"));
    let s = c.async_builder();
    assert_eq!((s.peer_latency, s.receive_latency, s.live), (Some(120), Some(120), true));
    assert_eq!(s.buffers.unwrap().fc, 71);
    let fec = s.fec.unwrap();
    assert_eq!((fec.cols, fec.rows, fec.arq_level, fec.staircase), (10, 5, Some(1), true));
    assert_eq!(s.passphrase.as_deref(), Some("SECRET"));
    assert!(SrtCommonConfig::default().async_builder().buffers.is_none());
}

// ---------------------------------------------------------------- checks of requests

#[test]
fn plain_inputs_are_accepted() {
    assert!(validate_input_on(&udp_in(None, Some(5000), None), &Err("down".to_string())).is_ok());
    assert!(validate_input_on(&udp_in(text("0.0.0.0"), None, None), &Err("down".to_string())).is_ok());
    assert!(validate_input_on(&spts_in(None), &machine()).is_ok());
    assert!(validate_srt_config(&srt_in(None, srt_listener(text(""), None)), &machine()).is_ok());
    assert!(validate_srt_config(&srt_in(None, srt_caller(None, None, None)), &machine()).is_ok());
}

#[test]
fn inputs_with_bad_hosts_are_refused() {
    let bad = udp_in(text("10.0.0.9"), Some(5000), None);
    let message = "Bind address '10.0.0.9' not found in system interfaces. Use GET /interfaces to see available addresses.";
    assert_eq!(validate_udp_input_config(&bad, &machine()).unwrap_err(), message);
    assert_eq!(validate_input_on(&bad, &machine()).unwrap_err(), message);
    let bad = srt_in(None, srt_listener(text("x"), Some(6000)));
    assert_eq!(
        validate_srt_config(&bad, &machine()).unwrap_err(),
        "Invalid bind IP address format: 'x'"
    );
    assert!(validate_udp_input_config(&bad, &machine()).is_ok());
    assert!(validate_input_on(&bad, &machine()).is_err());
}

#[test]
fn groups_and_sources_are_consistent() {
    let check = |g: Option<String>, s: Option<String>| validate_udp_input_config(&group_in(g, s), &machine());
    assert!(check(text("239.0.0.1"), text("10.1.1.1")).is_ok());
    assert!(check(text(""), text("")).is_ok());
    assert!(check(text("10.0.0.1"), None).is_err());
    assert_eq!(
        check(None, text("10.1.1.1")).unwrap_err(),
        "Source-specific multicast requires a multicast group to be specified"
    );
    assert_eq!(
        check(text("239.0.0.1"), text("src")).unwrap_err(),
        "Invalid source IP address format: 'src'"
    );
}

#[test]
fn outputs_are_checked() {
    let out = |bind: Option<String>, ttl: Option<u8>, interface: Option<String>| CreateOutputRequest::Udp {
        input_id: 1,
        remote_host: text("239.0.0.1"),
        remote_port: Some(5000),
        automatic_port: None,
        name: None,
        bind_host: bind,
        multicast_ttl: ttl,
        multicast_interface: interface,
        destination_addr: None,
    };
    let check = |r: CreateOutputRequest| validate_udp_output_config(&r, &machine());
    assert!(check(out(None, Some(255), text("10.0.0.1"))).is_ok());
    assert_eq!(check(out(None, Some(0), None)).unwrap_err(), "Multicast TTL must be between 1 and 255");
    assert!(check(out(None, Some(0), text("x"))).unwrap_err().starts_with("Invalid bind IP"));
    assert!(check(out(text("y"), None, None)).unwrap_err().ends_with("'y'"));
    let listener = srt_out(None, SrtOutputConfig::Listener {
        bind_host: text("z"),
        bind_port: None,
        automatic_port: None,
        common: SrtCommonConfig::default(),
        listen_port: None,
    });
    assert_eq!(
        validate_srt_output_config(&listener, &machine()).unwrap_err(),
        "Invalid bind IP address format: 'z'"
    );
    assert!(validate_output_on(&listener, &machine()).is_err());
    assert!(validate_output_on(&srt_out(None, out_caller(None, None, None)), &machine()).is_ok());
}

// ---------------------------------------------------------------- metrics

fn shown(u: MetricUpdate) -> (Metric, Vec<String>, MetricChange) {
    assert_eq!(u.labels.len(), u.metric.label_names().len());
    (u.metric, u.labels, u.change)
}

#[test]
fn metrics_are_described() {
    assert_eq!(Metric::ActiveInputs.name(), "stream_gateway_active_inputs_total");
    assert_eq!(Metric::StreamErrors.help(), "Total number of stream errors");
    assert_eq!(Metric::StreamErrors.kind(), MetricKind::Counter);
    assert_eq!(Metric::ConnectionDurations.kind(), MetricKind::Histogram);
    assert_eq!(Metric::SrtRttMs.kind(), MetricKind::Gauge);
    assert_eq!(Metric::SrtRttMs.label_names(), ["stream_name", "stream_id", "stream_type", "direction"]);
    assert!(Metric::ActiveOutputs.label_names().is_empty());
    assert_eq!(duration_buckets(), [1, 10, 60, 300, 1800, 3600, 21600, 86400]);
}

#[test]
fn gauges_of_streams() {
    assert_eq!(shown(increment_active_inputs()), (Metric::ActiveInputs, vec![], MetricChange::Increment));
    assert_eq!(shown(decrement_active_inputs()), (Metric::ActiveInputs, vec![], MetricChange::Decrement));
    assert_eq!(shown(increment_active_outputs()), (Metric::ActiveOutputs, vec![], MetricChange::Increment));
    assert_eq!(shown(decrement_active_outputs()), (Metric::ActiveOutputs, vec![], MetricChange::Decrement));
}

#[test]
fn traffic_is_counted() {
    let labels = |l: &[&str]| -> Vec<String> { l.iter().map(|s| s.to_string()).collect() };
    let name = text("A b");
    assert_eq!(
        shown(record_input_bytes(&name, 3, "udp", 188)),
        (Metric::InputBytesReceived, labels(&["A_b", "3", "udp"]), MetricChange::IncrementBy(188))
    );
    assert_eq!(
        shown(record_input_packets(&None, 3, "udp", 1)),
        (Metric::InputPacketsReceived, labels(&["stream_3", "3", "udp"]), MetricChange::IncrementBy(1))
    );
    assert_eq!(
        shown(record_output_bytes(&name, 3, 4, "udp", 188)),
        (Metric::OutputBytesSent, labels(&["A_b", "3", "4", "udp"]), MetricChange::IncrementBy(188))
    );
    assert_eq!(
        shown(record_output_packets(&None, 3, 4, "srt_caller", 2)),
        (Metric::OutputPacketsSent, labels(&["stream_4", "3", "4", "srt_caller"]), MetricChange::IncrementBy(2))
    );
    assert_eq!(
        shown(record_stream_error(&name, 3, "udp", "send_error")),
        (Metric::StreamErrors, labels(&["A_b", "3", "udp", "send_error"]), MetricChange::Increment)
    );
}

#[test]
fn connections_are_counted() {
    let labels = |l: &[&str]| -> Vec<String> { l.iter().map(|s| s.to_string()).collect() };
    let name = text("A");
    assert_eq!(
        shown(record_connection_event(&name, 3, "udp", "input", "connected", &None)),
        (
            Metric::ConnectionEventsTotal,
            labels(&["A", "3", "udp", "input", "connected", "unknown"]),
            MetricChange::Increment
        )
    );
    assert_eq!(
        shown(update_active_connections(&name, 3, "udp", "output", true)),
        (Metric::ActiveConnections, labels(&["A", "udp", "output"]), MetricChange::Increment)
    );
    assert_eq!(
        shown(update_active_connections(&name, 3, "udp", "output", false)).2,
        MetricChange::Decrement
    );
    assert_eq!(
        shown(record_connection_duration_event(&name, 3, "udp", "input", 5)),
        (Metric::ConnectionDurations, labels(&["A", "udp", "input"]), MetricChange::Observe(5))
    );
}

#[test]
fn srt_statistics_set_every_metric() {
    let stats = SrtStats {
        pkt_sent_total: 1,
        pkt_recv_total: 2,
        byte_sent_total: 3,
        byte_recv_total: u64::MAX,
        pkt_snd_loss_total: 5,
        pkt_rcv_loss_total: 6,
        pkt_retrans_total: 7,
        pkt_snd_drop_total: 8,
        pkt_rcv_drop_total: 9,
        byte_rcv_loss_total: 10,
        byte_snd_drop_total: 11,
        byte_rcv_drop_total: 12,
        mbps_send_rate_bits: (1.5f64).to_bits(),
        mbps_recv_rate_bits: 0,
        ms_rtt_bits: 0,
        mbps_bandwidth_bits: 0,
        pkt_flight_size: -1,
        pkt_snd_buf: 18,
        byte_snd_buf: 19,
        ms_snd_buf: 20,
        pkt_rcv_buf: 21,
        byte_rcv_buf: 22,
        ms_rcv_buf: 23,
        byte_avail_snd_buf: 24,
        byte_avail_rcv_buf: 25,
    };
    let updates = record_srt_stats(&text("A"), 3, "srt_caller", "output", &stats);
    assert_eq!(updates.len(), 25);
    assert_eq!(updates[0].metric, Metric::SrtPacketsSentTotal);
    assert_eq!(updates[0].change, MetricChange::SetTo(1));
    assert_eq!(updates[3].change, MetricChange::SetTo(u64::MAX as i128));
    assert_eq!(updates[12].metric, Metric::SrtSendRateMbps);
    assert_eq!(updates[12].change, MetricChange::SetBits((1.5f64).to_bits()));
    assert_eq!(updates[16].change, MetricChange::SetTo(-1));
    assert_eq!(updates[24].metric, Metric::SrtReceiveBufferAvailableBytes);
    assert_eq!(updates[24].change, MetricChange::SetTo(25));
    for u in updates {
        assert_eq!(u.labels, ["A", "3", "srt_caller", "output"]);
    }
}
