use stream_gateway::clock::{calculate_connection_uptime, calculate_uptime_seconds, elapsed_nanos, time_to_text};
use stream_gateway::config::Config;
use stream_gateway::metrics::normalize_stream_name;
use stream_gateway::status::{output_kind_string, AnalysisType, OutputKind, StreamStatus};
use stream_gateway::text::{
    address_of, chars_of, decimal_text, host_of, join2, join3, join4, join5, parse_port, port_of,
    signed_decimal_text, text_before, text_eq, text_of, trim_underscores, trim_white_space,
};

const ALL: [StreamStatus; 6] = [
    StreamStatus::Stopped,
    StreamStatus::Listening,
    StreamStatus::Connecting,
    StreamStatus::Connected,
    StreamStatus::Reconnecting,
    StreamStatus::Error,
];

#[test]
fn status_words_round_trip() {
    let words = ["stopped", "listening", "connecting", "connected", "reconnecting", "error"];
    for (s, w) in ALL.iter().zip(words) {
        assert_eq!(s.to_string(), w);
        assert_eq!(StreamStatus::from_str(w), Ok(*s));
        assert_eq!(StreamStatus::from_str(&w.to_uppercase()), Ok(*s));
        assert_eq!(w.parse::<StreamStatus>(), Ok(*s));
    }
}

#[test]
fn running_is_an_older_word_for_connected() {
    assert_eq!(StreamStatus::from_str("Running"), Ok(StreamStatus::Connected));
}

#[test]
fn unknown_status_is_named() {
    let e = StreamStatus::from_str("Paused").unwrap_err();
    assert_eq!(e, "Invalid stream status: Paused");
    assert!(StreamStatus::from_str("").is_err());
    // A letter outside ASCII whose lower case form is an ASCII letter.
    assert!("\u{212A}".to_lowercase() == "k");
    assert!(StreamStatus::from_str("stop\u{212A}ed").is_err());
}

#[test]
fn connected_and_active_states() {
    let connected: Vec<bool> = ALL.iter().map(|s| s.is_connected()).collect();
    assert_eq!(connected, [false, false, false, true, false, false]);
    let active: Vec<bool> = ALL.iter().map(|s| s.is_active()).collect();
    assert_eq!(active, [false, true, true, true, true, false]);
}

#[test]
fn analysis_words_round_trip() {
    assert_eq!(AnalysisType::Mux.to_string(), "mux");
    assert_eq!(AnalysisType::Tr101.to_string(), "tr101");
    assert_eq!(AnalysisType::from_str("MUX"), Ok(AnalysisType::Mux));
    assert_eq!("Tr101".parse::<AnalysisType>(), Ok(AnalysisType::Tr101));
    assert_eq!(AnalysisType::from_str("etr").unwrap_err(), "Invalid analysis type: etr");
}

#[test]
fn output_kinds_have_two_names() {
    assert_eq!(OutputKind::Udp.to_string(), "UDP");
    assert_eq!(OutputKind::SrtCaller.to_string(), "SRT Caller");
    assert_eq!(OutputKind::SrtListener.to_string(), "SRT Listener");
    assert_eq!(output_kind_string(&OutputKind::Udp), "udp");
    assert_eq!(output_kind_string(&OutputKind::SrtCaller), "srt_caller");
    assert_eq!(output_kind_string(&OutputKind::SrtListener), "srt_listener");
}

#[test]
fn numbers_in_text() {
    for n in [0u64, 7, 10, 99, 65535, u64::MAX] {
        assert_eq!(decimal_text(n), n.to_string());
    }
    for n in [0i64, -1, 42, i64::MIN, i64::MAX] {
        assert_eq!(signed_decimal_text(n), n.to_string());
    }
}

#[test]
fn ports_in_text() {
    for p in [0u16, 1, 80, 8000, 65535] {
        assert_eq!(parse_port(&p.to_string()), Some(p));
    }
    let texts = ["", "+", "-1", "65536", "8000 ", "+80", "00080", "8a", "99999999999999999999"];
    for t in texts {
        assert_eq!(parse_port(t), t.parse::<u16>().ok(), "{t}");
    }
}

#[test]
fn addresses_in_text() {
    assert_eq!(address_of("10.0.0.1", 5000), "10.0.0.1:5000");
    assert_eq!(host_of("10.0.0.1:5000"), "10.0.0.1");
    assert_eq!(port_of("10.0.0.1:5000"), Some(5000));
    assert_eq!(host_of("host"), "host");
    assert_eq!(port_of("host"), None);
    assert_eq!(host_of(":9000"), "");
    assert_eq!(port_of(":9000"), Some(9000));
    assert_eq!(port_of("a:1:2"), Some(1));
    assert_eq!(port_of("a:"), None);
    assert_eq!(port_of("a:70000"), None);
    assert_eq!(host_of(""), "");
}

#[test]
fn texts_are_joined_compared_and_cut() {
    assert_eq!(join2("a", "b"), "ab");
    assert_eq!(join3("a", "b", "c"), "abc");
    assert_eq!(join4("a", "b", "c", "d"), "abcd");
    assert_eq!(join5("a", "b", "c", "d", "e"), "abcde");
    assert!(text_eq("x", "x") && !text_eq("x", "xy"));
    assert!(text_before("::", "::1") && text_before("0.0.0.0", "::"));
    assert!(!text_before("b", "ab") && !text_before("a", "a"));
    assert_eq!(chars_of("añ"), vec!['a', 'ñ']);
    assert_eq!(text_of(&vec!['a', 'ñ']), "añ");
    assert_eq!(text_of(&trim_white_space(&chars_of(" \t a b \u{3000}"))), "a b");
    assert_eq!(text_of(&trim_underscores(&chars_of("__a_b_"))), "a_b");
    assert!(trim_underscores(&chars_of("___")).is_empty());
}

#[test]
fn stream_names_become_labels() {
    let label = |n: &str| normalize_stream_name(&Some(n.to_string()), 5);
    assert_eq!(label("TV mas principal"), "TV_mas_principal");
    assert_eq!(label("  a-b  "), "a_b");
    assert_eq!(label("_x_"), "x");
    assert_eq!(label("Canal ñ (HD)"), "Canal_ñ__HD");
    assert_eq!(label("   "), "stream_5");
    assert_eq!(label(""), "stream_5");
    assert_eq!(label("!!"), "");
    assert_eq!(label("\u{00a0}x\u{00a0}"), "x");
    assert_eq!(normalize_stream_name(&None, -3), "stream_-3");
}

#[test]
fn labels_are_clean() {
    for n in ["a b", "--a--", "x/y:z", "é_è", "UDP Listener 5000"] {
        let l = normalize_stream_name(&Some(n.to_string()), 1);
        assert!(l.chars().all(|c| c.is_alphanumeric() || c == '_'));
        assert!(!l.starts_with('_') && !l.ends_with('_'));
    }
}

#[test]
fn labels_stay_labels() {
    for n in ["TV mas principal", "--a--", "Canal ñ (HD)", "x/y:z", "   "] {
        let l = normalize_stream_name(&Some(n.to_string()), 5);
        assert_eq!(normalize_stream_name(&Some(l.clone()), 6), l);
    }
    assert_eq!(normalize_stream_name(&Some("stream_-3".to_string()), 1), "stream__3");
    assert_eq!(normalize_stream_name(&Some(String::new()), 1), "stream_1");
}

#[test]
fn times_are_written() {
    assert_eq!(time_to_text(0), "1970-01-01T00:00:00+00:00");
    assert_eq!(time_to_text(1_700_000_000_000_000_000), "2023-11-14T22:13:20+00:00");
    assert_eq!(time_to_text(1_700_000_000_123_456_789), "2023-11-14T22:13:20.123456789+00:00");
    assert_eq!(time_to_text(-1), "unknown");
    assert_eq!(time_to_text(i128::MAX), "1970-01-01T00:00:00+00:00");
}

#[test]
fn uptime_counts_whole_seconds() {
    let second: i128 = 1_000_000_000;
    assert_eq!(calculate_uptime_seconds(Some(second), 5 * second + 999_999_999), Some(4));
    assert_eq!(calculate_uptime_seconds(Some(second), second), Some(0));
    assert_eq!(calculate_uptime_seconds(Some(second), 0), None);
    assert_eq!(calculate_uptime_seconds(None, second), None);
    for s in ALL {
        let expected = if s == StreamStatus::Connected { Some(3) } else { None };
        assert_eq!(calculate_connection_uptime(&s, Some(0), 3 * second), expected);
    }
    assert_eq!(elapsed_nanos(-5, 7), Some(12));
    assert_eq!(elapsed_nanos(7, 6), None);
    assert_eq!(elapsed_nanos(i128::MIN, i128::MAX), Some(u128::MAX));
}

#[test]
fn settings_have_defaults() {
    let c = Config::from_vars(&None, &None);
    assert_eq!((c.auto_port_range_start, c.auto_port_range_end), (10000, 11000));
    assert_eq!(c.port_range(), 10000..11000);
    let c = Config::from_vars(&Some("20000".to_string()), &Some("x".to_string()));
    assert_eq!((c.auto_port_range_start, c.auto_port_range_end), (20000, 11000));
}
