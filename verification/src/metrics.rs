//! Metrics: which ones there are, and how events of streams change them.
use vstd::prelude::*;
use crate::text::{
    chars_of, is_letter_or_number, is_white_space, join2, signed_decimal, signed_decimal_text,
    text_of, trim_underscores, trim_white_space, trimmed, without_outer_underscores,
};

verus! {

/// The metrics of the gateway.
#[derive(Debug, Clone, Copy, PartialEq, Eq, Structural)]
pub enum Metric {
    ActiveInputs,
    ActiveOutputs,
    InputBytesReceived,
    OutputBytesSent,
    InputPacketsReceived,
    OutputPacketsSent,
    StreamErrors,
    ConnectionEventsTotal,
    ActiveConnections,
    ConnectionDurations,
    SrtPacketsSentTotal,
    SrtPacketsReceivedTotal,
    SrtBytesSentTotal,
    SrtBytesReceivedTotal,
    SrtPacketsLostSentTotal,
    SrtPacketsLostReceivedTotal,
    SrtPacketsRetransmittedTotal,
    SrtPacketsDroppedSentTotal,
    SrtPacketsDroppedReceivedTotal,
    SrtBytesLostReceivedTotal,
    SrtBytesDroppedSentTotal,
    SrtBytesDroppedReceivedTotal,
    SrtSendRateMbps,
    SrtReceiveRateMbps,
    SrtRttMs,
    SrtBandwidthMbps,
    SrtFlightSizePackets,
    SrtSendBufferPackets,
    SrtSendBufferBytes,
    SrtSendBufferMs,
    SrtReceiveBufferPackets,
    SrtReceiveBufferBytes,
    SrtReceiveBufferMs,
    SrtSendBufferAvailableBytes,
    SrtReceiveBufferAvailableBytes,
}

/// How a metric counts.
#[derive(Debug, Clone, Copy, PartialEq, Eq, Structural)]
pub enum MetricKind {
    /// Only goes up.
    Counter,
    /// Goes up and down.
    Gauge,
    /// Sorts observations into buckets.
    Histogram,
}

impl Metric {
    /// The name under which a metric is scraped.
    pub open spec fn name_text(self) -> Seq<char> {
        match self {
            Metric::ActiveInputs => "stream_gateway_active_inputs_total"@,
            Metric::ActiveOutputs => "stream_gateway_active_outputs_total"@,
            Metric::InputBytesReceived => "stream_gateway_input_bytes_received_total"@,
            Metric::OutputBytesSent => "stream_gateway_output_bytes_sent_total"@,
            Metric::InputPacketsReceived => "stream_gateway_input_packets_received_total"@,
            Metric::OutputPacketsSent => "stream_gateway_output_packets_sent_total"@,
            Metric::StreamErrors => "stream_gateway_errors_total"@,
            Metric::ConnectionEventsTotal => "stream_gateway_connection_events_total"@,
            Metric::ActiveConnections => "stream_gateway_active_connections"@,
            Metric::ConnectionDurations => "stream_gateway_connection_durations_seconds"@,
            Metric::SrtPacketsSentTotal => "srt_packets_sent_total"@,
            Metric::SrtPacketsReceivedTotal => "srt_packets_received_total"@,
            Metric::SrtBytesSentTotal => "srt_bytes_sent_total"@,
            Metric::SrtBytesReceivedTotal => "srt_bytes_received_total"@,
            Metric::SrtPacketsLostSentTotal => "srt_packets_lost_sent_total"@,
            Metric::SrtPacketsLostReceivedTotal => "srt_packets_lost_received_total"@,
            Metric::SrtPacketsRetransmittedTotal => "srt_packets_retransmitted_total"@,
            Metric::SrtPacketsDroppedSentTotal => "srt_packets_dropped_sent_total"@,
            Metric::SrtPacketsDroppedReceivedTotal => "srt_packets_dropped_received_total"@,
            Metric::SrtBytesLostReceivedTotal => "srt_bytes_lost_received_total"@,
            Metric::SrtBytesDroppedSentTotal => "srt_bytes_dropped_sent_total"@,
            Metric::SrtBytesDroppedReceivedTotal => "srt_bytes_dropped_received_total"@,
            Metric::SrtSendRateMbps => "srt_send_rate_mbps"@,
            Metric::SrtReceiveRateMbps => "srt_receive_rate_mbps"@,
            Metric::SrtRttMs => "srt_rtt_ms"@,
            Metric::SrtBandwidthMbps => "srt_bandwidth_mbps"@,
            Metric::SrtFlightSizePackets => "srt_flight_size_packets"@,
            Metric::SrtSendBufferPackets => "srt_send_buffer_packets"@,
            Metric::SrtSendBufferBytes => "srt_send_buffer_bytes"@,
            Metric::SrtSendBufferMs => "srt_send_buffer_ms"@,
            Metric::SrtReceiveBufferPackets => "srt_receive_buffer_packets"@,
            Metric::SrtReceiveBufferBytes => "srt_receive_buffer_bytes"@,
            Metric::SrtReceiveBufferMs => "srt_receive_buffer_ms"@,
            Metric::SrtSendBufferAvailableBytes => "srt_send_buffer_available_bytes"@,
            Metric::SrtReceiveBufferAvailableBytes => "srt_receive_buffer_available_bytes"@,
        }
    }

    /// What a metric tells.
    pub open spec fn help_text(self) -> Seq<char> {
        match self {
            Metric::ActiveInputs => "Number of active input streams"@,
            Metric::ActiveOutputs => "Number of active output streams"@,
            Metric::InputBytesReceived => "Total bytes received by input streams"@,
            Metric::OutputBytesSent => "Total bytes sent by output streams"@,
            Metric::InputPacketsReceived => "Total packets received by input streams"@,
            Metric::OutputPacketsSent => "Total packets sent by output streams"@,
            Metric::StreamErrors => "Total number of stream errors"@,
            Metric::ConnectionEventsTotal => "Total number of stream connection events"@,
            Metric::ActiveConnections => "Number of currently active stream connections"@,
            Metric::ConnectionDurations => "Duration of stream connections in seconds"@,
            Metric::SrtPacketsSentTotal => "Total SRT packets sent (cumulative from SRT stats)"@,
            Metric::SrtPacketsReceivedTotal => "Total SRT packets received (cumulative from SRT stats)"@,
            Metric::SrtBytesSentTotal => "Total SRT bytes sent (cumulative from SRT stats)"@,
            Metric::SrtBytesReceivedTotal => "Total SRT bytes received (cumulative from SRT stats)"@,
            Metric::SrtPacketsLostSentTotal => "Total SRT packets lost during sending"@,
            Metric::SrtPacketsLostReceivedTotal => "Total SRT packets lost during receiving"@,
            Metric::SrtPacketsRetransmittedTotal => "Total SRT packets retransmitted"@,
            Metric::SrtPacketsDroppedSentTotal => "Total SRT packets dropped during sending"@,
            Metric::SrtPacketsDroppedReceivedTotal => "Total SRT packets dropped during receiving"@,
            Metric::SrtBytesLostReceivedTotal => "Total SRT bytes lost during receiving"@,
            Metric::SrtBytesDroppedSentTotal => "Total SRT bytes dropped during sending"@,
            Metric::SrtBytesDroppedReceivedTotal => "Total SRT bytes dropped during receiving"@,
            Metric::SrtSendRateMbps => "SRT sending rate in Mbps"@,
            Metric::SrtReceiveRateMbps => "SRT receiving rate in Mbps"@,
            Metric::SrtRttMs => "SRT Round Trip Time in milliseconds"@,
            Metric::SrtBandwidthMbps => "SRT estimated bandwidth in Mbps"@,
            Metric::SrtFlightSizePackets => "SRT number of packets in flight"@,
            Metric::SrtSendBufferPackets => "SRT send buffer size in packets"@,
            Metric::SrtSendBufferBytes => "SRT send buffer size in bytes"@,
            Metric::SrtSendBufferMs => "SRT send buffer size in milliseconds"@,
            Metric::SrtReceiveBufferPackets => "SRT receive buffer size in packets"@,
            Metric::SrtReceiveBufferBytes => "SRT receive buffer size in bytes"@,
            Metric::SrtReceiveBufferMs => "SRT receive buffer size in milliseconds"@,
            Metric::SrtSendBufferAvailableBytes => "SRT send buffer available space in bytes"@,
            Metric::SrtReceiveBufferAvailableBytes => "SRT receive buffer available space in bytes"@,
        }
    }

    /// How a metric counts.
    pub open spec fn spec_kind(self) -> MetricKind {
        match self {
            Metric::InputBytesReceived => MetricKind::Counter,
            Metric::OutputBytesSent => MetricKind::Counter,
            Metric::InputPacketsReceived => MetricKind::Counter,
            Metric::OutputPacketsSent => MetricKind::Counter,
            Metric::StreamErrors => MetricKind::Counter,
            Metric::ConnectionEventsTotal => MetricKind::Counter,
            Metric::ConnectionDurations => MetricKind::Histogram,
            _ => MetricKind::Gauge,
        }
    }

    /// The names of a metric's labels.
    pub open spec fn label_texts(self) -> Seq<Seq<char>> {
        match self {
            Metric::ActiveInputs => Seq::empty(),
            Metric::ActiveOutputs => Seq::empty(),
            Metric::InputBytesReceived => seq!["stream_name"@, "input_id"@, "stream_type"@],
            Metric::OutputBytesSent => seq!["stream_name"@, "input_id"@, "output_id"@, "stream_type"@],
            Metric::InputPacketsReceived => seq!["stream_name"@, "input_id"@, "stream_type"@],
            Metric::OutputPacketsSent => seq!["stream_name"@, "input_id"@, "output_id"@, "stream_type"@],
            Metric::StreamErrors => seq!["stream_name"@, "stream_id"@, "stream_type"@, "error_type"@],
            Metric::ConnectionEventsTotal => seq!["stream_name"@, "stream_id"@, "stream_type"@, "direction"@, "event_type"@, "peer_address"@],
            Metric::ActiveConnections => seq!["stream_name"@, "stream_type"@, "direction"@],
            Metric::ConnectionDurations => seq!["stream_name"@, "stream_type"@, "direction"@],
            _ => seq!["stream_name"@, "stream_id"@, "stream_type"@, "direction"@],
        }
    }

    /// The name under which the metric is scraped.
    pub fn name(&self) -> (r: &'static str)
        ensures
            r@ == self.name_text(),
    {
        match self {
            Metric::ActiveInputs => "stream_gateway_active_inputs_total",
            Metric::ActiveOutputs => "stream_gateway_active_outputs_total",
            Metric::InputBytesReceived => "stream_gateway_input_bytes_received_total",
            Metric::OutputBytesSent => "stream_gateway_output_bytes_sent_total",
            Metric::InputPacketsReceived => "stream_gateway_input_packets_received_total",
            Metric::OutputPacketsSent => "stream_gateway_output_packets_sent_total",
            Metric::StreamErrors => "stream_gateway_errors_total",
            Metric::ConnectionEventsTotal => "stream_gateway_connection_events_total",
            Metric::ActiveConnections => "stream_gateway_active_connections",
            Metric::ConnectionDurations => "stream_gateway_connection_durations_seconds",
            Metric::SrtPacketsSentTotal => "srt_packets_sent_total",
            Metric::SrtPacketsReceivedTotal => "srt_packets_received_total",
            Metric::SrtBytesSentTotal => "srt_bytes_sent_total",
            Metric::SrtBytesReceivedTotal => "srt_bytes_received_total",
            Metric::SrtPacketsLostSentTotal => "srt_packets_lost_sent_total",
            Metric::SrtPacketsLostReceivedTotal => "srt_packets_lost_received_total",
            Metric::SrtPacketsRetransmittedTotal => "srt_packets_retransmitted_total",
            Metric::SrtPacketsDroppedSentTotal => "srt_packets_dropped_sent_total",
            Metric::SrtPacketsDroppedReceivedTotal => "srt_packets_dropped_received_total",
            Metric::SrtBytesLostReceivedTotal => "srt_bytes_lost_received_total",
            Metric::SrtBytesDroppedSentTotal => "srt_bytes_dropped_sent_total",
            Metric::SrtBytesDroppedReceivedTotal => "srt_bytes_dropped_received_total",
            Metric::SrtSendRateMbps => "srt_send_rate_mbps",
            Metric::SrtReceiveRateMbps => "srt_receive_rate_mbps",
            Metric::SrtRttMs => "srt_rtt_ms",
            Metric::SrtBandwidthMbps => "srt_bandwidth_mbps",
            Metric::SrtFlightSizePackets => "srt_flight_size_packets",
            Metric::SrtSendBufferPackets => "srt_send_buffer_packets",
            Metric::SrtSendBufferBytes => "srt_send_buffer_bytes",
            Metric::SrtSendBufferMs => "srt_send_buffer_ms",
            Metric::SrtReceiveBufferPackets => "srt_receive_buffer_packets",
            Metric::SrtReceiveBufferBytes => "srt_receive_buffer_bytes",
            Metric::SrtReceiveBufferMs => "srt_receive_buffer_ms",
            Metric::SrtSendBufferAvailableBytes => "srt_send_buffer_available_bytes",
            Metric::SrtReceiveBufferAvailableBytes => "srt_receive_buffer_available_bytes",
        }
    }

    /// What the metric tells.
    pub fn help(&self) -> (r: &'static str)
        ensures
            r@ == self.help_text(),
    {
        match self {
            Metric::ActiveInputs => "Number of active input streams",
            Metric::ActiveOutputs => "Number of active output streams",
            Metric::InputBytesReceived => "Total bytes received by input streams",
            Metric::OutputBytesSent => "Total bytes sent by output streams",
            Metric::InputPacketsReceived => "Total packets received by input streams",
            Metric::OutputPacketsSent => "Total packets sent by output streams",
            Metric::StreamErrors => "Total number of stream errors",
            Metric::ConnectionEventsTotal => "Total number of stream connection events",
            Metric::ActiveConnections => "Number of currently active stream connections",
            Metric::ConnectionDurations => "Duration of stream connections in seconds",
            Metric::SrtPacketsSentTotal => "Total SRT packets sent (cumulative from SRT stats)",
            Metric::SrtPacketsReceivedTotal => "Total SRT packets received (cumulative from SRT stats)",
            Metric::SrtBytesSentTotal => "Total SRT bytes sent (cumulative from SRT stats)",
            Metric::SrtBytesReceivedTotal => "Total SRT bytes received (cumulative from SRT stats)",
            Metric::SrtPacketsLostSentTotal => "Total SRT packets lost during sending",
            Metric::SrtPacketsLostReceivedTotal => "Total SRT packets lost during receiving",
            Metric::SrtPacketsRetransmittedTotal => "Total SRT packets retransmitted",
            Metric::SrtPacketsDroppedSentTotal => "Total SRT packets dropped during sending",
            Metric::SrtPacketsDroppedReceivedTotal => "Total SRT packets dropped during receiving",
            Metric::SrtBytesLostReceivedTotal => "Total SRT bytes lost during receiving",
            Metric::SrtBytesDroppedSentTotal => "Total SRT bytes dropped during sending",
            Metric::SrtBytesDroppedReceivedTotal => "Total SRT bytes dropped during receiving",
            Metric::SrtSendRateMbps => "SRT sending rate in Mbps",
            Metric::SrtReceiveRateMbps => "SRT receiving rate in Mbps",
            Metric::SrtRttMs => "SRT Round Trip Time in milliseconds",
            Metric::SrtBandwidthMbps => "SRT estimated bandwidth in Mbps",
            Metric::SrtFlightSizePackets => "SRT number of packets in flight",
            Metric::SrtSendBufferPackets => "SRT send buffer size in packets",
            Metric::SrtSendBufferBytes => "SRT send buffer size in bytes",
            Metric::SrtSendBufferMs => "SRT send buffer size in milliseconds",
            Metric::SrtReceiveBufferPackets => "SRT receive buffer size in packets",
            Metric::SrtReceiveBufferBytes => "SRT receive buffer size in bytes",
            Metric::SrtReceiveBufferMs => "SRT receive buffer size in milliseconds",
            Metric::SrtSendBufferAvailableBytes => "SRT send buffer available space in bytes",
            Metric::SrtReceiveBufferAvailableBytes => "SRT receive buffer available space in bytes",
        }
    }

    /// How the metric counts.
    pub fn kind(&self) -> (r: MetricKind)
        ensures
            r == self.spec_kind(),
    {
        match self {
            Metric::InputBytesReceived => MetricKind::Counter,
            Metric::OutputBytesSent => MetricKind::Counter,
            Metric::InputPacketsReceived => MetricKind::Counter,
            Metric::OutputPacketsSent => MetricKind::Counter,
            Metric::StreamErrors => MetricKind::Counter,
            Metric::ConnectionEventsTotal => MetricKind::Counter,
            Metric::ConnectionDurations => MetricKind::Histogram,
            _ => MetricKind::Gauge,
        }
    }

    /// The names of the metric's labels.
    pub fn label_names(&self) -> (r: Vec<&'static str>)
        ensures
            r@.len() == self.label_texts().len(),
            forall|i: int| 0 <= i < r@.len() ==> (#[trigger] r@[i])@ == self.label_texts()[i],
    {
        match self {
            Metric::ActiveInputs => Vec::new(),
            Metric::ActiveOutputs => Vec::new(),
            Metric::InputBytesReceived => vec!["stream_name", "input_id", "stream_type"],
            Metric::OutputBytesSent => vec!["stream_name", "input_id", "output_id", "stream_type"],
            Metric::InputPacketsReceived => vec!["stream_name", "input_id", "stream_type"],
            Metric::OutputPacketsSent => vec!["stream_name", "input_id", "output_id", "stream_type"],
            Metric::StreamErrors => vec!["stream_name", "stream_id", "stream_type", "error_type"],
            Metric::ConnectionEventsTotal => vec!["stream_name", "stream_id", "stream_type", "direction", "event_type", "peer_address"],
            Metric::ActiveConnections => vec!["stream_name", "stream_type", "direction"],
            Metric::ConnectionDurations => vec!["stream_name", "stream_type", "direction"],
            _ => vec!["stream_name", "stream_id", "stream_type", "direction"],
        }
    }
}

/// Upper bounds in seconds of the buckets that connection durations are sorted into.
pub fn duration_buckets() -> (r: Vec<u64>)
    ensures
        r@ == seq![1u64, 10, 60, 300, 1800, 3600, 21600, 86400],
{
    let r: Vec<u64> = vec![1, 10, 60, 300, 1800, 3600, 21600, 86400];
    assert(r@ =~= seq![1u64, 10, 60, 300, 1800, 3600, 21600, 86400]);
    r
}

/// A change of one metric.
#[derive(Debug, Clone, Copy, PartialEq, Eq, Structural)]
pub enum MetricChange {
    Increment,
    Decrement,
    IncrementBy(u64),
    /// Set to a whole number.
    SetTo(i128),
    /// Set to the double precision number with these bits.
    SetBits(u64),
    /// Record a duration in nanoseconds.
    Observe(u128),
}

/// A change of one metric, for one combination of label values.
#[derive(Debug)]
pub struct MetricUpdate {
    pub metric: Metric,
    pub labels: Vec<String>,
    pub change: MetricChange,
}

/// The mathematical content of a [`MetricUpdate`].
#[verifier::ext_equal]
pub struct MetricUpdateModel {
    pub metric: Metric,
    pub labels: Seq<Seq<char>>,
    pub change: MetricChange,
}

impl View for MetricUpdate {
    type V = MetricUpdateModel;

    open spec fn view(&self) -> MetricUpdateModel {
        MetricUpdateModel {
            metric: self.metric,
            labels: self.labels@.map_values(|s: String| s@),
            change: self.change,
        }
    }
}

impl MetricUpdateModel {
    /// One value for each label of the metric.
    pub open spec fn well_labelled(self) -> bool {
        self.labels.len() == self.metric.label_texts().len()
    }
}

/// The contents of a list of updates.
pub open spec fn updates(v: Seq<MetricUpdate>) -> Seq<MetricUpdateModel> {
    v.map_values(|u: MetricUpdate| u@)
}

// ---------------------------------------------------------------- names as label values

/// A character of a name as it stands in a label: letters, numbers and underscores stay.
pub open spec fn label_char(c: char) -> char {
    if c == ' ' || c == '-' {
        '_'
    } else if is_letter_or_number(c) || c == '_' {
        c
    } else {
        '_'
    }
}

/// Whether a stream has a name that is not blank.
pub open spec fn has_name(name: Option<String>) -> bool {
    name matches Some(n) && trimmed(n@).len() > 0
}

/// The label value for a stream: its name without white space around it, with an underscore
/// for everything that is neither letter nor number, and without underscores around that. A
/// stream whose name is missing or blank is called by its number.
pub open spec fn stream_label(name: Option<String>, id: i64) -> Seq<char> {
    match name {
        Some(n) => if trimmed(n@).len() > 0 {
            without_outer_underscores(trimmed(n@).map_values(|c: char| label_char(c)))
        } else {
            "stream_"@ + signed_decimal(id as int)
        },
        None => "stream_"@ + signed_decimal(id as int),
    }
}

/// Whether a text is a label value that stays as it is: one that begins and ends with a letter
/// or a number and otherwise holds letters, numbers and underscores.
pub open spec fn is_label(s: Seq<char>) -> bool {
    &&& s.len() > 0
    &&& s[0] != '_' && !is_white_space(s[0])
    &&& s.last() != '_' && !is_white_space(s.last())
    &&& forall|i: int| 0 <= i < s.len() ==> is_letter_or_number(#[trigger] s[i]) || s[i] == '_'
}

fn numbered_stream(id: i64) -> (r: String)
    ensures
        r@ == "stream_"@ + signed_decimal(id as int),
{
    let n = signed_decimal_text(id);
    join2("stream_", n.as_str())
}

/// The label value for a stream. Made again from itself it stays the same, but for an empty one
/// and for that of a stream without a name that has a negative number.
pub fn normalize_stream_name(name: &Option<String>, id: i64) -> (r: String)
    ensures
        r@ == stream_label(*name, id),
        r@.len() > 0 && (id >= 0 || has_name(*name)) ==> is_label(r@) && forall|
            again: String,
            other: i64,
        |
            again@ == r@ ==> #[trigger] stream_label(Some(again), other) == r@,
{
    match name {
        Some(n) => {
            let v = chars_of(n.as_str());
            let t = trim_white_space(&v);
            if t.len() == 0 {
                let r = numbered_stream(id);
                proof {
                    lemma_numbered_label(id);
                    lemma_label_stays(r@);
                }
                return r;
            }
            let mut mapped: Vec<char> = Vec::new();
            let mut i: usize = 0;
            while i < t.len()
                invariant
                    i <= t@.len(),
                    mapped@ == t@.take(i as int).map_values(|c: char| label_char(c)),
                    forall|j: int|
                        0 <= j < i && is_letter_or_number(#[trigger] mapped@[j])
                            ==> !is_white_space(mapped@[j]),
                decreases t@.len() - i,
            {
                let c: char = t[i];
                let kept: bool = c != ' ' && c != '-' && (c.is_alphanumeric() || c == '_');
                mapped.push(if kept { c } else { '_' });
                i += 1;
                assert(mapped@ =~= t@.take(i as int).map_values(|c: char| label_char(c)));
            }
            assert(t@.take(t@.len() as int) =~= t@);
            let r = trim_underscores(&mapped);
            proof {
                lemma_trim_keeps(mapped@);
                if r@.len() > 0 {
                    assert forall|i: int| 0 <= i < r@.len() implies (is_letter_or_number(
                        #[trigger] r@[i],
                    ) && !is_white_space(r@[i])) || r@[i] == '_' by {
                        let j = choose|j: int| 0 <= j < mapped@.len() && mapped@[j] == r@[i];
                        assert(mapped@[j] == label_char(t@[j]));
                    }
                    lemma_label_stays(r@);
                }
            }
            text_of(&r)
        },
        None => {
            let r = numbered_stream(id);
            proof {
                lemma_numbered_label(id);
                lemma_label_stays(r@);
            }
            r
        },
    }
}

// ---------------------------------------------------------------- recording

/// An update without labels.
pub open spec fn bare_update(metric: Metric, change: MetricChange) -> MetricUpdateModel {
    MetricUpdateModel { metric, labels: Seq::empty(), change }
}

fn bare(metric: Metric, change: MetricChange) -> (r: MetricUpdate)
    ensures
        r@ == bare_update(metric, change),
{
    let labels: Vec<String> = Vec::new();
    let r = MetricUpdate { metric, labels, change };
    assert(r@.labels =~= Seq::<Seq<char>>::empty());
    r
}

/// One more input runs.
pub fn increment_active_inputs() -> (r: MetricUpdate)
    ensures
        r@ == bare_update(Metric::ActiveInputs, MetricChange::Increment),
        r@.well_labelled(),
{
    bare(Metric::ActiveInputs, MetricChange::Increment)
}

/// One input less runs.
pub fn decrement_active_inputs() -> (r: MetricUpdate)
    ensures
        r@ == bare_update(Metric::ActiveInputs, MetricChange::Decrement),
        r@.well_labelled(),
{
    bare(Metric::ActiveInputs, MetricChange::Decrement)
}

/// One more output runs.
pub fn increment_active_outputs() -> (r: MetricUpdate)
    ensures
        r@ == bare_update(Metric::ActiveOutputs, MetricChange::Increment),
        r@.well_labelled(),
{
    bare(Metric::ActiveOutputs, MetricChange::Increment)
}

/// One output less runs.
pub fn decrement_active_outputs() -> (r: MetricUpdate)
    ensures
        r@ == bare_update(Metric::ActiveOutputs, MetricChange::Decrement),
        r@.well_labelled(),
{
    bare(Metric::ActiveOutputs, MetricChange::Decrement)
}

/// The update for what an input received.
pub open spec fn input_update(
    metric: Metric,
    name: Option<String>,
    input_id: i64,
    stream_type: Seq<char>,
    amount: u64,
) -> MetricUpdateModel {
    MetricUpdateModel {
        metric,
        labels: seq![stream_label(name, input_id), signed_decimal(input_id as int), stream_type],
        change: MetricChange::IncrementBy(amount),
    }
}

/// The update for what an output sent; the name falls back to the output's number.
pub open spec fn output_update(
    metric: Metric,
    name: Option<String>,
    input_id: i64,
    output_id: i64,
    stream_type: Seq<char>,
    amount: u64,
) -> MetricUpdateModel {
    MetricUpdateModel {
        metric,
        labels: seq![
            stream_label(name, output_id),
            signed_decimal(input_id as int),
            signed_decimal(output_id as int),
            stream_type,
        ],
        change: MetricChange::IncrementBy(amount),
    }
}

fn input_record(
    metric: Metric,
    name: &Option<String>,
    input_id: i64,
    stream_type: &str,
    amount: u64,
) -> (r: MetricUpdate)
    ensures
        r@ == input_update(metric, *name, input_id, stream_type@, amount),
{
    let labels: Vec<String> = vec![
        normalize_stream_name(name, input_id),
        signed_decimal_text(input_id),
        stream_type.to_owned(),
    ];
    let r = MetricUpdate { metric, labels, change: MetricChange::IncrementBy(amount) };
    assert(r@.labels =~= input_update(metric, *name, input_id, stream_type@, amount).labels);
    r
}

fn output_record(
    metric: Metric,
    name: &Option<String>,
    input_id: i64,
    output_id: i64,
    stream_type: &str,
    amount: u64,
) -> (r: MetricUpdate)
    ensures
        r@ == output_update(metric, *name, input_id, output_id, stream_type@, amount),
{
    let labels: Vec<String> = vec![
        normalize_stream_name(name, output_id),
        signed_decimal_text(input_id),
        signed_decimal_text(output_id),
        stream_type.to_owned(),
    ];
    let r = MetricUpdate { metric, labels, change: MetricChange::IncrementBy(amount) };
    assert(r@.labels =~= output_update(
        metric,
        *name,
        input_id,
        output_id,
        stream_type@,
        amount,
    ).labels);
    r
}

/// Bytes that an input received.
pub fn record_input_bytes(
    stream_name: &Option<String>,
    input_id: i64,
    stream_type: &str,
    bytes: u64,
) -> (r: MetricUpdate)
    ensures
        r@ == input_update(
            Metric::InputBytesReceived,
            *stream_name,
            input_id,
            stream_type@,
            bytes,
        ),
        r@.well_labelled(),
{
    input_record(Metric::InputBytesReceived, stream_name, input_id, stream_type, bytes)
}

/// Packets that an input received.
pub fn record_input_packets(
    stream_name: &Option<String>,
    input_id: i64,
    stream_type: &str,
    packets: u64,
) -> (r: MetricUpdate)
    ensures
        r@ == input_update(
            Metric::InputPacketsReceived,
            *stream_name,
            input_id,
            stream_type@,
            packets,
        ),
        r@.well_labelled(),
{
    input_record(Metric::InputPacketsReceived, stream_name, input_id, stream_type, packets)
}

/// Bytes that an output sent.
pub fn record_output_bytes(
    stream_name: &Option<String>,
    input_id: i64,
    output_id: i64,
    stream_type: &str,
    bytes: u64,
) -> (r: MetricUpdate)
    ensures
        r@ == output_update(
            Metric::OutputBytesSent,
            *stream_name,
            input_id,
            output_id,
            stream_type@,
            bytes,
        ),
        r@.well_labelled(),
{
    output_record(Metric::OutputBytesSent, stream_name, input_id, output_id, stream_type, bytes)
}

/// Packets that an output sent.
pub fn record_output_packets(
    stream_name: &Option<String>,
    input_id: i64,
    output_id: i64,
    stream_type: &str,
    packets: u64,
) -> (r: MetricUpdate)
    ensures
        r@ == output_update(
            Metric::OutputPacketsSent,
            *stream_name,
            input_id,
            output_id,
            stream_type@,
            packets,
        ),
        r@.well_labelled(),
{
    output_record(Metric::OutputPacketsSent, stream_name, input_id, output_id, stream_type, packets)
}

/// The update for an error of a stream.
pub open spec fn error_update(
    name: Option<String>,
    stream_id: i64,
    stream_type: Seq<char>,
    error_type: Seq<char>,
) -> MetricUpdateModel {
    MetricUpdateModel {
        metric: Metric::StreamErrors,
        labels: seq![
            stream_label(name, stream_id),
            signed_decimal(stream_id as int),
            stream_type,
            error_type,
        ],
        change: MetricChange::Increment,
    }
}

/// An error of a stream.
pub fn record_stream_error(
    stream_name: &Option<String>,
    stream_id: i64,
    stream_type: &str,
    error_type: &str,
) -> (r: MetricUpdate)
    ensures
        r@ == error_update(*stream_name, stream_id, stream_type@, error_type@),
        r@.well_labelled(),
{
    let labels: Vec<String> = vec![
        normalize_stream_name(stream_name, stream_id),
        signed_decimal_text(stream_id),
        stream_type.to_owned(),
        error_type.to_owned(),
    ];
    let r = MetricUpdate { metric: Metric::StreamErrors, labels, change: MetricChange::Increment };
    assert(r@.labels =~= error_update(*stream_name, stream_id, stream_type@, error_type@).labels);
    r
}

/// The update for a connection that came up or went away.
pub open spec fn connection_event_update(
    name: Option<String>,
    stream_id: i64,
    stream_type: Seq<char>,
    direction: Seq<char>,
    event_type: Seq<char>,
    peer_address: Option<String>,
) -> MetricUpdateModel {
    MetricUpdateModel {
        metric: Metric::ConnectionEventsTotal,
        labels: seq![
            stream_label(name, stream_id),
            signed_decimal(stream_id as int),
            stream_type,
            direction,
            event_type,
            match peer_address {
                Some(p) => p@,
                None => "unknown"@,
            },
        ],
        change: MetricChange::Increment,
    }
}

/// A connection that came up or went away.
pub fn record_connection_event(
    stream_name: &Option<String>,
    stream_id: i64,
    stream_type: &str,
    direction: &str,
    event_type: &str,
    peer_address: &Option<String>,
) -> (r: MetricUpdate)
    ensures
        r@ == connection_event_update(
            *stream_name,
            stream_id,
            stream_type@,
            direction@,
            event_type@,
            *peer_address,
        ),
        r@.well_labelled(),
{
    let peer = match peer_address {
        Some(p) => p.clone(),
        None => "unknown".to_owned(),
    };
    let labels: Vec<String> = vec![
        normalize_stream_name(stream_name, stream_id),
        signed_decimal_text(stream_id),
        stream_type.to_owned(),
        direction.to_owned(),
        event_type.to_owned(),
        peer,
    ];
    let r = MetricUpdate {
        metric: Metric::ConnectionEventsTotal,
        labels,
        change: MetricChange::Increment,
    };
    assert(r@.labels =~= connection_event_update(
        *stream_name,
        stream_id,
        stream_type@,
        direction@,
        event_type@,
        *peer_address,
    ).labels);
    r
}

/// An update that is labelled by name, type and direction of a stream.
pub open spec fn connection_update(
    metric: Metric,
    name: Option<String>,
    stream_id: i64,
    stream_type: Seq<char>,
    direction: Seq<char>,
    change: MetricChange,
) -> MetricUpdateModel {
    MetricUpdateModel {
        metric,
        labels: seq![stream_label(name, stream_id), stream_type, direction],
        change,
    }
}

fn connection_record(
    metric: Metric,
    name: &Option<String>,
    stream_id: i64,
    stream_type: &str,
    direction: &str,
    change: MetricChange,
) -> (r: MetricUpdate)
    ensures
        r@ == connection_update(metric, *name, stream_id, stream_type@, direction@, change),
{
    let labels: Vec<String> = vec![
        normalize_stream_name(name, stream_id),
        stream_type.to_owned(),
        direction.to_owned(),
    ];
    let r = MetricUpdate { metric, labels, change };
    assert(r@.labels =~= connection_update(
        metric,
        *name,
        stream_id,
        stream_type@,
        direction@,
        change,
    ).labels);
    r
}

/// One connection more or less.
pub fn update_active_connections(
    stream_name: &Option<String>,
    stream_id: i64,
    stream_type: &str,
    direction: &str,
    connected: bool,
) -> (r: MetricUpdate)
    ensures
        r@ == connection_update(
            Metric::ActiveConnections,
            *stream_name,
            stream_id,
            stream_type@,
            direction@,
            if connected {
                MetricChange::Increment
            } else {
                MetricChange::Decrement
            },
        ),
        r@.well_labelled(),
{
    let change = if connected {
        MetricChange::Increment
    } else {
        MetricChange::Decrement
    };
    connection_record(
        Metric::ActiveConnections,
        stream_name,
        stream_id,
        stream_type,
        direction,
        change,
    )
}

/// How long a connection lasted.
pub fn record_connection_duration_event(
    stream_name: &Option<String>,
    stream_id: i64,
    stream_type: &str,
    direction: &str,
    duration_nanos: u128,
) -> (r: MetricUpdate)
    ensures
        r@ == connection_update(
            Metric::ConnectionDurations,
            *stream_name,
            stream_id,
            stream_type@,
            direction@,
            MetricChange::Observe(duration_nanos),
        ),
        r@.well_labelled(),
{
    connection_record(
        Metric::ConnectionDurations,
        stream_name,
        stream_id,
        stream_type,
        direction,
        MetricChange::Observe(duration_nanos),
    )
}

// ---------------------------------------------------------------- SRT statistics

/// What the SRT library reports of a connection. The fields that end in `_bits` are double
/// precision numbers, given by their bits.
#[derive(Debug, Clone, Copy)]
pub struct SrtStats {
    pub pkt_sent_total: i64,
    pub pkt_recv_total: i64,
    pub byte_sent_total: u64,
    pub byte_recv_total: u64,
    pub pkt_snd_loss_total: i32,
    pub pkt_rcv_loss_total: i32,
    pub pkt_retrans_total: i32,
    pub pkt_snd_drop_total: i32,
    pub pkt_rcv_drop_total: i32,
    pub byte_rcv_loss_total: u64,
    pub byte_snd_drop_total: u64,
    pub byte_rcv_drop_total: u64,
    pub mbps_send_rate_bits: u64,
    pub mbps_recv_rate_bits: u64,
    pub ms_rtt_bits: u64,
    pub mbps_bandwidth_bits: u64,
    pub pkt_flight_size: i32,
    pub pkt_snd_buf: i32,
    pub byte_snd_buf: i32,
    pub ms_snd_buf: i32,
    pub pkt_rcv_buf: i32,
    pub byte_rcv_buf: i32,
    pub ms_rcv_buf: i32,
    pub byte_avail_snd_buf: i32,
    pub byte_avail_rcv_buf: i32,
}

/// What each SRT metric is set to, in the order in which they are set.
pub open spec fn srt_values(stats: SrtStats) -> Seq<(Metric, MetricChange)> {
    seq![
        (Metric::SrtPacketsSentTotal, MetricChange::SetTo(stats.pkt_sent_total as i128)),
        (Metric::SrtPacketsReceivedTotal, MetricChange::SetTo(stats.pkt_recv_total as i128)),
        (Metric::SrtBytesSentTotal, MetricChange::SetTo(stats.byte_sent_total as i128)),
        (Metric::SrtBytesReceivedTotal, MetricChange::SetTo(stats.byte_recv_total as i128)),
        (Metric::SrtPacketsLostSentTotal, MetricChange::SetTo(stats.pkt_snd_loss_total as i128)),
        (Metric::SrtPacketsLostReceivedTotal, MetricChange::SetTo(stats.pkt_rcv_loss_total as i128)),
        (Metric::SrtPacketsRetransmittedTotal, MetricChange::SetTo(stats.pkt_retrans_total as i128)),
        (Metric::SrtPacketsDroppedSentTotal, MetricChange::SetTo(stats.pkt_snd_drop_total as i128)),
        (Metric::SrtPacketsDroppedReceivedTotal, MetricChange::SetTo(stats.pkt_rcv_drop_total as i128)),
        (Metric::SrtBytesLostReceivedTotal, MetricChange::SetTo(stats.byte_rcv_loss_total as i128)),
        (Metric::SrtBytesDroppedSentTotal, MetricChange::SetTo(stats.byte_snd_drop_total as i128)),
        (Metric::SrtBytesDroppedReceivedTotal, MetricChange::SetTo(stats.byte_rcv_drop_total as i128)),
        (Metric::SrtSendRateMbps, MetricChange::SetBits(stats.mbps_send_rate_bits)),
        (Metric::SrtReceiveRateMbps, MetricChange::SetBits(stats.mbps_recv_rate_bits)),
        (Metric::SrtRttMs, MetricChange::SetBits(stats.ms_rtt_bits)),
        (Metric::SrtBandwidthMbps, MetricChange::SetBits(stats.mbps_bandwidth_bits)),
        (Metric::SrtFlightSizePackets, MetricChange::SetTo(stats.pkt_flight_size as i128)),
        (Metric::SrtSendBufferPackets, MetricChange::SetTo(stats.pkt_snd_buf as i128)),
        (Metric::SrtSendBufferBytes, MetricChange::SetTo(stats.byte_snd_buf as i128)),
        (Metric::SrtSendBufferMs, MetricChange::SetTo(stats.ms_snd_buf as i128)),
        (Metric::SrtReceiveBufferPackets, MetricChange::SetTo(stats.pkt_rcv_buf as i128)),
        (Metric::SrtReceiveBufferBytes, MetricChange::SetTo(stats.byte_rcv_buf as i128)),
        (Metric::SrtReceiveBufferMs, MetricChange::SetTo(stats.ms_rcv_buf as i128)),
        (Metric::SrtSendBufferAvailableBytes, MetricChange::SetTo(stats.byte_avail_snd_buf as i128)),
        (Metric::SrtReceiveBufferAvailableBytes, MetricChange::SetTo(stats.byte_avail_rcv_buf as i128)),
    ]
}

/// The labels of SRT metrics.
pub open spec fn srt_labels(
    name: Option<String>,
    stream_id: i64,
    stream_type: Seq<char>,
    direction: Seq<char>,
) -> Seq<Seq<char>> {
    seq![
        stream_label(name, stream_id),
        signed_decimal(stream_id as int),
        stream_type,
        direction,
    ]
}

fn srt_changes(stats: &SrtStats) -> (r: Vec<(Metric, MetricChange)>)
    ensures
        r@ == srt_values(*stats),
{
    let r: Vec<(Metric, MetricChange)> = vec![
        (Metric::SrtPacketsSentTotal, MetricChange::SetTo(stats.pkt_sent_total as i128)),
        (Metric::SrtPacketsReceivedTotal, MetricChange::SetTo(stats.pkt_recv_total as i128)),
        (Metric::SrtBytesSentTotal, MetricChange::SetTo(stats.byte_sent_total as i128)),
        (Metric::SrtBytesReceivedTotal, MetricChange::SetTo(stats.byte_recv_total as i128)),
        (Metric::SrtPacketsLostSentTotal, MetricChange::SetTo(stats.pkt_snd_loss_total as i128)),
        (Metric::SrtPacketsLostReceivedTotal, MetricChange::SetTo(stats.pkt_rcv_loss_total as i128)),
        (Metric::SrtPacketsRetransmittedTotal, MetricChange::SetTo(stats.pkt_retrans_total as i128)),
        (Metric::SrtPacketsDroppedSentTotal, MetricChange::SetTo(stats.pkt_snd_drop_total as i128)),
        (Metric::SrtPacketsDroppedReceivedTotal, MetricChange::SetTo(stats.pkt_rcv_drop_total as i128)),
        (Metric::SrtBytesLostReceivedTotal, MetricChange::SetTo(stats.byte_rcv_loss_total as i128)),
        (Metric::SrtBytesDroppedSentTotal, MetricChange::SetTo(stats.byte_snd_drop_total as i128)),
        (Metric::SrtBytesDroppedReceivedTotal, MetricChange::SetTo(stats.byte_rcv_drop_total as i128)),
        (Metric::SrtSendRateMbps, MetricChange::SetBits(stats.mbps_send_rate_bits)),
        (Metric::SrtReceiveRateMbps, MetricChange::SetBits(stats.mbps_recv_rate_bits)),
        (Metric::SrtRttMs, MetricChange::SetBits(stats.ms_rtt_bits)),
        (Metric::SrtBandwidthMbps, MetricChange::SetBits(stats.mbps_bandwidth_bits)),
        (Metric::SrtFlightSizePackets, MetricChange::SetTo(stats.pkt_flight_size as i128)),
        (Metric::SrtSendBufferPackets, MetricChange::SetTo(stats.pkt_snd_buf as i128)),
        (Metric::SrtSendBufferBytes, MetricChange::SetTo(stats.byte_snd_buf as i128)),
        (Metric::SrtSendBufferMs, MetricChange::SetTo(stats.ms_snd_buf as i128)),
        (Metric::SrtReceiveBufferPackets, MetricChange::SetTo(stats.pkt_rcv_buf as i128)),
        (Metric::SrtReceiveBufferBytes, MetricChange::SetTo(stats.byte_rcv_buf as i128)),
        (Metric::SrtReceiveBufferMs, MetricChange::SetTo(stats.ms_rcv_buf as i128)),
        (Metric::SrtSendBufferAvailableBytes, MetricChange::SetTo(stats.byte_avail_snd_buf as i128)),
        (Metric::SrtReceiveBufferAvailableBytes, MetricChange::SetTo(stats.byte_avail_rcv_buf as i128)),
    ];
    assert(r@ =~= srt_values(*stats));
    r
}

/// Set every SRT metric of a stream to what the SRT library reports.
pub fn record_srt_stats(
    stream_name: &Option<String>,
    stream_id: i64,
    stream_type: &str,
    direction: &str,
    stats: &SrtStats,
) -> (r: Vec<MetricUpdate>)
    ensures
        r@.len() == srt_values(*stats).len(),
        forall|i: int|
            0 <= i < r@.len() ==> (#[trigger] r@[i])@ == (MetricUpdateModel {
                metric: srt_values(*stats)[i].0,
                labels: srt_labels(*stream_name, stream_id, stream_type@, direction@),
                change: srt_values(*stats)[i].1,
            }) && r@[i]@.well_labelled(),
{
    let changes = srt_changes(stats);
    let mut r: Vec<MetricUpdate> = Vec::new();
    let mut i: usize = 0;
    while i < changes.len()
        invariant
            i <= changes@.len(),
            changes@ == srt_values(*stats),
            r@.len() == i,
            forall|j: int|
                0 <= j < i ==> (#[trigger] r@[j])@ == (MetricUpdateModel {
                    metric: srt_values(*stats)[j].0,
                    labels: srt_labels(*stream_name, stream_id, stream_type@, direction@),
                    change: srt_values(*stats)[j].1,
                }) && r@[j]@.well_labelled(),
        decreases changes@.len() - i,
    {
        let labels: Vec<String> = vec![
            normalize_stream_name(stream_name, stream_id),
            signed_decimal_text(stream_id),
            stream_type.to_owned(),
            direction.to_owned(),
        ];
        let u = MetricUpdate { metric: changes[i].0, labels, change: changes[i].1 };
        assert(u@.labels =~= srt_labels(*stream_name, stream_id, stream_type@, direction@));
        r.push(u);
        i += 1;
    }
    r
}

// ---------------------------------------------------------------- laws

/// The label value for a named stream holds only letters, numbers and underscores, and
/// neither begins nor ends with an underscore.
pub proof fn law_stream_label_is_clean(name: Option<String>, id: i64)
    requires
        name is Some,
        trimmed(name->0@).len() > 0,
    ensures
        forall|i: int|
            0 <= i < stream_label(name, id).len() ==> is_letter_or_number(
                #[trigger] stream_label(name, id)[i],
            ) || stream_label(name, id)[i] == '_',
        stream_label(name, id).len() > 0 ==> stream_label(name, id)[0] != '_' && stream_label(
            name,
            id,
        ).last() != '_',
{
    let mapped = trimmed(name->0@).map_values(|c: char| label_char(c));
    lemma_trim_keeps(mapped);
}

proof fn lemma_trim_keeps(s: Seq<char>)
    ensures
        forall|i: int|
            0 <= i < without_outer_underscores(s).len() ==> s.contains(
                #[trigger] without_outer_underscores(s)[i],
            ),
        without_outer_underscores(s).len() > 0 ==> without_outer_underscores(s)[0] != '_'
            && without_outer_underscores(s).last() != '_',
{
    let f = |c: char| c == '_';
    let t = crate::text::trim_start_where(s, f);
    lemma_trim_start(s);
    lemma_trim_end(t);
    assert forall|i: int| 0 <= i < without_outer_underscores(s).len() implies s.contains(
        #[trigger] without_outer_underscores(s)[i],
    ) by {
        assert(t.contains(without_outer_underscores(s)[i]));
        let j = choose|j: int| 0 <= j < t.len() && t[j] == without_outer_underscores(s)[i];
        assert(s.contains(t[j]));
    }
}

proof fn lemma_trim_start(s: Seq<char>)
    ensures
        ({
            let t = crate::text::trim_start_where(s, |c: char| c == '_');
            &&& forall|i: int| 0 <= i < t.len() ==> s.contains(#[trigger] t[i])
            &&& t.len() > 0 ==> t[0] != '_'
        }),
    decreases s.len(),
{
    let f = |c: char| c == '_';
    if s.len() > 0 && s[0] == '_' {
        lemma_trim_start(s.skip(1));
        let t = crate::text::trim_start_where(s, f);
        assert forall|i: int| 0 <= i < t.len() implies s.contains(#[trigger] t[i]) by {
            assert(s.skip(1).contains(t[i]));
            let j = choose|j: int| 0 <= j < s.skip(1).len() && s.skip(1)[j] == t[i];
            assert(s[j + 1] == t[i]);
        }
    }
}

proof fn lemma_trim_end(s: Seq<char>)
    ensures
        ({
            let t = crate::text::trim_end_where(s, |c: char| c == '_');
            &&& forall|i: int| 0 <= i < t.len() ==> s.contains(#[trigger] t[i])
            &&& t.len() > 0 ==> t[0] == s[0] && t.last() != '_'
        }),
    decreases s.len(),
{
    let f = |c: char| c == '_';
    if s.len() > 0 && s.last() == '_' {
        lemma_trim_end(s.drop_last());
        let t = crate::text::trim_end_where(s, f);
        assert forall|i: int| 0 <= i < t.len() implies s.contains(#[trigger] t[i]) by {
            assert(s.drop_last().contains(t[i]));
            let j = choose|j: int| 0 <= j < s.drop_last().len() && s.drop_last()[j] == t[i];
            assert(s[j] == t[i]);
        }
    }
}

proof fn lemma_label_stays(s: Seq<char>)
    ensures
        is_label(s) ==> forall|again: String, other: i64|
            again@ == s ==> #[trigger] stream_label(Some(again), other) == s,
{
    if is_label(s) {
        let white = |c: char| is_white_space(c);
        assert(crate::text::trim_start_where(s, white) == s);
        assert(crate::text::trim_end_where(s, white) == s);
        assert(trimmed(s) == s);
        assert(s.map_values(|c: char| label_char(c)) =~= s);
        let low = |c: char| c == '_';
        assert(crate::text::trim_start_where(s, low) == s);
        assert(crate::text::trim_end_where(s, low) == s);
        assert(without_outer_underscores(s) == s);
    }
}

proof fn lemma_numbered_label(id: i64)
    ensures
        id >= 0 ==> is_label("stream_"@ + signed_decimal(id as int)),
{
    if id >= 0 {
        let d = signed_decimal(id as int);
        let s = "stream_"@ + d;
        crate::text_laws::lemma_decimal(id as nat);
        reveal_strlit("stream_");
        assert(crate::text::is_digit(d[d.len() - 1]));
        assert(s.last() == d.last());
        assert forall|i: int| 0 <= i < s.len() implies is_letter_or_number(#[trigger] s[i]) || s[i]
            == '_' by {
            if i >= 7 {
                assert(crate::text::is_digit(d[i - 7]));
            }
        }
    }
}

} // verus!
