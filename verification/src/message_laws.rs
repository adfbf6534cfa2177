//! Laws of texts: what messages name, which problem is told first, how names are given and how
//! texts are ordered.
use vstd::prelude::*;
use crate::analysis::about_input;
use crate::creation::{output_exists_text, port_taken_text};
use crate::deletion::no_such_output_of;
use crate::interfaces::{strictly_sorted, wanted, InterfaceInfo};
use crate::ip::ipv4_of;
use crate::listing::{no_such_input, no_such_output};
use crate::metrics::{label_char, stream_label, Metric, MetricKind};
use crate::naming::{input_name, name_or, udp_destination};
use crate::port_rules::{auto_port_input, auto_port_output};
use crate::requests::{CreateInputRequest, CreateOutputRequest};
use crate::spts::auto_spts_name;
use crate::stream_control::{about_output, output_not_in_input, start_output_refusal};
use crate::streams::{restart_problem, InputModel, Lookup};
use crate::text::{
    decimal, is_white_space, signed_decimal, text_lt, trim_end_where, trim_start_where, trimmed,
    without_outer_underscores,
};
use crate::validation::{
    bind_problem, filled, group_problem, input_problem, output_problem, Interfaces,
};

verus! {

/// Whether a text begins with another.
pub open spec fn begins(s: Seq<char>, t: Seq<char>) -> bool {
    t.len() <= s.len() && s.subrange(0, t.len() as int) == t
}

/// Whether a text ends in another.
pub open spec fn ends(s: Seq<char>, t: Seq<char>) -> bool {
    t.len() <= s.len() && s.subrange(s.len() - t.len(), s.len() as int) == t
}

proof fn lemma_parts(a: Seq<char>, b: Seq<char>)
    ensures
        begins(a + b, a),
        ends(a + b, b),
{
    assert((a + b).subrange(0, a.len() as int) =~= a);
    assert((a + b).subrange((a + b).len() - b.len(), (a + b).len() as int) =~= b);
}

// ---------------------------------------------------------------- messages

/// Messages name the stream that they are about, and first the output where they name an input
/// too.
pub proof fn law_messages_name_their_streams(input_id: i64, output_id: i64, rest: Seq<char>)
    ensures
        begins(no_such_input(input_id), "Input con ID '"@ + signed_decimal(input_id as int)),
        begins(no_such_output(output_id), "Output con ID '"@ + signed_decimal(output_id as int)),
        begins(
            no_such_output_of(output_id, input_id),
            "Output con ID '"@ + signed_decimal(output_id as int),
        ),
        ends(no_such_output_of(output_id, input_id), signed_decimal(input_id as int) + "'"@),
        begins(about_input(input_id, rest), "Input "@ + signed_decimal(input_id as int)),
        begins(about_output(output_id, rest), "Output "@ + signed_decimal(output_id as int)),
        ends(about_input(input_id, rest), rest),
        ends(about_output(output_id, rest), rest),
        begins(
            output_not_in_input(output_id, input_id),
            "Output "@ + signed_decimal(output_id as int),
        ),
        ends(output_not_in_input(output_id, input_id), signed_decimal(input_id as int)),
{
    let i = signed_decimal(input_id as int);
    let o = signed_decimal(output_id as int);
    lemma_parts("Input con ID '"@ + i, "' no encontrado"@);
    lemma_parts("Output con ID '"@ + o, "' no encontrado"@);
    let tail = "' no encontrado para Input '"@ + i + "'"@;
    assert(no_such_output_of(output_id, input_id) =~= ("Output con ID '"@ + o) + tail);
    lemma_parts("Output con ID '"@ + o, tail);
    let head = "Output con ID '"@ + o + "' no encontrado para Input '"@;
    assert(no_such_output_of(output_id, input_id) =~= head + (i + "'"@));
    lemma_parts(head, i + "'"@);
    lemma_parts("Input "@ + i, rest);
    lemma_parts("Output "@ + o, rest);
    assert(output_not_in_input(output_id, input_id) =~= ("Output "@ + o) + (
    " not found in input "@ + i));
    lemma_parts("Output "@ + o, " not found in input "@ + i);
    lemma_parts("Output "@ + o + " not found in input "@, i);
}

/// Refusals name what is in the way: the port that is taken, or the destination that an output
/// of the input has.
pub proof fn law_conflicts_name_what_is_taken(input_id: i64, destination: Seq<char>, port: u16)
    ensures
        begins(port_taken_text(port), "Puerto "@ + decimal(port as nat)),
        ends(output_exists_text(input_id, destination), destination + "'"@),
        begins(
            output_exists_text(input_id, destination),
            "Output ya existe para input "@ + signed_decimal(input_id as int),
        ),
{
    let i = signed_decimal(input_id as int);
    lemma_parts("Puerto "@ + decimal(port as nat), " ya está en uso por otro output"@);
    let head = "Output ya existe para input "@ + i;
    assert(output_exists_text(input_id, destination) =~= head + (" con destino '"@ + destination
        + "'"@));
    lemma_parts(head, " con destino '"@ + destination + "'"@);
    let front = head + " con destino '"@;
    assert(output_exists_text(input_id, destination) =~= front + (destination + "'"@));
    lemma_parts(front, destination + "'"@);
}

/// An output that cannot start is told of by what the lookup said, or else by the destination
/// that was not found.
pub proof fn law_failed_lookups_are_told(config: CreateOutputRequest, message: String)
    ensures
        ends(restart_problem(config, Lookup::Failed(message)), message@),
        ends(restart_problem(config, Lookup::Empty), udp_destination(config) + "'"@),
{
    let start = "Failed to create UDP output: "@;
    let d = udp_destination(config);
    let failed = start + ("Error resolviendo '"@ + d + "': "@);
    assert(restart_problem(config, Lookup::Failed(message)) =~= failed + message@);
    lemma_parts(failed, message@);
    let empty = start + "No se pudo resolver '"@;
    assert(restart_problem(config, Lookup::Empty) =~= empty + (d + "'"@));
    lemma_parts(empty, d + "'"@);
}

/// Starting an output of a stopped input is refused with a message that names the output first
/// and then the input.
pub proof fn law_stopped_inputs_refuse_outputs(
    streams: Map<i64, InputModel>,
    input_id: i64,
    output_id: i64,
)
    requires
        streams.contains_key(input_id),
        streams[input_id].status is Stopped,
    ensures
        start_output_refusal(streams, input_id, output_id) is Some,
        begins(
            start_output_refusal(streams, input_id, output_id)->0,
            "Cannot start output "@ + signed_decimal(output_id as int),
        ),
        ends(
            start_output_refusal(streams, input_id, output_id)->0,
            signed_decimal(input_id as int) + " is stopped"@,
        ),
{
    let i = signed_decimal(input_id as int);
    let head = "Cannot start output "@ + signed_decimal(output_id as int);
    let m = start_output_refusal(streams, input_id, output_id)->0;
    assert(m =~= head + (" because input "@ + i + " is stopped"@));
    lemma_parts(head, " because input "@ + i + " is stopped"@);
    assert(m =~= (head + " because input "@) + (i + " is stopped"@));
    lemma_parts(head + " because input "@, i + " is stopped"@);
}

// ---------------------------------------------------------------- the order of checks

/// The bind address of a UDP input is checked first, then its group, then its source: what is
/// told of the first does not depend on the rest.
pub proof fn law_first_problem_of_inputs_is_told(
    config: CreateInputRequest,
    interfaces: Interfaces,
    addr: String,
    group: String,
)
    requires
        config is Udp,
    ensures
        config->Udp_bind_host == Some(addr) && addr@.len() > 0 && bind_problem(addr@, interfaces)
            is Some ==> input_problem(config, interfaces) == bind_problem(addr@, interfaces),
        config->Udp_bind_host is None && config->multicast_group == Some(group) && group@.len() > 0
            && group_problem(group@) is Some ==> input_problem(config, interfaces) == group_problem(
            group@,
        ),
{
}

/// The bind address of a UDP output is checked first, then its multicast interface.
pub proof fn law_first_problem_of_outputs_is_told(
    config: CreateOutputRequest,
    interfaces: Interfaces,
    addr: String,
    other: String,
)
    requires
        config is Udp,
    ensures
        config->bind_host == Some(addr) && addr@.len() > 0 && bind_problem(addr@, interfaces)
            is Some ==> output_problem(config, interfaces) == bind_problem(addr@, interfaces),
        config->bind_host is None && config->multicast_interface == Some(other) && other@.len() > 0
            && bind_problem(other@, interfaces) is Some ==> output_problem(config, interfaces)
            == bind_problem(other@, interfaces),
{
}

/// A field counts as filled exactly if it holds at least one character.
pub proof fn law_empty_fields_count_as_missing(a: String)
    ensures
        !filled(None),
        filled(Some(a)) <==> a@.len() > 0,
{
}

// ---------------------------------------------------------------- ports that are left open

/// An input leaves its port open exactly if it names none or zero; where both fields are there,
/// the newer one counts.
pub proof fn law_inputs_leave_ports_open(bind: u16, listen: u16)
    ensures
        auto_port_input(None, None),
        auto_port_input(Some(bind), None) <==> bind == 0,
        auto_port_input(None, Some(listen)) <==> listen == 0,
        auto_port_input(Some(bind), Some(listen)) <==> bind == 0,
{
}

/// An output leaves its port open exactly if it names none, or zero in any field; a legacy
/// address does so by the word `auto`.
pub proof fn law_outputs_leave_ports_open(remote: u16, bind: u16)
    ensures
        auto_port_output(None, None, None),
        auto_port_output(Some(remote), None, None) <==> remote == 0,
        auto_port_output(None, Some(bind), None) <==> bind == 0,
        auto_port_output(Some(remote), Some(bind), None) <==> remote == 0 || bind == 0,
        auto_port_output(Some(remote), Some(bind), Some("auto"@)),
{
}

// ---------------------------------------------------------------- names

/// Filters and their outputs are named after the program that they carry, and filters after the
/// input that they take it from.
pub proof fn law_filters_are_named_after_programs(req: CreateInputRequest, name: String)
    ensures
        req matches CreateInputRequest::Spts { program_number, source_input_id, .. } ==> {
            &&& req.given_name() is None ==> begins(
                input_name(req),
                "SPTS Program "@ + decimal(program_number as nat),
            ) && ends(input_name(req), signed_decimal(source_input_id as int))
            &&& begins(
                auto_spts_name(program_number),
                "SPTS Program "@ + decimal(program_number as nat),
            )
        },
        name_or(Some(name), name@ + name@) == name@,
        name_or(None, name@) == name@,
{
    if let CreateInputRequest::Spts { program_number, source_input_id, .. } = req {
        let p = "SPTS Program "@ + decimal(program_number as nat);
        let i = signed_decimal(source_input_id as int);
        lemma_parts(p, " Output"@);
        if req.given_name() is None {
            assert(input_name(req) =~= p + (" from Input "@ + i));
            lemma_parts(p, " from Input "@ + i);
            lemma_parts(p + " from Input "@, i);
        }
    }
}

/// Whether a text is one word of ASCII letters and digits.
pub open spec fn is_word(s: Seq<char>) -> bool {
    s.len() > 0 && forall|i: int|
        0 <= i < s.len() ==> {
            let c = #[trigger] s[i];
            'a' <= c <= 'z' || 'A' <= c <= 'Z' || '0' <= c <= '9'
        }
}

/// A stream whose name is one word is labelled by that word, and one whose name is two words by
/// both, with an underscore for the space, the hyphen or the dot between them.
pub proof fn law_labels_keep_words(a: Seq<char>, b: Seq<char>, between: char, n: String, id: i64)
    requires
        is_word(a),
        is_word(b),
        between == ' ' || between == '-' || between == '.' || between == '_',
    ensures
        n@ == a ==> stream_label(Some(n), id) == a,
        n@ == a + seq![between] + b ==> stream_label(Some(n), id) == a + seq!['_'] + b,
{
    if n@ == a {
        assert(a.map_values(|c: char| label_char(c)) =~= a);
        lemma_label_of_inner(a, a);
    }
    if n@ == a + seq![between] + b {
        let s = a + seq![between] + b;
        let t = a + seq!['_'] + b;
        assert(s.last() == b.last());
        assert(t.last() == b.last());
        assert(s.map_values(|c: char| label_char(c)) =~= t);
        lemma_label_of_inner(s, t);
    }
}

proof fn lemma_label_of_inner(s: Seq<char>, t: Seq<char>)
    requires
        s.len() > 0,
        is_word(seq![s[0], s.last()]),
        t == s.map_values(|c: char| label_char(c)),
    ensures
        trimmed(s) == s,
        without_outer_underscores(t) == t,
{
    let ends = seq![s[0], s.last()];
    assert(ends[0] == s[0] && ends[1] == s.last());
    let white = |c: char| is_white_space(c);
    assert(trim_start_where(s, white) == s);
    assert(trim_end_where(s, white) == s);
    let low = |c: char| c == '_';
    assert(t.last() == label_char(s.last()));
    assert(trim_start_where(t, low) == t);
    assert(trim_end_where(t, low) == t);
}

/// What the counters of a stream are called: by the direction, the unit and what happened.
pub proof fn law_counters_are_named_by_direction_and_unit()
    ensures
        Metric::InputBytesReceived.name_text() == "stream_gateway_"@ + "input_"@ + "bytes_"@
            + "received_total"@,
        Metric::InputPacketsReceived.name_text() == "stream_gateway_"@ + "input_"@ + "packets_"@
            + "received_total"@,
        Metric::OutputBytesSent.name_text() == "stream_gateway_"@ + "output_"@ + "bytes_"@
            + "sent_total"@,
        Metric::OutputPacketsSent.name_text() == "stream_gateway_"@ + "output_"@ + "packets_"@
            + "sent_total"@,
{
    reveal_strlit("stream_gateway_");
    reveal_strlit("input_");
    reveal_strlit("output_");
    reveal_strlit("bytes_");
    reveal_strlit("packets_");
    reveal_strlit("received_total");
    reveal_strlit("sent_total");
    reveal_strlit("stream_gateway_input_bytes_received_total");
    reveal_strlit("stream_gateway_input_packets_received_total");
    reveal_strlit("stream_gateway_output_bytes_sent_total");
    reveal_strlit("stream_gateway_output_packets_sent_total");
}

/// What the SRT totals are called: by the unit, what happened and the side.
pub proof fn law_srt_totals_are_named_by_unit_and_side()
    ensures
        Metric::SrtPacketsSentTotal.name_text() == "srt_packets_"@ + "sent_total"@,
        Metric::SrtPacketsReceivedTotal.name_text() == "srt_packets_"@ + "received_total"@,
        Metric::SrtBytesSentTotal.name_text() == "srt_bytes_"@ + "sent_total"@,
        Metric::SrtBytesReceivedTotal.name_text() == "srt_bytes_"@ + "received_total"@,
        Metric::SrtPacketsLostSentTotal.name_text() == "srt_packets_"@ + "lost_"@ + "sent_total"@,
        Metric::SrtPacketsLostReceivedTotal.name_text() == "srt_packets_"@ + "lost_"@
            + "received_total"@,
        Metric::SrtPacketsDroppedSentTotal.name_text() == "srt_packets_"@ + "dropped_"@
            + "sent_total"@,
        Metric::SrtPacketsDroppedReceivedTotal.name_text() == "srt_packets_"@ + "dropped_"@
            + "received_total"@,
        Metric::SrtBytesDroppedSentTotal.name_text() == "srt_bytes_"@ + "dropped_"@
            + "sent_total"@,
        Metric::SrtBytesDroppedReceivedTotal.name_text() == "srt_bytes_"@ + "dropped_"@
            + "received_total"@,
{
    reveal_strlit("srt_packets_");
    reveal_strlit("srt_bytes_");
    reveal_strlit("lost_");
    reveal_strlit("dropped_");
    reveal_strlit("received_total");
    reveal_strlit("sent_total");
    reveal_strlit("srt_packets_sent_total");
    reveal_strlit("srt_packets_received_total");
    reveal_strlit("srt_bytes_sent_total");
    reveal_strlit("srt_bytes_received_total");
    reveal_strlit("srt_packets_lost_sent_total");
    reveal_strlit("srt_packets_lost_received_total");
    reveal_strlit("srt_packets_dropped_sent_total");
    reveal_strlit("srt_packets_dropped_received_total");
    reveal_strlit("srt_bytes_dropped_sent_total");
    reveal_strlit("srt_bytes_dropped_received_total");
}

/// What only grows is a counter, what comes and goes is a gauge, and durations are spread over a
/// histogram.
pub proof fn law_metrics_count_as_they_change(m: Metric)
    ensures
        m is InputBytesReceived || m is OutputBytesSent || m is InputPacketsReceived || m
            is OutputPacketsSent || m is StreamErrors || m is ConnectionEventsTotal
            <==> m.spec_kind() == MetricKind::Counter,
        m is ConnectionDurations <==> m.spec_kind() == MetricKind::Histogram,
{
}

// ---------------------------------------------------------------- interfaces

/// The filter of interfaces keeps those that were asked for: without loopback, of IPv4, or up,
/// where that was asked, and all where nothing was.
pub proof fn law_interfaces_are_kept_iff_wanted(
    infos: Seq<InterfaceInfo>,
    i: InterfaceInfo,
    up: Option<bool>,
    no_loopback: Option<bool>,
    v4: Option<bool>,
)
    ensures
        infos.filter(|x: InterfaceInfo| wanted(x, up, no_loopback, v4)).contains(i) <==> {
            &&& infos.contains(i)
            &&& !(up == Some(true) && !i.is_up)
            &&& !(no_loopback == Some(true) && i.is_loopback)
            &&& !(v4 == Some(true) && ipv4_of(i.ip@) is None)
        },
{
    crate::load_laws::lemma_filter_keeps(
        infos,
        |x: InterfaceInfo| wanted(x, up, no_loopback, v4),
        i,
    );
}

// ---------------------------------------------------------------- the order of texts

/// Texts are ordered by the first character in which they differ, and a text comes before those
/// that it begins.
pub proof fn law_texts_are_ordered_by_their_first_difference(
    p: Seq<char>,
    x: char,
    s: Seq<char>,
    y: char,
    t: Seq<char>,
)
    ensures
        x != y ==> (text_lt(p + seq![x] + s, p + seq![y] + t) <==> x < y),
        text_lt(p, p + seq![x] + s),
        !text_lt(p + seq![x] + s, p),
        !text_lt(p, p),
    decreases p.len(),
{
    let a = p + seq![x] + s;
    let b = p + seq![y] + t;
    if p.len() > 0 {
        let q = p.skip(1);
        law_texts_are_ordered_by_their_first_difference(q, x, s, y, t);
        assert(a.skip(1) =~= q + seq![x] + s);
        assert(b.skip(1) =~= q + seq![y] + t);
        assert(a[0] == p[0] && b[0] == p[0]);
    }
}

/// A list that is sorted in this order holds nothing twice.
pub proof fn law_sorted_lists_hold_nothing_twice(v: Seq<Seq<char>>)
    requires
        strictly_sorted(v),
    ensures
        v.no_duplicates(),
{
    assert forall|i: int, j: int| 0 <= i < j < v.len() implies v[i] != v[j] by {
        assert(text_lt(v[i], v[j]));
        law_texts_are_ordered_by_their_first_difference(v[i], 'a', Seq::empty(), 'b', Seq::empty());
    }
}

} // verus!
