//! Laws of the tasks behind streams: how their sockets are set up, what they count and when they
//! count as connected.
use vstd::prelude::*;
use crate::clock::UnixNanos;
use crate::ip::{ip_of, ipv4_of, is_socket_address, IpModel};
use crate::metrics::{Metric, MetricChange, MetricUpdateModel};
use crate::naming::multicast_for;
use crate::requests::SrtOutputConfig;
use crate::sockets::{
    hops, input_socket_problem, is_join, leaving_interface, output_bind, GroupJoin,
};
use crate::spts::{spts_destination, spts_start, SpsDestinationConfig};
use crate::srt_config::{buffer_sizes, buffers_fit, SrtCommonConfig};
use crate::srt_stream::{local_text, Attempts, SendResult, SrtSender};
use crate::status::{StateChange, StreamStatus};
use crate::text::{address_text, decimal, signed_decimal};
use crate::udp_stream::{tells_input, tells_output, udp_send_metrics, UdpInputTask};

verus! {

// ---------------------------------------------------------------- SRT settings

/// The receive buffer holds what arrives within the latency and a quarter more: eight times its
/// bytes are the bits of five quarters of bitrate times latency, short of less than one byte.
/// The send buffer is as large, the UDP buffers are twice as large, and the window counts whole
/// packets of the receive buffer.
pub proof fn law_buffers_hold_the_latency(bitrate_kbps: u32, latency_ms: i32)
    requires
        0 <= latency_ms,
        buffers_fit(bitrate_kbps, latency_ms),
    ensures
        ({
            let b = buffer_sizes(bitrate_kbps, latency_ms);
            &&& 0 <= bitrate_kbps * latency_ms * 5 - 4 * (8 * b.rcv_buf) < 4 * 8
            &&& b.snd_buf == b.rcv_buf
            &&& b.udp_rcv_buf == 2 * b.rcv_buf
            &&& b.udp_snd_buf == 2 * b.snd_buf
            &&& 0 <= b.rcv_buf - 1316 * b.fc < 1316
        }),
{
    assert(0 <= bitrate_kbps * latency_ms) by (nonlinear_arith)
        requires
            0 <= bitrate_kbps,
            0 <= latency_ms,
    ;
}

/// The buffers fit exactly if twice the bytes fit into the option of a socket, which those of
/// ten seconds of a hundred megabits do.
pub proof fn law_ordinary_buffers_fit(bitrate_kbps: u32, latency_ms: i32)
    requires
        bitrate_kbps <= 100_000,
        0 <= latency_ms <= 10_000,
    ensures
        buffers_fit(bitrate_kbps, latency_ms),
{
    assert(0 <= bitrate_kbps * latency_ms <= 1_000_000_000) by (nonlinear_arith)
        requires
            0 <= bitrate_kbps <= 100_000,
            0 <= latency_ms <= 10_000,
    ;
}

/// An SRT socket is set up with what the configuration says and nothing else: where it leaves
/// something open, so does the socket.
pub proof fn law_srt_settings_follow_the_configuration(c: SrtCommonConfig, lat: i32, rate: u32)
    ensures
        c.async_settings().stream_id == c.stream_id,
        c.async_settings().passphrase == c.passphrase,
        c.async_settings().fec == c.fec,
        c.async_settings().peer_latency == c.latency_ms,
        c.async_settings().receive_latency == c.latency_ms,
        c.async_settings().live,
        c.latency_ms is None || c.expected_bitrate_kbps is None ==> c.fits()
            && c.async_settings().buffers is None,
        c.latency_ms == Some(lat) && c.expected_bitrate_kbps == Some(rate) ==> (c.fits()
            == buffers_fit(rate, lat)) && c.async_settings().buffers == Some(
            buffer_sizes(rate, lat),
        ),
{
}

/// A caller connects from the address that it names, with a port that the system picks, and from
/// any where it names none or the one that stands for all.
pub proof fn law_callers_connect_from_their_address(host: String)
    ensures
        local_text(None) is None,
        host@.len() > 0 && host@ != "0.0.0.0"@ ==> local_text(Some(host)) == Some(
            address_text(host@, 0),
        ),
        host@ == "0.0.0.0"@ || host@.len() == 0 ==> local_text(Some(host)) is None,
{
    lemma_port_zero(host@);
}

proof fn lemma_port_zero(host: Seq<char>)
    ensures
        host + ":0"@ == address_text(host, 0),
{
    reveal_strlit(":0");
    assert(decimal(0) =~= seq!['0']) by {
        reveal_with_fuel(decimal, 2);
    }
    assert(host + ":0"@ =~= address_text(host, 0));
}

/// Nine failures in a row leave a stream trying and ten do not, and each counts.
pub proof fn law_each_failure_counts(a: Attempts)
    requires
        a.wf(),
    ensures
        a.failures <= 9,
        a.after_failure().failures == a.failures + 1,
        a.after_failure().wf() <==> a.failures < 9,
{
}

// ---------------------------------------------------------------- UDP sockets

/// A UDP input joins the group that it names, for packets from the source that it names, on the
/// interface that it is bound to.
pub proof fn law_inputs_join_their_groups(
    j: GroupJoin,
    bind_addr: Seq<char>,
    group: Option<Seq<char>>,
    source: Option<Seq<char>>,
)
    requires
        is_join(j, bind_addr, group, source),
    ensures
        group is None <==> j is NoGroup,
        group matches Some(g) ==> {
            &&& ip_of(g) matches Some(IpModel::V6(_)) ==> j is Ipv6 && j->Ipv6_group@ == g
            &&& ip_of(g) matches Some(IpModel::V4(_)) ==> source is None ==> j is AnySource
                && j->AnySource_group@ == g
            &&& ip_of(g) matches Some(IpModel::V4(_)) ==> source matches Some(s) ==> j
                is SourceSpecific && j->SourceSpecific_group@ == g && j->source@ == s
        },
        ipv4_of(bind_addr) is Some ==> {
            &&& j is AnySource ==> j->AnySource_interface@ == bind_addr
            &&& j is SourceSpecific ==> j->SourceSpecific_interface@ == bind_addr
        },
        ipv4_of(bind_addr) is None ==> {
            &&& j is AnySource ==> j->AnySource_interface@ == "0.0.0.0"@
            &&& j is SourceSpecific ==> j->SourceSpecific_interface@ == "0.0.0.0"@
        },
{
}

/// The socket of a UDP input can be set up exactly if its address is one, its group, where it has
/// one, is an IPv6 address or an IPv4 multicast address, and its source is an IPv4 address where
/// the group is.
pub proof fn law_input_sockets_open_iff(
    bind_addr: Seq<char>,
    port: u16,
    group: Option<Seq<char>>,
    source: Option<Seq<char>>,
)
    ensures
        input_socket_problem(bind_addr, port, group, source) is None <==> {
            &&& is_socket_address(address_text(bind_addr, port))
            &&& group matches Some(g) ==> match ip_of(g) {
                Some(IpModel::V6(_)) => true,
                Some(IpModel::V4(o)) => o.len() == 4 && 224 <= o[0] <= 239 && (source matches Some(
                    s,
                ) ==> ipv4_of(s) is Some),
                None => false,
            }
        },
{
}

/// The socket of a UDP output is bound to the host that it names, and to any where it names
/// none, with a port that the system picks.
pub proof fn law_outputs_bind_to_their_host(host: String)
    ensures
        output_bind(Some(host)) == address_text(host@, 0),
        output_bind(None) == address_text("0.0.0.0"@, 0),
{
    lemma_port_zero(host@);
    lemma_port_zero("0.0.0.0"@);
    reveal_strlit("0.0.0.0:0");
    reveal_strlit("0.0.0.0");
    reveal_strlit(":0");
    assert("0.0.0.0"@ + ":0"@ =~= "0.0.0.0:0"@);
}

/// Packets for a multicast group live the hops and leave by the interface that the output names,
/// one hop by default; settings for groups count for groups alone.
pub proof fn law_multicast_settings_reach_the_socket(
    host: Seq<char>,
    ttl: Option<u8>,
    interface: Option<String>,
)
    ensures
        ({
            let m = multicast_for(Some(host), ttl, interface);
            let group = match ip_of(host) {
                Some(IpModel::V4(o)) => o.len() == 4 && 224 <= o[0] <= 239,
                Some(IpModel::V6(g)) => g.len() == 8 && g[0] >= 0xff00,
                None => false,
            };
            &&& group && ttl is Some ==> hops(m) == ttl
            &&& group && ttl is None ==> hops(m) == Some(1u8)
            &&& !group ==> hops(m) is None && leaving_interface(m) is None
            &&& group ==> (interface matches Some(i) ==> leaving_interface(m) == (if ipv4_of(i@)
                is Some {
                Some(i@)
            } else {
                None
            }))
            &&& interface is None ==> leaving_interface(m) is None
        }),
        multicast_for(None, ttl, interface) is None,
{
}

// ---------------------------------------------------------------- UDP inputs

/// A task counts every packet with all its bytes, and no other thing of it changes but the
/// window and the time.
pub proof fn law_packets_are_counted(t: UdpInputTask, n: usize, now: u64)
    requires
        t.room_for(n),
    ensures
        t.after_packet(n, now).total_packets == t.total_packets + 1,
        t.after_packet(n, now).total_bytes == t.total_bytes + n,
        t.after_packet(n, now).connected,
        t.after_packet(n, now).last_packet == now,
        t.after_packet(n, now).id == t.id,
        t.after_packet(n, now).name == t.name,
        t.after_packet(n, now).listen_port == t.listen_port,
{
}

/// Statistics come when a second has passed since the last ones, and not before; they tell the
/// totals, and the packets and bits since then.
pub proof fn law_statistics_come_each_second(t: UdpInputTask, n: usize, now: u64)
    requires
        t.room_for(n),
    ensures
        t.report(n, now) is Some <==> now - t.window_start >= 1_000_000_000,
        t.report(n, now) matches Some(s) ==> {
            &&& s.total_packets == t.after_packet(n, now).total_packets
            &&& s.total_bytes == t.after_packet(n, now).total_bytes
            &&& s.packets_per_sec == t.window_packets + 1
            &&& s.bitrate_bps == 8 * (t.window_bytes + n)
            &&& t.after_packet(n, now).window_packets == 0
            &&& t.after_packet(n, now).window_bytes == 0
            &&& t.after_packet(n, now).window_start == now
        },
        t.report(n, now) is None ==> {
            &&& t.after_packet(n, now).window_packets == t.window_packets + 1
            &&& t.after_packet(n, now).window_bytes == t.window_bytes + n
            &&& t.after_packet(n, now).window_start == t.window_start
        },
{
}

/// An input that is connected falls silent when ten seconds have passed since its last packet,
/// and not before; looking at the time changes nothing else.
pub proof fn law_inputs_fall_silent_after_ten_seconds(t: UdpInputTask, now: u64)
    ensures
        t.silent(now) <==> t.connected && now - t.last_packet >= 10_000_000_000,
        t.after_idle(now).connected <==> t.connected && now - t.last_packet < 10_000_000_000,
        t.after_idle(now).total_packets == t.total_packets,
        t.after_idle(now).total_bytes == t.total_bytes,
        t.after_idle(now).window_packets == t.window_packets,
        t.after_idle(now).window_bytes == t.window_bytes,
        t.after_idle(now).window_start == t.window_start,
        t.after_idle(now).last_packet == t.last_packet,
        t.after_idle(now).id == t.id,
        t.after_idle(now).listen_port == t.listen_port,
{
}

/// A notice tells of one stream and one state: no two different ones are told by the same
/// notice, and notices of inputs and outputs are never taken for each other.
pub proof fn law_notices_tell_one_thing(
    n: StateChange,
    a: (i64, StreamStatus, Option<UnixNanos>, Option<Seq<char>>),
    b: (i64, StreamStatus, Option<UnixNanos>, Option<Seq<char>>),
    output: i64,
    other: i64,
)
    ensures
        tells_input(n, a.0, a.1, a.2, a.3) && tells_input(n, b.0, b.1, b.2, b.3) ==> a == b,
        tells_output(n, a.0, output, a.1, a.2, a.3) && tells_output(n, b.0, other, b.1, b.2, b.3)
            ==> a == b && output == other,
        tells_input(n, a.0, a.1, a.2, a.3) ==> !tells_output(n, b.0, output, b.1, b.2, b.3),
{
}

// ---------------------------------------------------------------- what is sent

/// How much updates add to a metric.
pub open spec fn added(u: Seq<MetricUpdateModel>, m: Metric) -> int
    decreases u.len(),
{
    if u.len() == 0 {
        0
    } else {
        added(u.drop_last(), m) + (if u.last().metric == m {
            match u.last().change {
                MetricChange::Increment => 1,
                MetricChange::Decrement => -1,
                MetricChange::IncrementBy(n) => n as int,
                _ => 0,
            }
        } else {
            0
        })
    }
}

/// Every packet that a UDP output is given is counted once: as sent, with its bytes, or as an
/// error.
pub proof fn law_udp_packets_are_sent_or_errors(
    name: Option<String>,
    input_id: i64,
    output_id: i64,
    len: u64,
    sent: bool,
)
    ensures
        ({
            let u = udp_send_metrics(name, input_id, output_id, len, sent);
            &&& added(u, Metric::OutputPacketsSent) == (if sent {
                1int
            } else {
                0
            })
            &&& added(u, Metric::OutputBytesSent) == (if sent {
                len as int
            } else {
                0
            })
            &&& added(u, Metric::StreamErrors) == (if sent {
                0int
            } else {
                1
            })
            &&& forall|i: int|
                0 <= i < u.len() ==> (#[trigger] u[i]).well_labelled() && u[i].labels.contains(
                    signed_decimal(output_id as int),
                ) && u[i].labels.contains("udp"@)
            &&& sent ==> forall|i: int|
                0 <= i < u.len() ==> (#[trigger] u[i]).labels[1] == signed_decimal(
                    input_id as int,
                ) && u[i].labels[2] == signed_decimal(output_id as int)
        }),
{
    reveal_with_fuel(added, 3);
    let u = udp_send_metrics(name, input_id, output_id, len, sent);
    assert forall|i: int| 0 <= i < u.len() implies (#[trigger] u[i]).labels.contains(
        signed_decimal(output_id as int),
    ) && u[i].labels.contains("udp"@) by {
        if sent {
            assert(u[i].labels[2] == signed_decimal(output_id as int));
            assert(u[i].labels[3] == "udp"@);
        } else {
            assert(u[i].labels[1] == signed_decimal(output_id as int));
            assert(u[i].labels[2] == "udp"@);
        }
    }
}

/// Every packet that an SRT output is given is counted once: as sent, with its bytes, where all of
/// it was, and as an error otherwise.
pub proof fn law_srt_packets_are_sent_or_errors(s: SrtSender, len: usize, result: SendResult)
    ensures
        ({
            let u = s.send_metrics(len, result);
            let whole = result matches SendResult::Wrote(n) && n == len;
            &&& added(u, Metric::OutputPacketsSent) == (if whole {
                1int
            } else {
                0
            })
            &&& added(u, Metric::OutputBytesSent) == (if whole {
                len as int
            } else {
                0
            })
            &&& added(u, Metric::StreamErrors) == (if whole {
                0int
            } else {
                1
            })
            &&& forall|i: int|
                0 <= i < u.len() ==> (#[trigger] u[i]).well_labelled() && u[i].labels.contains(
                    signed_decimal(s.output_id as int),
                ) && u[i].labels.contains("srt"@)
            &&& whole ==> forall|i: int|
                0 <= i < u.len() ==> (#[trigger] u[i]).labels[1] == signed_decimal(
                    s.input_id as int,
                ) && u[i].labels[2] == signed_decimal(s.output_id as int)
            &&& result is Failed ==> u[0].labels.contains("send_failed"@)
            &&& result is Wrote && !whole ==> u[0].labels.contains("partial_send"@)
        }),
{
    reveal_with_fuel(added, 3);
    let u = s.send_metrics(len, result);
    let whole = result matches SendResult::Wrote(n) && n == len;
    assert forall|i: int| 0 <= i < u.len() implies (#[trigger] u[i]).labels.contains(
        signed_decimal(s.output_id as int),
    ) && u[i].labels.contains("srt"@) by {
        if whole {
            assert(u[i].labels[2] == signed_decimal(s.output_id as int));
            assert(u[i].labels[3] == "srt"@);
        } else {
            assert(u[i].labels[1] == signed_decimal(s.output_id as int));
            assert(u[i].labels[2] == "srt"@);
        }
    }
    if !whole {
        assert(u[0].labels[3] == (if result is Failed {
            "send_failed"@
        } else {
            "partial_send"@
        }));
    }
}

// ---------------------------------------------------------------- filtered outputs

/// A filtered output is shown at the host and the port that it is sent to, under the older form
/// of the address as under the newer, and a listener at its port, under either name.
pub proof fn law_filtered_outputs_are_shown_where_they_go(
    d: SpsDestinationConfig,
    host: String,
    port: u16,
    addr: String,
)
    ensures
        d matches SpsDestinationConfig::Udp { remote_host, remote_port, destination_addr, .. } ==> {
            &&& destination_addr is None && remote_host == Some(host) && remote_port == Some(port)
                ==> spts_destination(d) == address_text(host@, port)
            &&& destination_addr is None && remote_host is None && remote_port is None
                ==> spts_destination(d) == address_text("127.0.0.1"@, 8000)
            &&& destination_addr == Some(addr) ==> spts_destination(d) == addr@
            &&& spts_start(d) == StreamStatus::Connected
        },
        d matches SpsDestinationConfig::Srt { config } ==> {
            &&& config matches SrtOutputConfig::Caller {
                remote_host,
                remote_port,
                destination_addr,
                ..
            } ==> {
                &&& destination_addr is None && remote_host == Some(host) && remote_port == Some(
                    port,
                ) ==> spts_destination(d) == address_text(host@, port)
                &&& destination_addr is None && remote_host is None && remote_port is None
                    ==> spts_destination(d) == address_text("127.0.0.1"@, 8000)
                &&& destination_addr == Some(addr) ==> spts_destination(d) == addr@
                &&& spts_start(d) == StreamStatus::Connecting
            }
            &&& config matches SrtOutputConfig::Listener { bind_port, listen_port, .. } ==> {
                &&& listen_port == Some(port) ==> spts_destination(d) == seq![':'] + decimal(
                    port as nat,
                )
                &&& listen_port is None && bind_port == Some(port) ==> spts_destination(d)
                    == seq![':'] + decimal(port as nat)
                &&& spts_start(d) == StreamStatus::Listening
            }
        },
{
    reveal_strlit(":");
    assert(":"@ =~= seq![':']);
}

} // verus!
