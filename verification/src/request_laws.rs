//! Laws of requests: what their fields mean, which of them are refused, and what is made of
//! those that are not.
use vstd::prelude::*;
use crate::clock::UnixNanos;
use crate::config::{port_setting, Config};
use crate::creation::{
    destination_step, input_begun, input_port_step, is_draft, is_made_output, output_begun,
    output_port_step, port_step, InputStep, OutputDraft, OutputStep, RefusalModel,
};
use crate::interfaces::{bindable, describes_listing, offered, InterfaceInfo, Listing};
use crate::ip::{ip_of, IpModel};
use crate::naming::{
    input_name, new_destination, new_output_name, output_kind_key, srt_destination, udp_destination,
};
use crate::port_search::{
    binds, can_try, config_ports, in_use, json_number, ConfigPorts, InputPort,
};
use crate::requests::{
    input_type_text, usable_port, CreateInputRequest, CreateOutputRequest, SrtInputConfig,
    SrtOutputConfig,
};
use crate::srt_stream::{SrtSinkWithState, SrtSourceWithState};
use crate::streams::{InputModel, OutputInfo};
use crate::text::{address_text, decimal, opt_text};
use crate::validation::{input_problem, output_problem, Interfaces};

verus! {

// ---------------------------------------------------------------- ports and hosts

/// The port of a UDP input is the one it names, under either name; one that names none has none.
/// It is left to the gateway exactly where the request asks for that, or does not say and names
/// no port or zero.
pub proof fn law_udp_input_port(req: CreateInputRequest, p: u16)
    ensures
        req matches CreateInputRequest::Udp {
            bind_host,
            bind_port,
            automatic_port,
            listen_port,
            ..
        } ==> {
            &&& listen_port == Some(p) ==> req.port() == Some(p) && req.bind_port_or_zero() == p
            &&& listen_port is None && bind_port == Some(p) ==> req.port() == Some(p)
                && req.bind_port_or_zero() == p
            &&& listen_port is None && bind_port is None ==> req.port() is None
                && req.bind_port_or_zero() == 0
            &&& automatic_port == Some(true) ==> req.automatic()
            &&& automatic_port == Some(false) ==> !req.automatic()
            &&& automatic_port is None && bind_port == Some(p) ==> req.automatic() == (p == 0)
            &&& automatic_port is None && bind_port is None && listen_port == Some(p)
                ==> req.automatic() == (p == 0)
            &&& automatic_port is None && bind_port is None && listen_port is None
                ==> req.automatic()
            &&& bind_host matches Some(h) ==> req.host() == h@
            &&& bind_host is None ==> req.host() == "0.0.0.0"@
            &&& req.peer_host() is None && req.peer_port() is None
        },
{
}

/// The port and the host of an SRT input that listens are told as those of a UDP input; one that
/// calls has none, and its port is never left to the gateway.
pub proof fn law_srt_input_port(req: CreateInputRequest, p: u16)
    ensures
        req matches CreateInputRequest::Srt {
            config: SrtInputConfig::Listener {
                bind_host,
                bind_port,
                automatic_port,
                listen_port,
                ..
            },
            ..
        } ==> {
            &&& listen_port == Some(p) ==> req.port() == Some(p) && req.bind_port_or_zero() == p
            &&& listen_port is None && bind_port == Some(p) ==> req.port() == Some(p)
                && req.bind_port_or_zero() == p
            &&& listen_port is None && bind_port is None ==> req.port() is None
                && req.bind_port_or_zero() == 0
            &&& automatic_port == Some(true) ==> req.automatic()
            &&& automatic_port == Some(false) ==> !req.automatic()
            &&& automatic_port is None && bind_port == Some(p) ==> req.automatic() == (p == 0)
            &&& automatic_port is None && bind_port is None && listen_port == Some(p)
                ==> req.automatic() == (p == 0)
            &&& automatic_port is None && bind_port is None && listen_port is None
                ==> req.automatic()
            &&& bind_host matches Some(h) ==> req.host() == h@
            &&& bind_host is None ==> req.host() == "0.0.0.0"@
            &&& req.peer_host() is None && req.peer_port() is None
        },
        req matches CreateInputRequest::Srt { config: SrtInputConfig::Caller { .. }, .. }
            ==> req.port() is None && !req.automatic() && req.bind_port_or_zero() == 0,
        req is Spts ==> req.port() is None && !req.automatic(),
{
}

/// The port and the host of an SRT output that listens are told as those of an input.
pub proof fn law_srt_output_port(req: CreateOutputRequest, p: u16)
    ensures
        req matches CreateOutputRequest::Srt {
            config: SrtOutputConfig::Listener {
                bind_host,
                bind_port,
                automatic_port,
                listen_port,
                ..
            },
            ..
        } ==> {
            &&& listen_port == Some(p) ==> req.port() == Some(p) && req.assigned_port()
                == usable_port(Some(p))
            &&& listen_port is None && bind_port == Some(p) ==> req.port() == Some(p)
                && req.assigned_port() == usable_port(Some(p))
            &&& listen_port is None && bind_port is None ==> req.port() is None
                && req.assigned_port() is None
            &&& automatic_port == Some(true) ==> req.automatic()
            &&& automatic_port == Some(false) ==> !req.automatic()
            &&& automatic_port is None && bind_port == Some(p) ==> req.automatic() == (p == 0)
            &&& automatic_port is None && bind_port is None && listen_port == Some(p)
                ==> req.automatic() == (p == 0)
            &&& automatic_port is None && bind_port is None && listen_port is None
                ==> req.automatic()
            &&& bind_host matches Some(h) ==> req.host() == Some(h@)
            &&& bind_host is None ==> req.host() == Some("0.0.0.0"@)
            &&& req.peer_host() is None && req.peer_port() is None
        },
        req matches CreateOutputRequest::Srt { config: SrtOutputConfig::Caller { .. }, .. }
            ==> req.port() is None && req.host() is None && !req.automatic(),
        p != 0 ==> usable_port(Some(p)) == Some(p),
        usable_port(Some(0)) is None,
        usable_port(None) is None,
{
}

/// Where a UDP output sends: to the host and the port that it names; without them, to those of
/// the older address; an empty host and a zero port count as none.
pub proof fn law_udp_output_peer(
    req: CreateOutputRequest,
    host: Seq<char>,
    port: u16,
)
    requires
        forall|i: int| 0 <= i < host.len() ==> #[trigger] host[i] != ':',
    ensures
        req matches CreateOutputRequest::Udp {
            remote_host,
            remote_port,
            automatic_port,
            destination_addr,
            bind_host,
            ..
        } ==> {
            let legacy = opt_text(destination_addr) == Some(address_text(host, port));
            &&& remote_host matches Some(h) ==> h@.len() > 0 ==> req.peer_host() == Some(h@)
            &&& remote_host matches Some(h) ==> h@.len() == 0 ==> req.peer_host() is None
            &&& remote_host is None && legacy ==> req.peer_host() == Some(host)
            &&& remote_host is None && destination_addr is None ==> req.peer_host() is None
            &&& remote_port == Some(0u16) ==> req.peer_port() is None
            &&& remote_port is Some && remote_port != Some(0u16) ==> req.peer_port() == remote_port
            &&& remote_port is None && legacy ==> req.peer_port() == Some(port)
            &&& remote_port is None && destination_addr is None ==> req.peer_port() is None
            &&& automatic_port == Some(true) ==> req.automatic()
            &&& automatic_port == Some(false) ==> !req.automatic()
            &&& automatic_port is None && destination_addr is None ==> req.automatic() == (
            remote_port is None || remote_port == Some(0u16))
            &&& req.port() is None
            &&& req.host() == opt_text(bind_host)
            &&& req.assigned_port() == usable_port(remote_port)
        },
{
    crate::text_laws::law_address_round_trip(host, port);
}

/// What an SRT output that calls connects to is told as where a UDP output sends, and the same
/// goes for an SRT input that calls.
pub proof fn law_srt_caller_peer(
    out: SrtOutputConfig,
    input: SrtInputConfig,
    host: Seq<char>,
    port: u16,
)
    requires
        forall|i: int| 0 <= i < host.len() ==> #[trigger] host[i] != ':',
    ensures
        out matches SrtOutputConfig::Caller { remote_host, remote_port, destination_addr, .. } ==> {
            let legacy = opt_text(destination_addr) == Some(address_text(host, port));
            &&& remote_host matches Some(h) ==> h@.len() > 0 ==> out.peer_host() == Some(h@)
            &&& remote_host matches Some(h) ==> h@.len() == 0 ==> out.peer_host() is None
            &&& remote_host is None && legacy ==> out.peer_host() == Some(host)
            &&& remote_host is None && destination_addr is None ==> out.peer_host() is None
            &&& remote_port == Some(0u16) ==> out.peer_port() is None
            &&& remote_port is Some && remote_port != Some(0u16) ==> out.peer_port() == remote_port
            &&& remote_port is None && legacy ==> out.peer_port() == Some(port)
            &&& remote_port is None && destination_addr is None ==> out.peer_port() is None
            &&& out.assigned_port() == usable_port(remote_port)
        },
        input matches SrtInputConfig::Caller { remote_host, remote_port, target_addr, .. } ==> {
            let legacy = opt_text(target_addr) == Some(address_text(host, port));
            &&& remote_host matches Some(h) ==> h@.len() > 0 ==> input.peer_host() == Some(h@)
            &&& remote_host matches Some(h) ==> h@.len() == 0 ==> input.peer_host() is None
            &&& remote_host is None && legacy ==> input.peer_host() == Some(host)
            &&& remote_host is None && target_addr is None ==> input.peer_host() is None
            &&& remote_port == Some(0u16) ==> input.peer_port() is None
            &&& remote_port is Some && remote_port != Some(0u16) ==> input.peer_port()
                == remote_port
            &&& remote_port is None && legacy ==> input.peer_port() == Some(port)
            &&& remote_port is None && target_addr is None ==> input.peer_port() is None
        },
{
    crate::text_laws::law_address_round_trip(host, port);
}

/// Assigning a port changes the port of a request and nothing else: hosts, names, groups and SRT
/// settings stay. A port that was assigned is no longer left to the gateway.
pub proof fn law_assigning_a_port_changes_nothing_else(
    req: CreateInputRequest,
    out: CreateOutputRequest,
    port: u16,
)
    ensures
        req.with_port(port).host() == req.host(),
        req.with_port(port).peer_host() == req.peer_host(),
        req.with_port(port).peer_port() == req.peer_port(),
        req.with_port(port).given_name() == req.given_name(),
        req.with_port(port).kind_key() == req.kind_key(),
        req is Udp ==> req.with_port(port) is Udp && req.with_port(port)->multicast_group
            == req->multicast_group && req.with_port(port)->source_specific_multicast
            == req->source_specific_multicast && req.with_port(port).port() == Some(port),
        req is Srt ==> req.with_port(port) is Srt && req.with_port(port)->config.common_config()
            == req->config.common_config(),
        req matches CreateInputRequest::Srt { config: SrtInputConfig::Listener { .. }, .. }
            ==> req.with_port(port).port() == Some(port),
        req matches CreateInputRequest::Srt { config: SrtInputConfig::Caller { .. }, .. }
            ==> req.with_port(port) == req,
        req is Spts ==> req.with_port(port) == req,
        out.with_port(port).host() == out.host(),
        out.with_port(port).peer_host() == out.peer_host(),
        out.with_port(port).given_name() == out.given_name(),
        out.with_port(port).of_input() == out.of_input(),
        out is Udp ==> out.with_port(port) is Udp && out.with_port(port)->multicast_ttl
            == out->multicast_ttl && out.with_port(port)->multicast_interface
            == out->multicast_interface && (port != 0 ==> out.with_port(port).peer_port() == Some(
            port,
        )),
        out is Srt ==> out.with_port(port) is Srt && out.with_port(port)->config.common_config()
            == out->config.common_config(),
        out matches CreateOutputRequest::Srt { config: SrtOutputConfig::Listener { .. }, .. }
            ==> out.with_port(port).port() == Some(port) && (port != 0
            ==> !out.with_port(port).automatic()),
        out matches CreateOutputRequest::Srt { config: SrtOutputConfig::Caller { .. }, .. }
            ==> out.with_port(port) == out,
{
}

// ---------------------------------------------------------------- names and destinations

/// A stream that is given no name is named after what it is and where it listens or connects.
pub proof fn law_streams_are_named_after_their_ports(req: CreateInputRequest, p: u16)
    requires
        req.given_name() is None,
    ensures
        req is Udp && req.port() == Some(p) ==> input_name(req) == "UDP Listener "@ + decimal(
            p as nat,
        ),
        req is Srt && req->config is Listener && req.port() == Some(p) ==> input_name(req)
            == "SRT Listener "@ + decimal(p as nat),
        req is Srt && req->config is Caller && req.peer_host() is Some && req.peer_port() == Some(p)
            ==> input_name(req) == "SRT Caller "@ + address_text(req.peer_host()->0, p),
{
}

/// Outputs that are given no name are named after where they send or listen, and are shown
/// there.
pub proof fn law_outputs_are_named_after_their_destinations(
    req: CreateOutputRequest,
    host: Seq<char>,
    p: u16,
)
    ensures
        req is Udp && req.peer_host() == Some(host) && req.peer_port() == Some(p) ==> {
            &&& udp_destination(req) == address_text(host, p)
            &&& new_destination(req) == (address_text(host, p), None::<u16>)
            &&& req.given_name() is None ==> new_output_name(req) == "UDP Output to "@
                + address_text(host, p)
        },
        req is Udp && req.peer_host() is None && req.peer_port() is None ==> udp_destination(req)
            == address_text("127.0.0.1"@, 8000),
        req is Srt && req->config is Caller && req.peer_host() == Some(host) && req.peer_port()
            == Some(p) ==> {
            &&& srt_destination(req->config) == address_text(host, p)
            &&& new_destination(req) == (address_text(host, p), None::<u16>)
            &&& req.given_name() is None ==> new_output_name(req) == "SRT Caller to "@
                + address_text(host, p)
        },
        req is Srt && req->config is Listener && req.port() == Some(p) ==> {
            &&& srt_destination(req->config) == seq![':'] + decimal(p as nat)
            &&& new_destination(req) == (seq![':'] + decimal(p as nat), Some(p))
            &&& req.given_name() is None ==> new_output_name(req) == "SRT Listener on "@ + decimal(
                p as nat,
            )
        },
        req.given_name() matches Some(n) ==> new_output_name(req) == n@,
{
    reveal_strlit(":");
    assert(":"@ =~= seq![':']);
}

/// The destination under which a new output is looked for among those that exist is where its
/// socket will send or listen.
pub proof fn law_conflicts_are_looked_for_at_the_real_destination(
    config: SrtOutputConfig,
    input_id: i64,
    output_id: i64,
    name: Option<String>,
)
    ensures
        ({
            let sink = SrtSinkWithState { config, input_id, output_id };
            let (shown, listen) = new_destination(
                CreateOutputRequest::Srt { input_id, name, config },
            );
            &&& config is Caller ==> shown == sink.address() && listen is None
            &&& config is Listener ==> listen is Some && sink.address() == address_text(
                config.host()->0,
                listen->0,
            )
        }),
{
}

/// An SRT input listens on its host and its port, or connects to the peer that it names.
pub proof fn law_srt_input_address(source: SrtSourceWithState, host: Seq<char>, port: u16)
    ensures
        source.config is Listener && source.config.host() == host && source.config.port() == Some(
            port,
        ) ==> source.address() == address_text(host, port),
        source.config is Caller && source.config.peer_host() == Some(host)
            && source.config.peer_port() == Some(port) ==> source.address() == address_text(
            host,
            port,
        ),
        source.config is Caller && source.config.peer_host() is None && source.config.peer_port()
            is None ==> source.address() == address_text("127.0.0.1"@, 8000),
{
}

/// An SRT output listens on its host and its port, or connects to the peer that it names.
pub proof fn law_srt_output_address(sink: SrtSinkWithState, host: Seq<char>, port: u16)
    ensures
        sink.config is Listener && sink.config.host() == Some(host) && sink.config.port() == Some(
            port,
        ) ==> sink.address() == address_text(host, port),
        sink.config is Caller && sink.config.peer_host() == Some(host) && sink.config.peer_port()
            == Some(port) ==> sink.address() == address_text(host, port),
        sink.config is Caller && sink.config.peer_host() is None && sink.config.peer_port() is None
            ==> sink.address() == address_text("127.0.0.1"@, 8000),
{
}

// ---------------------------------------------------------------- the interfaces

/// Every address that the machine lists is described, under the name of its interface and with
/// the word for its kind, and nothing else is.
pub proof fn law_every_listed_address_is_described(
    infos: Vec<InterfaceInfo>,
    listing: Listing,
    k: int,
)
    requires
        describes_listing(Ok(infos), listing),
    ensures
        listing is Ok,
        infos@.len() == listing->Ok_0@.len(),
        0 <= k < infos@.len() ==> {
            let l = listing->Ok_0@[k];
            &&& infos@[k].name == l.name
            &&& infos@[k].ip == l.ip
            &&& infos@[k].is_loopback == l.is_loopback
            &&& infos@[k].is_up
            &&& infos@[k].interface_type@ == (if l.is_loopback {
                "loopback"@
            } else {
                "ethernet"@
            })
        },
        0 <= k < infos@.len() ==> offered(infos@, listing->Ok_0@[k].ip@),
{
    if 0 <= k < infos@.len() {
        assert(crate::interfaces::describes(infos@[k], listing->Ok_0@[k]));
    }
}

/// Whether an address is that of an interface, or stands for all of them.
pub open spec fn has_address(interfaces: Interfaces, addr: Seq<char>) -> bool {
    ||| addr == "0.0.0.0"@
    ||| addr == "::"@
    ||| ip_of(addr) is Some && interfaces is Ok && exists|k: int|
        0 <= k < interfaces->Ok_0@.len() && ip_of((#[trigger] interfaces->Ok_0@[k]).ip@) == ip_of(
            addr,
        )
}

/// A stream can bind to an address exactly if an interface has it, or it stands for all of
/// them.
pub proof fn law_bindable_means_on_an_interface(addr: Seq<char>, interfaces: Interfaces)
    ensures
        bindable(addr, interfaces) <==> has_address(interfaces, addr),
{
    if has_address(interfaces, addr) && addr != "0.0.0.0"@ && addr != "::"@ {
        let k = choose|k: int|
            0 <= k < interfaces->Ok_0@.len() && ip_of((#[trigger] interfaces->Ok_0@[k]).ip@)
                == ip_of(addr);
        assert(ip_of(interfaces->Ok_0@[k].ip@) == Some(ip_of(addr)->0));
    }
    if bindable(addr, interfaces) && addr != "0.0.0.0"@ && addr != "::"@ {
        let infos = interfaces->Ok_0@;
        let k = choose|k: int|
            0 <= k < infos.len() && ip_of((#[trigger] infos[k]).ip@) == Some(ip_of(addr)->0);
        assert(ip_of(interfaces->Ok_0@[k].ip@) == ip_of(addr));
    }
}

/// Whether a field is missing or empty, or holds an address that a stream can bind to.
pub open spec fn fits_machine(field: Option<String>, interfaces: Interfaces) -> bool {
    field matches Some(a) ==> a@.len() == 0 || has_address(interfaces, a@)
}

/// Whether a field is missing or empty, or holds an address of a group.
pub open spec fn fits_group(field: Option<String>) -> bool {
    field matches Some(g) ==> g@.len() == 0 || (ip_of(g@) matches Some(a) && match a {
        IpModel::V4(o) => o.len() == 4 && 224 <= o[0] <= 239,
        IpModel::V6(g) => g.len() == 8 && g[0] >= 0xff00,
    })
}

/// A UDP input passes the checks exactly if its bind address is one of the machine, its group
/// is a multicast address, and a source comes with a group and is an address; each may be
/// missing or empty.
pub proof fn law_udp_input_passes_iff(config: CreateInputRequest, interfaces: Interfaces)
    requires
        config is Udp,
    ensures
        input_problem(config, interfaces) is None <==> {
            let source = config->source_specific_multicast;
            let group = config->multicast_group;
            &&& fits_machine(config->Udp_bind_host, interfaces)
            &&& fits_group(group)
            &&& source matches Some(a) ==> a@.len() > 0 ==> (group matches Some(g) && g@.len()
                > 0) && ip_of(a@) is Some
        },
{
    if let Some(a) = config->Udp_bind_host {
        law_bindable_means_on_an_interface(a@, interfaces);
        crate::ip_laws::law_wildcards_are_addresses();
    }
}

/// An SRT input passes the checks exactly if its bind address is one of the machine; a program
/// filter always does.
pub proof fn law_srt_input_passes_iff(config: CreateInputRequest, interfaces: Interfaces)
    ensures
        config is Spts ==> input_problem(config, interfaces) is None,
        config matches CreateInputRequest::Srt {
            config: SrtInputConfig::Listener { bind_host, .. },
            ..
        } ==> (input_problem(config, interfaces) is None <==> fits_machine(bind_host, interfaces)),
        config matches CreateInputRequest::Srt {
            config: SrtInputConfig::Caller { bind_host, .. },
            ..
        } ==> (input_problem(config, interfaces) is None <==> fits_machine(bind_host, interfaces)),
{
    let host = match config {
        CreateInputRequest::Srt { config: SrtInputConfig::Listener { bind_host, .. }, .. } =>
            bind_host,
        CreateInputRequest::Srt { config: SrtInputConfig::Caller { bind_host, .. }, .. } =>
            bind_host,
        _ => None,
    };
    if let Some(a) = host {
        law_bindable_means_on_an_interface(a@, interfaces);
        crate::ip_laws::law_wildcards_are_addresses();
    }
}

/// A UDP output passes the checks exactly if its bind address and its multicast interface are
/// addresses of the machine and its multicast packets live at least one hop; an SRT output, if
/// its bind address is.
pub proof fn law_output_passes_iff(config: CreateOutputRequest, interfaces: Interfaces)
    ensures
        config matches CreateOutputRequest::Udp {
            bind_host,
            multicast_ttl,
            multicast_interface,
            ..
        } ==> (output_problem(config, interfaces) is None <==> fits_machine(bind_host, interfaces)
            && fits_machine(multicast_interface, interfaces) && multicast_ttl != Some(0u8)),
        config matches CreateOutputRequest::Srt {
            config: SrtOutputConfig::Listener { bind_host, .. },
            ..
        } ==> (output_problem(config, interfaces) is None <==> fits_machine(bind_host, interfaces)),
        config matches CreateOutputRequest::Srt {
            config: SrtOutputConfig::Caller { bind_host, .. },
            ..
        } ==> (output_problem(config, interfaces) is None <==> fits_machine(bind_host, interfaces)),
{
    crate::ip_laws::law_wildcards_are_addresses();
    let (host, leaving) = match config {
        CreateOutputRequest::Udp { bind_host, multicast_interface, .. } => (
            bind_host,
            multicast_interface,
        ),
        CreateOutputRequest::Srt { config: SrtOutputConfig::Listener { bind_host, .. }, .. } => (
            bind_host,
            None,
        ),
        CreateOutputRequest::Srt { config: SrtOutputConfig::Caller { bind_host, .. }, .. } => (
            bind_host,
            None,
        ),
    };
    if let Some(a) = host {
        law_bindable_means_on_an_interface(a@, interfaces);
    }
    if let Some(a) = leaving {
        law_bindable_means_on_an_interface(a@, interfaces);
    }
}

// ---------------------------------------------------------------- the steps of a request

/// An input that names a bind address which the machine lists is not refused for it, and one
/// that names an address which the machine does not list is refused.
pub proof fn law_listed_bind_addresses_are_accepted(
    r: InputStep,
    streams: Map<i64, InputModel>,
    req: CreateInputRequest,
    infos: Vec<InterfaceInfo>,
    listing: Listing,
    addr: String,
    k: int,
)
    requires
        describes_listing(Ok(infos), listing),
        input_begun(r, streams, req, Ok(infos)),
        req matches CreateInputRequest::Udp {
            bind_host,
            multicast_group,
            source_specific_multicast,
            ..
        } && bind_host == Some(addr) && multicast_group is None && source_specific_multicast
            is None,
        addr@.len() > 0,
        ip_of(addr@) is Some,
    ensures
        0 <= k < listing->Ok_0@.len() && listing->Ok_0@[k].ip@ == addr@ ==> !(r is Refused),
        addr@ != "0.0.0.0"@ && addr@ != "::"@ && (forall|j: int|
            0 <= j < listing->Ok_0@.len() ==> ip_of((#[trigger] listing->Ok_0@[j]).ip@) != ip_of(
                addr@,
            )) ==> r is Refused && r->Refused_0@ is BadRequest,
{
    let interfaces: Interfaces = Ok(infos);
    law_udp_input_passes_iff(req, interfaces);
    if 0 <= k < listing->Ok_0@.len() && listing->Ok_0@[k].ip@ == addr@ {
        law_every_listed_address_is_described(infos, listing, k);
        assert(ip_of(interfaces->Ok_0@[k].ip@) == ip_of(addr@));
    }
    if has_address(interfaces, addr@) && addr@ != "0.0.0.0"@ && addr@ != "::"@ {
        let j = choose|j: int|
            0 <= j < interfaces->Ok_0@.len() && ip_of((#[trigger] interfaces->Ok_0@[j]).ip@)
                == ip_of(addr@);
        law_every_listed_address_is_described(infos, listing, j);
        assert(ip_of(listing->Ok_0@[j].ip@) == ip_of(addr@));
    }
}

/// A request for an input that has no problem goes on as it came: to the database where its port
/// is settled, and to the search for a port where it is left to the gateway. Only a filter of an
/// input that is not known is refused. A request with a problem is refused for it.
pub proof fn law_sound_inputs_go_on(
    r: InputStep,
    streams: Map<i64, InputModel>,
    req: CreateInputRequest,
    interfaces: Interfaces,
)
    requires
        input_begun(r, streams, req, interfaces),
    ensures
        input_problem(req, interfaces) matches Some(p) ==> r is Refused && r->Refused_0@
            == RefusalModel::BadRequest(p),
        input_problem(req, interfaces) is None ==> {
            let known = req matches CreateInputRequest::Spts { source_input_id, .. }
                ==> streams.contains_key(source_input_id);
            &&& r is Refused <==> !known
            &&& !known ==> r->Refused_0@ is NotFound
            &&& known && !req.automatic() ==> r is Save && r->Save_0.req == req
                && r->Save_0.assigned_port is None
            &&& known && req.automatic() ==> r is FindPort && r->req == req
            &&& r is Save && req.given_name() is Some ==> opt_text(r->Save_0.name) == opt_text(
                req.given_name(),
            )
            &&& r is FindPort && req.given_name() is Some ==> opt_text(r->name) == opt_text(
                req.given_name(),
            )
        },
{
}

/// An input for which a port was found is saved with that port and otherwise as it came, under
/// the name that it had; one for which none was found is refused.
pub proof fn law_found_input_port_is_saved(
    r: InputStep,
    req: CreateInputRequest,
    name: Option<String>,
    found: Result<u16, String>,
)
    requires
        input_port_step(r, req, name, found),
    ensures
        found is Err ==> r is Refused && r->Refused_0@ is Internal,
        found matches Ok(port) ==> r is Save && r->Save_0.name == name && r->Save_0.assigned_port
            == Some(port) && r->Save_0.req.host() == req.host() && r->Save_0.req.kind_key()
            == req.kind_key() && (req is Udp ==> r->Save_0.req.port() == Some(port)),
{
    if let Ok(port) = found {
        law_assigning_a_port_changes_nothing_else(
            req,
            CreateOutputRequest::Srt {
                input_id: 0,
                name: None,
                config: SrtOutputConfig::Listener {
                    bind_host: None,
                    bind_port: None,
                    automatic_port: None,
                    common: req->config.common_config(),
                    listen_port: None,
                },
            },
            port,
        );
    }
}

/// An output for which a port was found goes on with that port and otherwise as it came; one for
/// which none was found is refused.
pub proof fn law_found_output_port_is_used(
    r: OutputStep,
    req: CreateOutputRequest,
    found: Result<u16, String>,
)
    requires
        output_port_step(r, req, found),
    ensures
        found is Err <==> r is Refused,
        found is Err ==> r->Refused_0@ is Internal,
        found matches Ok(port) ==> {
            let d = r->CheckDestination_0;
            &&& r is CheckDestination
            &&& d.assigned_port == Some(port)
            &&& d.input_id == req.of_input()
            &&& d.req.peer_host() == req.peer_host()
            &&& d.req.given_name() == req.given_name()
            &&& req is Udp && port != 0 ==> d.req.peer_port() == Some(port)
            &&& req is Srt && req->config is Listener ==> d.listen_port == Some(port)
            &&& req.given_name() matches Some(n) ==> d.name@ == n@
        },
{
}

/// A request for an output that has no problem, and whose input is known, goes on as it came;
/// any other is refused.
pub proof fn law_sound_outputs_go_on(
    r: OutputStep,
    streams: Map<i64, InputModel>,
    req: CreateOutputRequest,
    interfaces: Interfaces,
)
    requires
        output_begun(r, streams, req, interfaces),
    ensures
        r is Refused <==> output_problem(req, interfaces) is Some || !streams.contains_key(
            req.of_input(),
        ),
        output_problem(req, interfaces) matches Some(p) ==> r->Refused_0@
            == RefusalModel::BadRequest(p),
        output_problem(req, interfaces) is None && !streams.contains_key(req.of_input())
            ==> r->Refused_0@ is NotFound,
        !(r is Refused) && req.automatic() ==> r == OutputStep::FindPort(req),
        !(r is Refused) && !req.automatic() ==> {
            &&& r is CheckDestination
            &&& r->CheckDestination_0.req == req
            &&& r->CheckDestination_0.input_id == req.of_input()
            &&& r->CheckDestination_0.assigned_port is None
            &&& req is Udp ==> r->CheckDestination_0.destination@ == udp_destination(req)
                && r->CheckDestination_0.listen_port is None
            &&& req is Srt && req->config is Listener && req.port() is Some
                ==> r->CheckDestination_0.listen_port == req.port()
        },
{
}

/// An output is refused for a conflict exactly where the database knows one: of its destination,
/// and, where it listens, of its port.
pub proof fn law_conflicts_are_refused(
    draft: OutputDraft,
    exists_already: Result<bool, String>,
    conflict: Result<bool, String>,
    port: u16,
    second: OutputStep,
    third: OutputStep,
)
    requires
        destination_step(second, draft, exists_already),
        port_step(third, draft, port, conflict),
    ensures
        (second is Refused && second->Refused_0@ is Conflict) <==> exists_already == Ok::<
            bool,
            String,
        >(true),
        (second is Refused && second->Refused_0@ is Internal) <==> exists_already is Err,
        exists_already == Ok::<bool, String>(false) ==> (match draft.listen_port {
            Some(p) => second == OutputStep::CheckPort(draft, p),
            None => second == OutputStep::Save(draft),
        }),
        (third is Refused && third->Refused_0@ is Conflict) <==> conflict == Ok::<bool, String>(
            true,
        ),
        (third is Refused && third->Refused_0@ is Internal) <==> conflict is Err,
        conflict == Ok::<bool, String>(false) ==> third == OutputStep::Save(draft),
{
}

/// An output that was made follows its request: it has the number that the database gave it and
/// hangs on the input that it asked for; a UDP output sends where the request says, and an SRT
/// output has the very SRT side of the request.
pub proof fn law_made_output_follows_the_request(
    o: OutputInfo,
    draft: OutputDraft,
    req: CreateOutputRequest,
    assigned: Option<u16>,
    id: i64,
    now: UnixNanos,
)
    requires
        is_draft(draft, req, assigned),
        is_made_output(o, draft, id, now),
    ensures
        o.id == id,
        o.input_id == req.of_input(),
        o.config.of_input() == req.of_input(),
        o.started_at == Some(now),
        o.status.active(),
        o.kind.key() == output_kind_key(req),
        req.given_name() is Some ==> o.name == req.given_name(),
        opt_text(o.name) == Some(new_output_name(req)),
        req is Udp ==> {
            &&& o.config is Udp
            &&& o.destination@ == udp_destination(req)
            &&& o.config->bind_host == req->bind_host
            &&& opt_text(o.config->destination_addr) == Some(udp_destination(req))
            &&& req->Udp_remote_host matches Some(h) ==> crate::ip::is_multicast_text(h@)
                ==> o.config->multicast_ttl == Some(
                match req->multicast_ttl {
                    Some(t) => t,
                    None => 1u8,
                },
            ) && o.config->multicast_interface == req->multicast_interface
        },
        req is Srt ==> {
            &&& o.config is Srt
            &&& o.config->config == req->config
            &&& o.destination@ == srt_destination(req->config)
        },
{
}

/// The word for the kind of an output differs from kind to kind, and so does that of an input.
pub proof fn law_kinds_have_their_own_words(a: CreateOutputRequest, b: CreateOutputRequest)
    ensures
        (a is Udp) == (output_kind_key(a) == "udp"@),
        (a is Srt && a->config is Caller) == (output_kind_key(a) == "srt_caller"@),
        (a is Srt && a->config is Listener) == (output_kind_key(a) == "srt_listener"@),
        output_kind_key(a) == output_kind_key(b) ==> (a is Udp) == (b is Udp),
{
    reveal_strlit("udp");
    reveal_strlit("srt_caller");
    reveal_strlit("srt_listener");
    assert("udp"@.len() == 3);
    assert("srt_caller"@.len() == 10);
    assert("srt_listener"@.len() == 12);
}

/// The kind of an input is stored by a word of its own and shown by a name of its own.
pub proof fn law_input_kinds_have_their_own_words(req: CreateInputRequest)
    ensures
        (req is Udp) == (req.kind_key() == "udp"@),
        (req is Srt && req->config is Listener) == (req.kind_key() == "srt_listener"@),
        (req is Srt && req->config is Caller) == (req.kind_key() == "srt_caller"@),
        (req is Spts) == (req.kind_key() == "spts"@),
        req is Udp ==> input_type_text(req.kind_key()) == "UDP Listener"@,
        req is Srt && req->config is Listener ==> input_type_text(req.kind_key())
            == "SRT Listener"@,
        req is Srt && req->config is Caller ==> input_type_text(req.kind_key()) == "SRT Caller"@,
        req is Spts ==> input_type_text(req.kind_key()) == "SPTS Filter"@,
{
    reveal_strlit("udp");
    reveal_strlit("srt_caller");
    reveal_strlit("srt_listener");
    reveal_strlit("spts");
    assert("udp"@.len() == 3);
    assert("spts"@.len() == 4);
    assert("srt_caller"@.len() == 10);
    assert("srt_listener"@.len() == 12);
}

// ---------------------------------------------------------------- free ports

/// A port that can be tried lies in the range of the settings, which is that of the variables
/// where they hold ports, and is neither in use nor was refused; every such port can be tried.
pub proof fn law_ports_to_try(
    config: Config,
    used: Set<u16>,
    refused: Set<u16>,
    port: u16,
    value: Option<String>,
    other: u16,
)
    ensures
        can_try(config, used, refused, port) <==> config.auto_port_range_start <= port && port
            < config.auto_port_range_end && !used.contains(port) && !refused.contains(port),
        value is None ==> port_setting(value, other) == other,
        opt_text(value) == Some(decimal(port as nat)) ==> port_setting(value, other) == port,
{
    crate::text_laws::law_port_text_round_trip(port);
}

/// A port is in use exactly if an output listens on it or the configuration of an input names
/// it, under either name.
pub proof fn law_ports_in_use(
    listen_ports: Seq<Option<i32>>,
    configs: Seq<ConfigPorts>,
    port: u16,
    k: int,
)
    ensures
        0 <= k < listen_ports.len() && listen_ports[k] == Some(port as i32) ==> in_use(
            listen_ports,
            configs,
            port,
        ),
        0 <= k < configs.len() && configs[k].listen_port == Some(port as u64) ==> in_use(
            listen_ports,
            configs,
            port,
        ),
        0 <= k < configs.len() && configs[k].bind_port == Some(port as u64) ==> in_use(
            listen_ports,
            configs,
            port,
        ),
        (forall|j: int| 0 <= j < listen_ports.len() ==> (#[trigger] listen_ports[j] matches Some(p)
            ==> 0 <= p <= 65535 && p != port)) && (forall|j: int|
            0 <= j < configs.len() ==> ((#[trigger] configs[j]).listen_port matches Some(p) ==> p
                <= 65535 && p != port) && (configs[j].bind_port matches Some(p) ==> p <= 65535 && p
                != port)) ==> !in_use(listen_ports, configs, port),
{
    assert((port as i32) as u16 == port) by (bit_vector);
    assert((port as u64) as u16 == port) by (bit_vector);
}

/// A port that the stored configuration of an input names, under either name, is in use.
pub proof fn law_stored_ports_are_in_use(
    listen_ports: Seq<Option<i32>>,
    texts: Seq<String>,
    port: u16,
    k: int,
)
    requires
        0 <= k < texts.len(),
        json_number(texts[k]@, "listen_port"@) == Some(port as u64) || json_number(
            texts[k]@,
            "bind_port"@,
        ) == Some(port as u64),
    ensures
        in_use(listen_ports, texts.map_values(|c: String| config_ports(c@)), port),
{
    let configs = texts.map_values(|c: String| config_ports(c@));
    assert(configs[k] == config_ports(texts[k]@));
    law_ports_in_use(listen_ports, configs, port, k);
}

/// A port conflicts with an input exactly if another input than the one left out binds to it.
pub proof fn law_inputs_hold_their_ports(i: InputPort, port: u16, exclude: Option<i64>)
    ensures
        port == 0 ==> !binds(i, port, exclude),
        exclude == Some(i.id) ==> !binds(i, port, exclude),
        i.config is None ==> !binds(i, port, exclude),
        port != 0 && exclude != Some(i.id) && i.config is Some ==> (binds(i, port, exclude) <==>
            i.config->0.port() == Some(port)),
{
}

} // verus!
