//! Names and destinations of streams.
use vstd::prelude::*;
use crate::ip::{is_multicast_text, names_multicast};
use crate::requests::{
    CreateInputRequest, CreateOutputRequest, SrtInputConfig, SrtOutputConfig,
};
use crate::text::{
    address_of, address_text, clone_text, decimal, decimal_text, join2, join4, opt_text,
    signed_decimal, signed_decimal_text, text_eq,
};

verus! {

// ---------------------------------------------------------------- inputs

/// `SPTS Program` and its number, `from Input` and the number of the source.
pub open spec fn spts_input_name(program_number: u16, source_input_id: i64) -> Seq<char> {
    "SPTS Program "@ + decimal(program_number as nat) + " from Input "@ + signed_decimal(
        source_input_id as int,
    )
}

/// The name of an input that was given none.
pub open spec fn auto_input_name(req: CreateInputRequest) -> Seq<char> {
    match req {
        CreateInputRequest::Udp { .. } => "UDP Listener "@ + decimal(
            req.bind_port_or_zero() as nat,
        ),
        CreateInputRequest::Srt { config, .. } => match config {
            SrtInputConfig::Listener { .. } => "SRT Listener "@ + decimal(
                req.bind_port_or_zero() as nat,
            ),
            SrtInputConfig::Caller { .. } => "SRT Caller "@ + peer_text(
                config.peer_host(),
                config.peer_port(),
                "unknown"@,
                0,
            ),
        },
        CreateInputRequest::Spts { program_number, source_input_id, .. } => spts_input_name(
            program_number,
            source_input_id,
        ),
    }
}

/// `host:port` with defaults for what is missing.
pub open spec fn peer_text(
    host: Option<Seq<char>>,
    port: Option<u16>,
    default_host: Seq<char>,
    default_port: u16,
) -> Seq<char> {
    address_text(
        match host {
            Some(h) => h,
            None => default_host,
        },
        match port {
            Some(p) => p,
            None => default_port,
        },
    )
}

fn peer(
    host: Option<String>,
    port: Option<u16>,
    default_host: &str,
    default_port: u16,
) -> (r: String)
    ensures
        r@ == peer_text(opt_text(host), port, default_host@, default_port),
{
    let p: u16 = match port {
        Some(p) => p,
        None => default_port,
    };
    match host {
        Some(h) => address_of(h.as_str(), p),
        None => address_of(default_host, p),
    }
}

fn numbered(prefix: &str, n: u16) -> (r: String)
    ensures
        r@ == prefix@ + decimal(n as nat),
{
    let d = decimal_text(n as u64);
    join2(prefix, d.as_str())
}

/// The name of a program filter that was given none.
pub fn name_spts_input(program_number: u16, source_input_id: i64) -> (r: String)
    ensures
        r@ == spts_input_name(program_number, source_input_id),
{
    let p = decimal_text(program_number as u64);
    let i = signed_decimal_text(source_input_id);
    join4("SPTS Program ", p.as_str(), " from Input ", i.as_str())
}

/// The name that a request gives to its input.
pub fn get_name_from_request(req: &CreateInputRequest) -> (r: Option<String>)
    ensures
        r == req.given_name(),
{
    match req {
        CreateInputRequest::Udp { name, .. } => clone_text(name),
        CreateInputRequest::Srt { name, .. } => clone_text(name),
        CreateInputRequest::Spts { name, .. } => clone_text(name),
    }
}

/// A name that describes the input.
pub fn generate_input_name(req: &CreateInputRequest) -> (r: Option<String>)
    ensures
        opt_text(r) == Some(auto_input_name(*req)),
{
    let name = match req {
        CreateInputRequest::Udp { .. } => numbered("UDP Listener ", req.get_bind_port()),
        CreateInputRequest::Srt { config, .. } => match config {
            SrtInputConfig::Listener { .. } => numbered("SRT Listener ", config.get_bind_port()),
            SrtInputConfig::Caller { .. } => {
                let p = peer(config.get_remote_host(), config.get_remote_port(), "unknown", 0);
                join2("SRT Caller ", p.as_str())
            },
        },
        CreateInputRequest::Spts { program_number, source_input_id, .. } => name_spts_input(
            *program_number,
            *source_input_id,
        ),
    };
    Some(name)
}

/// The name of an input: the one it was given, or one that describes it.
pub open spec fn input_name(req: CreateInputRequest) -> Seq<char> {
    match req.given_name() {
        Some(n) => n@,
        None => auto_input_name(req),
    }
}

/// The name of an input: the one it was given, or one that describes it.
pub fn name_input(req: &CreateInputRequest) -> (r: Option<String>)
    ensures
        opt_text(r) == Some(input_name(*req)),
        req.given_name() is Some ==> r == req.given_name(),
{
    match get_name_from_request(req) {
        Some(n) => Some(n),
        None => generate_input_name(req),
    }
}

// ---------------------------------------------------------------- outputs

/// Where a UDP output sends, by default to port 8000 of this machine.
pub open spec fn udp_destination(req: CreateOutputRequest) -> Seq<char> {
    peer_text(req.peer_host(), req.peer_port(), "127.0.0.1"@, 8000)
}

/// Where an SRT output sends or listens, as it is shown.
pub open spec fn srt_destination(config: SrtOutputConfig) -> Seq<char> {
    match config {
        SrtOutputConfig::Caller { .. } => peer_text(
            config.peer_host(),
            config.peer_port(),
            "unknown"@,
            0,
        ),
        SrtOutputConfig::Listener { .. } => ":"@ + decimal(
            match config.port() {
                Some(p) => p as nat,
                None => 0,
            },
        ),
    }
}

/// Where an output sends or listens, as it is shown.
pub open spec fn shown_destination(req: CreateOutputRequest) -> Seq<char> {
    match req {
        CreateOutputRequest::Udp { .. } => udp_destination(req),
        CreateOutputRequest::Srt { config, .. } => srt_destination(config),
    }
}

/// The destination under which a new output is looked for among those that exist, and the port
/// that it listens on: the defaults are those that the socket will use.
pub open spec fn new_destination(req: CreateOutputRequest) -> (Seq<char>, Option<u16>) {
    match req {
        CreateOutputRequest::Udp { .. } => (udp_destination(req), None),
        CreateOutputRequest::Srt { config, .. } => match config {
            SrtOutputConfig::Caller { .. } => (
                peer_text(config.peer_host(), config.peer_port(), "127.0.0.1"@, 8000),
                None,
            ),
            SrtOutputConfig::Listener { .. } => {
                let p = match config.port() {
                    Some(p) => p,
                    None => 8000u16,
                };
                (":"@ + decimal(p as nat), Some(p))
            },
        },
    }
}

/// The kind of an output in the database.
pub open spec fn output_kind_key(req: CreateOutputRequest) -> Seq<char> {
    match req {
        CreateOutputRequest::Udp { .. } => "udp"@,
        CreateOutputRequest::Srt { config, .. } => match config {
            SrtOutputConfig::Caller { .. } => "srt_caller"@,
            SrtOutputConfig::Listener { .. } => "srt_listener"@,
        },
    }
}

/// The name of a UDP output that was given none.
pub open spec fn auto_udp_output_name(destination: Seq<char>) -> Seq<char> {
    "UDP Output to "@ + destination
}

/// The name of an SRT output that was given none.
pub open spec fn auto_srt_output_name(config: SrtOutputConfig) -> Seq<char> {
    match config {
        SrtOutputConfig::Caller { .. } => "SRT Caller to "@ + srt_destination(config),
        SrtOutputConfig::Listener { .. } => "SRT Listener on "@ + decimal(
            match config.port() {
                Some(p) => p as nat,
                None => 0,
            },
        ),
    }
}

/// A name, or what stands in for it.
pub open spec fn name_or(name: Option<String>, other: Seq<char>) -> Seq<char> {
    match name {
        Some(n) => n@,
        None => other,
    }
}

/// The name under which a new output is saved.
pub open spec fn new_output_name(req: CreateOutputRequest) -> Seq<char> {
    match req {
        CreateOutputRequest::Udp { name, .. } => name_or(
            name,
            auto_udp_output_name(udp_destination(req)),
        ),
        CreateOutputRequest::Srt { name, config, .. } => name_or(
            name,
            auto_srt_output_name(config),
        ),
    }
}

/// Where a UDP output sends.
pub fn udp_destination_of(req: &CreateOutputRequest) -> (r: String)
    ensures
        r@ == udp_destination(*req),
{
    peer(req.get_remote_host(), req.get_remote_port(), "127.0.0.1", 8000)
}

fn listener_port(config: &SrtOutputConfig, default_port: u16) -> (r: u16)
    ensures
        r == (match config.port() {
            Some(p) => p,
            None => default_port,
        }),
{
    match config.get_bind_port() {
        Some(p) => p,
        None => default_port,
    }
}

/// Where an SRT output sends or listens, as it is shown.
pub fn srt_destination_of(config: &SrtOutputConfig) -> (r: String)
    ensures
        r@ == srt_destination(*config),
{
    match config {
        SrtOutputConfig::Caller { .. } => peer(
            config.get_remote_host(),
            config.get_remote_port(),
            "unknown",
            0,
        ),
        SrtOutputConfig::Listener { .. } => numbered(":", listener_port(config, 0)),
    }
}

/// Where an output sends or listens, as it is shown.
pub fn shown_destination_of(req: &CreateOutputRequest) -> (r: String)
    ensures
        r@ == shown_destination(*req),
{
    match req {
        CreateOutputRequest::Udp { .. } => udp_destination_of(req),
        CreateOutputRequest::Srt { config, .. } => srt_destination_of(config),
    }
}

/// The destination of a new output and the port that it listens on.
pub fn new_destination_of(req: &CreateOutputRequest) -> (r: (String, Option<u16>))
    ensures
        (r.0@, r.1) == new_destination(*req),
{
    match req {
        CreateOutputRequest::Udp { .. } => (udp_destination_of(req), None),
        CreateOutputRequest::Srt { config, .. } => match config {
            SrtOutputConfig::Caller { .. } => (
                peer(config.get_remote_host(), config.get_remote_port(), "127.0.0.1", 8000),
                None,
            ),
            SrtOutputConfig::Listener { .. } => {
                let p: u16 = listener_port(config, 8000);
                (numbered(":", p), Some(p))
            },
        },
    }
}

/// The kind of an output in the database.
pub fn output_kind_of(req: &CreateOutputRequest) -> (r: &'static str)
    ensures
        r@ == output_kind_key(*req),
{
    match req {
        CreateOutputRequest::Udp { .. } => "udp",
        CreateOutputRequest::Srt { config, .. } => match config {
            SrtOutputConfig::Caller { .. } => "srt_caller",
            SrtOutputConfig::Listener { .. } => "srt_listener",
        },
    }
}

/// The name of a UDP output.
pub fn name_udp_output(name: &Option<String>, destination: &str) -> (r: String)
    ensures
        r@ == name_or(*name, auto_udp_output_name(destination@)),
        *name matches Some(n) ==> r == n,
{
    match name {
        Some(n) => n.clone(),
        None => join2("UDP Output to ", destination),
    }
}

/// The name of an SRT output.
pub fn name_srt_output(name: &Option<String>, config: &SrtOutputConfig) -> (r: String)
    ensures
        r@ == name_or(*name, auto_srt_output_name(*config)),
        *name matches Some(n) ==> r == n,
{
    match name {
        Some(n) => n.clone(),
        None => match config {
            SrtOutputConfig::Caller { .. } => {
                let d = srt_destination_of(config);
                join2("SRT Caller to ", d.as_str())
            },
            SrtOutputConfig::Listener { .. } => numbered(
                "SRT Listener on ",
                listener_port(config, 0),
            ),
        },
    }
}

/// The name under which a new output is saved.
pub fn name_output(req: &CreateOutputRequest) -> (r: String)
    ensures
        r@ == new_output_name(*req),
{
    match req {
        CreateOutputRequest::Udp { name, .. } => {
            let d = udp_destination_of(req);
            name_udp_output(name, d.as_str())
        },
        CreateOutputRequest::Srt { name, config, .. } => name_srt_output(name, config),
    }
}

// ---------------------------------------------------------------- multicast

/// How packets for a multicast group are sent.
#[derive(Debug)]
pub struct MulticastOutputConfig {
    /// Number of hops that packets live.
    pub ttl: u8,
    /// Address of the interface to send from.
    pub interface: Option<String>,
}

impl Clone for MulticastOutputConfig {
    fn clone(&self) -> (r: Self)
        ensures
            r == *self,
    {
        MulticastOutputConfig { ttl: self.ttl, interface: clone_text(&self.interface) }
    }
}

/// The multicast settings for a host: one hop by default; none unless the host is a multicast
/// address.
pub open spec fn multicast_for(
    host: Option<Seq<char>>,
    ttl: Option<u8>,
    interface: Option<String>,
) -> Option<MulticastOutputConfig> {
    match host {
        Some(h) if is_multicast_text(h) => Some(
            MulticastOutputConfig {
                ttl: match ttl {
                    Some(t) => t,
                    None => 1,
                },
                interface,
            },
        ),
        _ => None,
    }
}

/// The multicast settings for a host.
pub fn multicast_config_for(
    host: &Option<String>,
    ttl: Option<u8>,
    interface: &Option<String>,
) -> (r: Option<MulticastOutputConfig>)
    ensures
        r == multicast_for(opt_text(*host), ttl, *interface),
{
    match host {
        Some(h) => if names_multicast(h.as_str()) {
            Some(
                MulticastOutputConfig {
                    ttl: match ttl {
                        Some(t) => t,
                        None => 1,
                    },
                    interface: clone_text(interface),
                },
            )
        } else {
            None
        },
        None => None,
    }
}

/// The host, unless it stands for every interface.
pub open spec fn specific_host(host: Seq<char>) -> Option<Seq<char>> {
    if host == "0.0.0.0"@ {
        None
    } else {
        Some(host)
    }
}

/// The host, unless it stands for every interface.
pub fn specific_host_of(host: String) -> (r: Option<String>)
    ensures
        opt_text(r) == specific_host(host@),
        r matches Some(h) ==> h == host,
{
    if text_eq(host.as_str(), "0.0.0.0") {
        None
    } else {
        Some(host)
    }
}

// ---------------------------------------------------------------- laws

/// A given name is never replaced.
pub proof fn law_given_names_are_kept(req: CreateInputRequest, out: CreateOutputRequest)
    ensures
        req.given_name() matches Some(n) ==> input_name(req) == n@,
        out.given_name() matches Some(n) ==> new_output_name(out) == n@,
{
}

/// A legacy destination `host:port` and the newer pair of host and port name the same place.
pub proof fn law_legacy_destination_is_equivalent(
    newer: CreateOutputRequest,
    legacy: CreateOutputRequest,
    host: String,
    port: u16,
    addr: String,
)
    requires
        host@.len() > 0,
        port != 0,
        forall|i: int| 0 <= i < host@.len() ==> #[trigger] host@[i] != ':',
        addr@ == address_text(host@, port),
        newer matches CreateOutputRequest::Udp { remote_host, remote_port, .. } && remote_host
            == Some(host) && remote_port == Some(port),
        legacy matches CreateOutputRequest::Udp {
            remote_host,
            remote_port,
            destination_addr,
            ..
        } && remote_host is None && remote_port is None && destination_addr == Some(addr),
    ensures
        udp_destination(newer) == udp_destination(legacy),
        udp_destination(legacy) == addr@,
{
    crate::text_laws::law_address_round_trip(host@, port);
}

/// A UDP output that names its destination goes there, whether by the legacy address or by host
/// and port: no other port is looked for.
pub proof fn law_named_destination_is_used(
    newer: CreateOutputRequest,
    legacy: CreateOutputRequest,
    host: String,
    port: u16,
    addr: String,
)
    requires
        host@.len() > 0,
        port != 0,
        forall|i: int| 0 <= i < host@.len() ==> #[trigger] host@[i] != ':',
        addr@ == address_text(host@, port),
        newer matches CreateOutputRequest::Udp {
            remote_host,
            remote_port,
            automatic_port,
            destination_addr,
            ..
        } && remote_host == Some(host) && remote_port == Some(port) && automatic_port is None
            && destination_addr is None,
        legacy matches CreateOutputRequest::Udp {
            remote_host,
            remote_port,
            automatic_port,
            destination_addr,
            ..
        } && remote_host is None && remote_port is None && automatic_port is None
            && destination_addr == Some(addr),
    ensures
        !newer.automatic(),
        !legacy.automatic(),
        new_destination(newer) == (addr@, None::<u16>),
        new_destination(legacy) == (addr@, None::<u16>),
{
    crate::text_laws::law_address_round_trip(host@, port);
    crate::text_laws::law_address_names_its_port(host@, port);
}

/// The two names of the port of an SRT listener mean the same: the output listens there, and no
/// other port is looked for.
pub proof fn law_listener_ports_are_equivalent(
    newer: SrtOutputConfig,
    legacy: SrtOutputConfig,
    input_id: i64,
    name: Option<String>,
    port: u16,
)
    requires
        port != 0,
        newer matches SrtOutputConfig::Listener { bind_port, automatic_port, listen_port, .. }
            && bind_port == Some(port) && automatic_port is None && listen_port is None,
        legacy matches SrtOutputConfig::Listener { bind_port, automatic_port, listen_port, .. }
            && bind_port is None && automatic_port is None && listen_port == Some(port),
    ensures
        !newer.automatic(),
        !legacy.automatic(),
        new_destination(CreateOutputRequest::Srt { input_id, name, config: newer })
            == new_destination(CreateOutputRequest::Srt { input_id, name, config: legacy }),
        new_destination(CreateOutputRequest::Srt { input_id, name, config: legacy }) == (
            ":"@ + decimal(port as nat),
            Some(port),
        ),
{
}

} // verus!
