//! What clients ask of the gateway, and what the fields of a request mean together.
use vstd::prelude::*;
use crate::port_rules::{
    auto_port_input, auto_port_output, should_use_auto_port_input, should_use_auto_port_output,
};
use crate::srt_config::{FecConfig, SrtCommonConfig};
use crate::text::{
    clone_text, host_of, host_part, opt_text, port_of, port_of_address, text_eq,
};

verus! {

// ---------------------------------------------------------------- requests to create

/// Request for an input.
#[derive(Debug)]
pub enum CreateInputRequest {
    /// Receive packets over UDP.
    Udp {
        bind_host: Option<String>,
        bind_port: Option<u16>,
        automatic_port: Option<bool>,
        name: Option<String>,
        multicast_group: Option<String>,
        source_specific_multicast: Option<String>,
        /// Older name of `bind_port`.
        listen_port: Option<u16>,
    },
    /// Receive a stream over SRT.
    Srt { name: Option<String>, config: SrtInputConfig },
    /// Take one program out of another input.
    Spts {
        source_input_id: i64,
        program_number: u16,
        fill_with_nulls: Option<bool>,
        name: Option<String>,
    },
}

/// The SRT side of an input.
#[derive(Debug)]
pub enum SrtInputConfig {
    /// Wait for a sender.
    Listener {
        bind_host: Option<String>,
        bind_port: Option<u16>,
        automatic_port: Option<bool>,
        common: SrtCommonConfig,
        /// Older name of `bind_port`.
        listen_port: Option<u16>,
    },
    /// Connect to a sender.
    Caller {
        remote_host: Option<String>,
        remote_port: Option<u16>,
        common: SrtCommonConfig,
        /// Local address to connect from.
        bind_host: Option<String>,
        /// Older form of `remote_host` and `remote_port`.
        target_addr: Option<String>,
    },
}

/// Request for an output.
#[derive(Debug)]
pub enum CreateOutputRequest {
    /// Send packets over UDP.
    Udp {
        input_id: i64,
        remote_host: Option<String>,
        remote_port: Option<u16>,
        automatic_port: Option<bool>,
        name: Option<String>,
        /// Local address to send from.
        bind_host: Option<String>,
        multicast_ttl: Option<u8>,
        multicast_interface: Option<String>,
        /// Older form of `remote_host` and `remote_port`.
        destination_addr: Option<String>,
    },
    /// Send a stream over SRT.
    Srt { input_id: i64, name: Option<String>, config: SrtOutputConfig },
}

/// The SRT side of an output.
#[derive(Debug)]
pub enum SrtOutputConfig {
    /// Wait for a receiver.
    Listener {
        bind_host: Option<String>,
        bind_port: Option<u16>,
        automatic_port: Option<bool>,
        common: SrtCommonConfig,
        /// Older name of `bind_port`.
        listen_port: Option<u16>,
    },
    /// Connect to a receiver.
    Caller {
        remote_host: Option<String>,
        remote_port: Option<u16>,
        common: SrtCommonConfig,
        /// Local address to connect from.
        bind_host: Option<String>,
        /// Older form of `remote_host` and `remote_port`.
        destination_addr: Option<String>,
    },
}

// ---------------------------------------------------------------- requests to delete and change

#[derive(Debug, Clone, Copy)]
pub struct DeleteInputRequest {
    pub input_id: i64,
}

#[derive(Debug, Clone, Copy)]
pub struct DeleteOutputRequest {
    pub input_id: i64,
    pub output_id: i64,
}

/// Request to change an input. A field that is missing stays as it is.
#[derive(Debug)]
pub enum UpdateInputRequest {
    Udp {
        bind_host: Option<String>,
        bind_port: Option<u16>,
        name: Option<String>,
        multicast_group: Option<String>,
        source_specific_multicast: Option<String>,
    },
    Srt { name: Option<String>, config: UpdateSrtInputConfig },
    /// The source and the program of a filter never change.
    Spts { name: Option<String>, fill_with_nulls: Option<bool> },
}

/// Request to change the SRT side of an input. In `passphrase` and `stream_id`, `Some(None)`
/// clears the field.
#[derive(Debug)]
pub enum UpdateSrtInputConfig {
    Listener {
        bind_host: Option<String>,
        bind_port: Option<u16>,
        latency_ms: Option<i32>,
        passphrase: Option<Option<String>>,
        stream_id: Option<Option<String>>,
        expected_bitrate_kbps: Option<u32>,
        fec: Option<FecConfig>,
    },
    Caller {
        remote_host: Option<String>,
        remote_port: Option<u16>,
        bind_host: Option<String>,
        latency_ms: Option<i32>,
        passphrase: Option<Option<String>>,
        stream_id: Option<Option<String>>,
        expected_bitrate_kbps: Option<u32>,
        fec: Option<FecConfig>,
    },
}

/// Request to change an output. A field that is missing stays as it is.
#[derive(Debug)]
pub enum UpdateOutputRequest {
    Udp {
        remote_host: Option<String>,
        remote_port: Option<u16>,
        bind_host: Option<String>,
        multicast_ttl: Option<u8>,
        multicast_interface: Option<String>,
        name: Option<String>,
    },
    Srt { name: Option<String>, config: UpdateSrtOutputConfig },
}

/// Request to change the SRT side of an output. In `passphrase` and `stream_id`, `Some(None)`
/// clears the field.
#[derive(Debug)]
pub enum UpdateSrtOutputConfig {
    Listener {
        bind_host: Option<String>,
        bind_port: Option<u16>,
        latency_ms: Option<i32>,
        passphrase: Option<Option<String>>,
        stream_id: Option<Option<String>>,
        expected_bitrate_kbps: Option<u32>,
        fec: Option<FecConfig>,
    },
    Caller {
        remote_host: Option<String>,
        remote_port: Option<u16>,
        bind_host: Option<String>,
        latency_ms: Option<i32>,
        passphrase: Option<Option<String>>,
        stream_id: Option<Option<String>>,
        expected_bitrate_kbps: Option<u32>,
        fec: Option<FecConfig>,
    },
}

/// What an optional text of a change request means: missing leaves the field alone, an empty
/// text clears it, any other text is its new value.
pub fn deserialize_optional_string(opt: Option<String>) -> (r: Option<Option<String>>)
    ensures
        opt is None ==> r is None,
        opt matches Some(s) ==> s@.len() == 0 ==> r == Some(None::<String>),
        opt matches Some(s) ==> s@.len() > 0 ==> r == Some(Some(s)),
{
    match opt {
        None => None,
        Some(s) => if text_eq(s.as_str(), "") {
            proof {
                reveal_strlit("");
            }
            Some(None)
        } else {
            proof {
                reveal_strlit("");
                assert(s@.len() == 0 ==> s@ =~= ""@);
            }
            Some(Some(s))
        },
    }
}

// ---------------------------------------------------------------- what the fields mean

/// The first of two ports that is given.
pub open spec fn first_port(a: Option<u16>, b: Option<u16>) -> Option<u16> {
    if a is Some {
        a
    } else {
        b
    }
}

/// A port, where it is one that can be used.
pub open spec fn usable_port(p: Option<u16>) -> Option<u16> {
    if p == Some(0u16) {
        None
    } else {
        p
    }
}

/// An explicit wish decides; without one the ports do.
pub open spec fn wants_auto_port(automatic_port: Option<bool>, by_ports: bool) -> bool {
    match automatic_port {
        Some(wish) => wish,
        None => by_ports,
    }
}

/// The host to bind to, by default every interface.
pub open spec fn host_or_any(host: Option<String>) -> Seq<char> {
    match host {
        Some(h) => h@,
        None => "0.0.0.0"@,
    }
}

/// The remote host: the host field where it is there, and is not empty; without the field, the
/// host of the legacy address.
pub open spec fn remote_host_of(host: Option<String>, addr: Option<String>) -> Option<Seq<char>> {
    match host {
        Some(h) => if h@.len() > 0 {
            Some(h@)
        } else {
            None
        },
        None => match addr {
            Some(a) => Some(host_part(a@)),
            None => None,
        },
    }
}

/// The remote port: the port field where it is there, and is not zero; without the field, the
/// port of the legacy address.
pub open spec fn remote_port_of(port: Option<u16>, addr: Option<String>) -> Option<u16> {
    match port {
        Some(p) => usable_port(Some(p)),
        None => match addr {
            Some(a) => port_of_address(a@),
            None => None,
        },
    }
}

fn pick_port(a: Option<u16>, b: Option<u16>) -> (r: Option<u16>)
    ensures
        r == first_port(a, b),
{
    match a {
        Some(_) => a,
        None => b,
    }
}

fn drop_zero_port(p: Option<u16>) -> (r: Option<u16>)
    ensures
        r == usable_port(p),
{
    match p {
        Some(q) => if q == 0 {
            None
        } else {
            p
        },
        None => None,
    }
}

fn auto_or(automatic_port: Option<bool>, by_ports: bool) -> (r: bool)
    ensures
        r == wants_auto_port(automatic_port, by_ports),
{
    match automatic_port {
        Some(wish) => wish,
        None => by_ports,
    }
}

fn bind_host_or_any(host: &Option<String>) -> (r: String)
    ensures
        r@ == host_or_any(*host),
{
    match host {
        Some(h) => h.clone(),
        None => "0.0.0.0".to_owned(),
    }
}

fn pick_remote_host(host: &Option<String>, addr: &Option<String>) -> (r: Option<String>)
    ensures
        opt_text(r) == remote_host_of(*host, *addr),
{
    match host {
        Some(h) => {
            proof {
                reveal_strlit("");
                assert(h@.len() == 0 ==> h@ =~= ""@);
            }
            if text_eq(h.as_str(), "") {
                None
            } else {
                Some(h.clone())
            }
        },
        None => match addr {
            Some(a) => Some(host_of(a.as_str())),
            None => None,
        },
    }
}

fn pick_remote_port(port: Option<u16>, addr: &Option<String>) -> (r: Option<u16>)
    ensures
        r == remote_port_of(port, *addr),
{
    match port {
        Some(_) => drop_zero_port(port),
        None => match addr {
            Some(a) => port_of(a.as_str()),
            None => None,
        },
    }
}

// ---------------------------------------------------------------- inputs

impl Clone for SrtInputConfig {
    fn clone(&self) -> (r: Self)
        ensures
            r == *self,
    {
        match self {
            SrtInputConfig::Listener {
                bind_host,
                bind_port,
                automatic_port,
                common,
                listen_port,
            } => SrtInputConfig::Listener {
                bind_host: clone_text(bind_host),
                bind_port: *bind_port,
                automatic_port: *automatic_port,
                common: common.clone(),
                listen_port: *listen_port,
            },
            SrtInputConfig::Caller { remote_host, remote_port, common, bind_host, target_addr } =>
                SrtInputConfig::Caller {
                remote_host: clone_text(remote_host),
                remote_port: *remote_port,
                common: common.clone(),
                bind_host: clone_text(bind_host),
                target_addr: clone_text(target_addr),
            },
        }
    }
}

impl Clone for CreateInputRequest {
    fn clone(&self) -> (r: Self)
        ensures
            r == *self,
    {
        match self {
            CreateInputRequest::Udp {
                bind_host,
                bind_port,
                automatic_port,
                name,
                multicast_group,
                source_specific_multicast,
                listen_port,
            } => CreateInputRequest::Udp {
                bind_host: clone_text(bind_host),
                bind_port: *bind_port,
                automatic_port: *automatic_port,
                name: clone_text(name),
                multicast_group: clone_text(multicast_group),
                source_specific_multicast: clone_text(source_specific_multicast),
                listen_port: *listen_port,
            },
            CreateInputRequest::Srt { name, config } => CreateInputRequest::Srt {
                name: clone_text(name),
                config: config.clone(),
            },
            CreateInputRequest::Spts { source_input_id, program_number, fill_with_nulls, name } =>
                CreateInputRequest::Spts {
                source_input_id: *source_input_id,
                program_number: *program_number,
                fill_with_nulls: *fill_with_nulls,
                name: clone_text(name),
            },
        }
    }
}

impl SrtInputConfig {
    pub open spec fn automatic(self) -> bool {
        match self {
            SrtInputConfig::Listener { automatic_port, bind_port, listen_port, .. } =>
                wants_auto_port(automatic_port, auto_port_input(bind_port, listen_port)),
            SrtInputConfig::Caller { .. } => false,
        }
    }

    /// The port that a listener is given, the older field first.
    pub open spec fn port(self) -> Option<u16> {
        match self {
            SrtInputConfig::Listener { bind_port, listen_port, .. } => first_port(
                listen_port,
                bind_port,
            ),
            SrtInputConfig::Caller { .. } => None,
        }
    }

    pub open spec fn host(self) -> Seq<char> {
        match self {
            SrtInputConfig::Listener { bind_host, .. } => host_or_any(bind_host),
            SrtInputConfig::Caller { .. } => "0.0.0.0"@,
        }
    }

    pub open spec fn peer_host(self) -> Option<Seq<char>> {
        match self {
            SrtInputConfig::Listener { .. } => None,
            SrtInputConfig::Caller { remote_host, target_addr, .. } => remote_host_of(
                remote_host,
                target_addr,
            ),
        }
    }

    pub open spec fn peer_port(self) -> Option<u16> {
        match self {
            SrtInputConfig::Listener { .. } => None,
            SrtInputConfig::Caller { remote_port, target_addr, .. } => remote_port_of(
                remote_port,
                target_addr,
            ),
        }
    }

    pub open spec fn common_config(self) -> SrtCommonConfig {
        match self {
            SrtInputConfig::Listener { common, .. } => common,
            SrtInputConfig::Caller { common, .. } => common,
        }
    }

    /// Whether the choice of a port is left to the gateway; never for a caller.
    pub fn is_automatic_port(&self) -> (r: bool)
        ensures
            r == self.automatic(),
    {
        match self {
            SrtInputConfig::Listener { automatic_port, bind_port, listen_port, .. } => auto_or(
                *automatic_port,
                should_use_auto_port_input(*bind_port, *listen_port),
            ),
            SrtInputConfig::Caller { .. } => false,
        }
    }

    /// The port to bind to, or zero.
    pub fn get_bind_port(&self) -> (r: u16)
        ensures
            r == (match self.port() {
                Some(p) => p,
                None => 0u16,
            }),
    {
        match self {
            SrtInputConfig::Listener { bind_port, listen_port, .. } => match pick_port(
                *listen_port,
                *bind_port,
            ) {
                Some(p) => p,
                None => 0,
            },
            SrtInputConfig::Caller { .. } => 0,
        }
    }

    /// The host to bind to, by default every interface.
    pub fn get_bind_host(&self) -> (r: String)
        ensures
            r@ == self.host(),
    {
        match self {
            SrtInputConfig::Listener { bind_host, .. } => bind_host_or_any(bind_host),
            SrtInputConfig::Caller { .. } => "0.0.0.0".to_owned(),
        }
    }

    /// The host that a caller connects to.
    pub fn get_remote_host(&self) -> (r: Option<String>)
        ensures
            opt_text(r) == self.peer_host(),
    {
        match self {
            SrtInputConfig::Listener { .. } => None,
            SrtInputConfig::Caller { remote_host, target_addr, .. } => pick_remote_host(
                remote_host,
                target_addr,
            ),
        }
    }

    /// The local host that a caller connects from.
    pub fn get_caller_bind_host(&self) -> (r: Option<String>)
        ensures
            r == (match *self {
                SrtInputConfig::Listener { .. } => None,
                SrtInputConfig::Caller { bind_host, .. } => bind_host,
            }),
    {
        match self {
            SrtInputConfig::Listener { .. } => None,
            SrtInputConfig::Caller { bind_host, .. } => clone_text(bind_host),
        }
    }

    /// The port that a caller connects to.
    pub fn get_remote_port(&self) -> (r: Option<u16>)
        ensures
            r == self.peer_port(),
    {
        match self {
            SrtInputConfig::Listener { .. } => None,
            SrtInputConfig::Caller { remote_port, target_addr, .. } => pick_remote_port(
                *remote_port,
                target_addr,
            ),
        }
    }

    /// The port that a stored configuration holds.
    pub fn extract_assigned_port(&self) -> (r: Option<u16>)
        ensures
            r == usable_port(self.port()),
    {
        match self {
            SrtInputConfig::Listener { bind_port, listen_port, .. } => drop_zero_port(
                pick_port(*listen_port, *bind_port),
            ),
            SrtInputConfig::Caller { .. } => None,
        }
    }
}

impl CreateInputRequest {
    pub open spec fn automatic(self) -> bool {
        match self {
            CreateInputRequest::Udp { automatic_port, bind_port, listen_port, .. } =>
                wants_auto_port(automatic_port, auto_port_input(bind_port, listen_port)),
            CreateInputRequest::Srt { config, .. } => config.automatic(),
            CreateInputRequest::Spts { .. } => false,
        }
    }

    /// The port that the input is given, the older field first.
    pub open spec fn port(self) -> Option<u16> {
        match self {
            CreateInputRequest::Udp { bind_port, listen_port, .. } => first_port(
                listen_port,
                bind_port,
            ),
            CreateInputRequest::Srt { config, .. } => config.port(),
            CreateInputRequest::Spts { .. } => None,
        }
    }

    pub open spec fn bind_port_or_zero(self) -> u16 {
        match self.port() {
            Some(p) => p,
            None => 0,
        }
    }

    pub open spec fn host(self) -> Seq<char> {
        match self {
            CreateInputRequest::Udp { bind_host, .. } => host_or_any(bind_host),
            CreateInputRequest::Srt { config, .. } => config.host(),
            CreateInputRequest::Spts { .. } => "0.0.0.0"@,
        }
    }

    pub open spec fn peer_host(self) -> Option<Seq<char>> {
        match self {
            CreateInputRequest::Srt { config, .. } => config.peer_host(),
            _ => None,
        }
    }

    pub open spec fn peer_port(self) -> Option<u16> {
        match self {
            CreateInputRequest::Srt { config, .. } => config.peer_port(),
            _ => None,
        }
    }

    pub open spec fn given_name(self) -> Option<String> {
        match self {
            CreateInputRequest::Udp { name, .. } => name,
            CreateInputRequest::Srt { name, .. } => name,
            CreateInputRequest::Spts { name, .. } => name,
        }
    }

    /// The name of the kind of input in the database.
    pub open spec fn kind_key(self) -> Seq<char> {
        match self {
            CreateInputRequest::Udp { .. } => "udp"@,
            CreateInputRequest::Srt { config, .. } => match config {
                SrtInputConfig::Listener { .. } => "srt_listener"@,
                SrtInputConfig::Caller { .. } => "srt_caller"@,
            },
            CreateInputRequest::Spts { .. } => "spts"@,
        }
    }

    /// Whether the choice of a port is left to the gateway; never for a filter.
    pub fn is_automatic_port(&self) -> (r: bool)
        ensures
            r == self.automatic(),
    {
        match self {
            CreateInputRequest::Udp { automatic_port, bind_port, listen_port, .. } => auto_or(
                *automatic_port,
                should_use_auto_port_input(*bind_port, *listen_port),
            ),
            CreateInputRequest::Srt { config, .. } => config.is_automatic_port(),
            CreateInputRequest::Spts { .. } => false,
        }
    }

    /// The port to bind to, or zero.
    pub fn get_bind_port(&self) -> (r: u16)
        ensures
            r == self.bind_port_or_zero(),
    {
        match self {
            CreateInputRequest::Udp { bind_port, listen_port, .. } => match pick_port(
                *listen_port,
                *bind_port,
            ) {
                Some(p) => p,
                None => 0,
            },
            CreateInputRequest::Srt { config, .. } => config.get_bind_port(),
            CreateInputRequest::Spts { .. } => 0,
        }
    }

    /// The host to bind to, by default every interface.
    pub fn get_bind_host(&self) -> (r: String)
        ensures
            r@ == self.host(),
    {
        match self {
            CreateInputRequest::Udp { bind_host, .. } => bind_host_or_any(bind_host),
            CreateInputRequest::Srt { config, .. } => config.get_bind_host(),
            CreateInputRequest::Spts { .. } => "0.0.0.0".to_owned(),
        }
    }

    /// The host that a caller connects to.
    pub fn get_remote_host(&self) -> (r: Option<String>)
        ensures
            opt_text(r) == self.peer_host(),
    {
        match self {
            CreateInputRequest::Udp { .. } => None,
            CreateInputRequest::Srt { config, .. } => config.get_remote_host(),
            CreateInputRequest::Spts { .. } => None,
        }
    }

    /// The port that a caller connects to.
    pub fn get_remote_port(&self) -> (r: Option<u16>)
        ensures
            r == self.peer_port(),
    {
        match self {
            CreateInputRequest::Udp { .. } => None,
            CreateInputRequest::Srt { config, .. } => config.get_remote_port(),
            CreateInputRequest::Spts { .. } => None,
        }
    }

    /// The port that a stored configuration holds.
    pub fn extract_assigned_port(&self) -> (r: Option<u16>)
        ensures
            r == usable_port(self.port()),
    {
        match self {
            CreateInputRequest::Udp { bind_port, listen_port, .. } => drop_zero_port(
                pick_port(*listen_port, *bind_port),
            ),
            CreateInputRequest::Srt { config, .. } => config.extract_assigned_port(),
            CreateInputRequest::Spts { .. } => None,
        }
    }
}

/// The name of the kind of an input in the database.
pub fn input_kind_string(k: &CreateInputRequest) -> (r: &'static str)
    ensures
        r@ == k.kind_key(),
{
    match k {
        CreateInputRequest::Udp { .. } => "udp",
        CreateInputRequest::Srt { config, .. } => match config {
            SrtInputConfig::Listener { .. } => "srt_listener",
            SrtInputConfig::Caller { .. } => "srt_caller",
        },
        CreateInputRequest::Spts { .. } => "spts",
    }
}

/// The name that people read for a kind of input in the database.
pub open spec fn input_type_text(kind: Seq<char>) -> Seq<char> {
    if kind == "udp"@ {
        "UDP Listener"@
    } else if kind == "srt_listener"@ {
        "SRT Listener"@
    } else if kind == "srt_caller"@ {
        "SRT Caller"@
    } else if kind == "spts"@ {
        "SPTS Filter"@
    } else {
        "Unknown"@
    }
}

/// The name that people read for a kind of input in the database.
pub fn input_type_display_string(kind: &str) -> (r: &'static str)
    ensures
        r@ == input_type_text(kind@),
{
    if text_eq(kind, "udp") {
        "UDP Listener"
    } else if text_eq(kind, "srt_listener") {
        "SRT Listener"
    } else if text_eq(kind, "srt_caller") {
        "SRT Caller"
    } else if text_eq(kind, "spts") {
        "SPTS Filter"
    } else {
        "Unknown"
    }
}

// ---------------------------------------------------------------- outputs

impl Clone for SrtOutputConfig {
    fn clone(&self) -> (r: Self)
        ensures
            r == *self,
    {
        match self {
            SrtOutputConfig::Listener {
                bind_host,
                bind_port,
                automatic_port,
                common,
                listen_port,
            } => SrtOutputConfig::Listener {
                bind_host: clone_text(bind_host),
                bind_port: *bind_port,
                automatic_port: *automatic_port,
                common: common.clone(),
                listen_port: *listen_port,
            },
            SrtOutputConfig::Caller {
                remote_host,
                remote_port,
                common,
                bind_host,
                destination_addr,
            } => SrtOutputConfig::Caller {
                remote_host: clone_text(remote_host),
                remote_port: *remote_port,
                common: common.clone(),
                bind_host: clone_text(bind_host),
                destination_addr: clone_text(destination_addr),
            },
        }
    }
}

impl Clone for CreateOutputRequest {
    fn clone(&self) -> (r: Self)
        ensures
            r == *self,
    {
        match self {
            CreateOutputRequest::Udp {
                input_id,
                remote_host,
                remote_port,
                automatic_port,
                name,
                bind_host,
                multicast_ttl,
                multicast_interface,
                destination_addr,
            } => CreateOutputRequest::Udp {
                input_id: *input_id,
                remote_host: clone_text(remote_host),
                remote_port: *remote_port,
                automatic_port: *automatic_port,
                name: clone_text(name),
                bind_host: clone_text(bind_host),
                multicast_ttl: *multicast_ttl,
                multicast_interface: clone_text(multicast_interface),
                destination_addr: clone_text(destination_addr),
            },
            CreateOutputRequest::Srt { input_id, name, config } => CreateOutputRequest::Srt {
                input_id: *input_id,
                name: clone_text(name),
                config: config.clone(),
            },
        }
    }
}

impl SrtOutputConfig {
    /// Whether the choice of a port is left to the gateway: a listener that names none, in
    /// neither field, or that asks for it.
    pub open spec fn automatic(self) -> bool {
        match self {
            SrtOutputConfig::Listener { automatic_port, bind_port, listen_port, .. } =>
                wants_auto_port(automatic_port, auto_port_input(bind_port, listen_port)),
            SrtOutputConfig::Caller { .. } => false,
        }
    }

    /// The port that a listener is given, the older field first.
    pub open spec fn port(self) -> Option<u16> {
        match self {
            SrtOutputConfig::Listener { bind_port, listen_port, .. } => first_port(
                listen_port,
                bind_port,
            ),
            SrtOutputConfig::Caller { .. } => None,
        }
    }

    pub open spec fn host(self) -> Option<Seq<char>> {
        match self {
            SrtOutputConfig::Listener { bind_host, .. } => Some(host_or_any(bind_host)),
            SrtOutputConfig::Caller { .. } => None,
        }
    }

    pub open spec fn peer_host(self) -> Option<Seq<char>> {
        match self {
            SrtOutputConfig::Listener { .. } => None,
            SrtOutputConfig::Caller { remote_host, destination_addr, .. } => remote_host_of(
                remote_host,
                destination_addr,
            ),
        }
    }

    pub open spec fn peer_port(self) -> Option<u16> {
        match self {
            SrtOutputConfig::Listener { .. } => None,
            SrtOutputConfig::Caller { remote_port, destination_addr, .. } => remote_port_of(
                remote_port,
                destination_addr,
            ),
        }
    }

    pub open spec fn assigned_port(self) -> Option<u16> {
        match self {
            SrtOutputConfig::Listener { .. } => usable_port(self.port()),
            SrtOutputConfig::Caller { remote_port, .. } => usable_port(remote_port),
        }
    }

    pub open spec fn common_config(self) -> SrtCommonConfig {
        match self {
            SrtOutputConfig::Listener { common, .. } => common,
            SrtOutputConfig::Caller { common, .. } => common,
        }
    }

    /// Whether the choice of a port is left to the gateway; never for a caller.
    pub fn is_automatic_port(&self) -> (r: bool)
        ensures
            r == self.automatic(),
    {
        match self {
            SrtOutputConfig::Listener { automatic_port, bind_port, listen_port, .. } => auto_or(
                *automatic_port,
                should_use_auto_port_input(*bind_port, *listen_port),
            ),
            SrtOutputConfig::Caller { .. } => false,
        }
    }

    /// The host that a caller connects to.
    pub fn get_remote_host(&self) -> (r: Option<String>)
        ensures
            opt_text(r) == self.peer_host(),
    {
        match self {
            SrtOutputConfig::Listener { .. } => None,
            SrtOutputConfig::Caller { remote_host, destination_addr, .. } => pick_remote_host(
                remote_host,
                destination_addr,
            ),
        }
    }

    /// The local host that a caller connects from.
    pub fn get_caller_bind_host(&self) -> (r: Option<String>)
        ensures
            r == (match *self {
                SrtOutputConfig::Listener { .. } => None,
                SrtOutputConfig::Caller { bind_host, .. } => bind_host,
            }),
    {
        match self {
            SrtOutputConfig::Listener { .. } => None,
            SrtOutputConfig::Caller { bind_host, .. } => clone_text(bind_host),
        }
    }

    /// The port that a caller connects to.
    pub fn get_remote_port(&self) -> (r: Option<u16>)
        ensures
            r == self.peer_port(),
    {
        match self {
            SrtOutputConfig::Listener { .. } => None,
            SrtOutputConfig::Caller { remote_port, destination_addr, .. } => pick_remote_port(
                *remote_port,
                destination_addr,
            ),
        }
    }

    /// The port that a listener binds to.
    pub fn get_bind_port(&self) -> (r: Option<u16>)
        ensures
            r == self.port(),
    {
        match self {
            SrtOutputConfig::Listener { bind_port, listen_port, .. } => pick_port(
                *listen_port,
                *bind_port,
            ),
            SrtOutputConfig::Caller { .. } => None,
        }
    }

    /// The host that a listener binds to, by default every interface.
    pub fn get_bind_host(&self) -> (r: Option<String>)
        ensures
            opt_text(r) == self.host(),
    {
        match self {
            SrtOutputConfig::Listener { bind_host, .. } => Some(bind_host_or_any(bind_host)),
            SrtOutputConfig::Caller { .. } => None,
        }
    }

    /// The port that a stored configuration holds: the listener's own, the caller's remote.
    pub fn extract_assigned_port(&self) -> (r: Option<u16>)
        ensures
            r == self.assigned_port(),
    {
        match self {
            SrtOutputConfig::Listener { bind_port, listen_port, .. } => drop_zero_port(
                pick_port(*listen_port, *bind_port),
            ),
            SrtOutputConfig::Caller { remote_port, .. } => drop_zero_port(*remote_port),
        }
    }
}

impl CreateOutputRequest {
    /// Whether the choice of a port is left to the gateway: a UDP output that names no port to
    /// send to, neither by itself nor in the older address, or that asks for it.
    pub open spec fn automatic(self) -> bool {
        match self {
            CreateOutputRequest::Udp { automatic_port, remote_port, destination_addr, .. } =>
                wants_auto_port(
                automatic_port,
                auto_port_output(
                    remote_port_of(remote_port, destination_addr),
                    None,
                    opt_text(destination_addr),
                ),
            ),
            CreateOutputRequest::Srt { config, .. } => config.automatic(),
        }
    }

    pub open spec fn port(self) -> Option<u16> {
        match self {
            CreateOutputRequest::Udp { .. } => None,
            CreateOutputRequest::Srt { config, .. } => config.port(),
        }
    }

    pub open spec fn host(self) -> Option<Seq<char>> {
        match self {
            CreateOutputRequest::Udp { bind_host, .. } => opt_text(bind_host),
            CreateOutputRequest::Srt { config, .. } => config.host(),
        }
    }

    pub open spec fn peer_host(self) -> Option<Seq<char>> {
        match self {
            CreateOutputRequest::Udp { remote_host, destination_addr, .. } => remote_host_of(
                remote_host,
                destination_addr,
            ),
            CreateOutputRequest::Srt { config, .. } => config.peer_host(),
        }
    }

    pub open spec fn peer_port(self) -> Option<u16> {
        match self {
            CreateOutputRequest::Udp { remote_port, destination_addr, .. } => remote_port_of(
                remote_port,
                destination_addr,
            ),
            CreateOutputRequest::Srt { config, .. } => config.peer_port(),
        }
    }

    pub open spec fn assigned_port(self) -> Option<u16> {
        match self {
            CreateOutputRequest::Udp { remote_port, .. } => usable_port(remote_port),
            CreateOutputRequest::Srt { config, .. } => config.assigned_port(),
        }
    }

    pub open spec fn given_name(self) -> Option<String> {
        match self {
            CreateOutputRequest::Udp { name, .. } => name,
            CreateOutputRequest::Srt { name, .. } => name,
        }
    }

    pub open spec fn of_input(self) -> i64 {
        match self {
            CreateOutputRequest::Udp { input_id, .. } => input_id,
            CreateOutputRequest::Srt { input_id, .. } => input_id,
        }
    }

    /// Whether the choice of a port is left to the gateway; never for an SRT caller.
    pub fn is_automatic_port(&self) -> (r: bool)
        ensures
            r == self.automatic(),
    {
        match self {
            CreateOutputRequest::Udp { automatic_port, remote_port, destination_addr, .. } =>
                auto_or(
                *automatic_port,
                should_use_auto_port_output(
                    pick_remote_port(*remote_port, destination_addr),
                    None,
                    destination_addr.as_ref(),
                ),
            ),
            CreateOutputRequest::Srt { config, .. } => config.is_automatic_port(),
        }
    }

    /// The host that packets go to.
    pub fn get_remote_host(&self) -> (r: Option<String>)
        ensures
            opt_text(r) == self.peer_host(),
    {
        match self {
            CreateOutputRequest::Udp { remote_host, destination_addr, .. } => pick_remote_host(
                remote_host,
                destination_addr,
            ),
            CreateOutputRequest::Srt { config, .. } => config.get_remote_host(),
        }
    }

    /// The port that packets go to.
    pub fn get_remote_port(&self) -> (r: Option<u16>)
        ensures
            r == self.peer_port(),
    {
        match self {
            CreateOutputRequest::Udp { remote_port, destination_addr, .. } => pick_remote_port(
                *remote_port,
                destination_addr,
            ),
            CreateOutputRequest::Srt { config, .. } => config.get_remote_port(),
        }
    }

    /// The port that a listener binds to.
    pub fn get_bind_port(&self) -> (r: Option<u16>)
        ensures
            r == self.port(),
    {
        match self {
            CreateOutputRequest::Udp { .. } => None,
            CreateOutputRequest::Srt { config, .. } => config.get_bind_port(),
        }
    }

    /// The host to bind to.
    pub fn get_bind_host(&self) -> (r: Option<String>)
        ensures
            opt_text(r) == self.host(),
    {
        match self {
            CreateOutputRequest::Udp { bind_host, .. } => clone_text(bind_host),
            CreateOutputRequest::Srt { config, .. } => config.get_bind_host(),
        }
    }

    /// The port that a stored configuration holds.
    pub fn extract_assigned_port(&self) -> (r: Option<u16>)
        ensures
            r == self.assigned_port(),
    {
        match self {
            CreateOutputRequest::Udp { remote_port, .. } => drop_zero_port(*remote_port),
            CreateOutputRequest::Srt { config, .. } => config.extract_assigned_port(),
        }
    }
}

} // verus!
