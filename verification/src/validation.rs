//! Checks of requests before anything is done about them.
use vstd::prelude::*;
use crate::interfaces::{
    bindable, describes_listing, get_system_interfaces, is_bindable, is_wildcard, InterfaceInfo,
    Listing,
};
use crate::ip::{ip_of, parse_ip, IpModel};
use crate::machine::is_answer;
use crate::requests::{
    CreateInputRequest, CreateOutputRequest, SrtInputConfig, SrtOutputConfig,
};
use crate::text::{join3, text_eq};

verus! {

/// The interfaces of the machine, or why they could not be listed.
pub type Interfaces = Result<Vec<InterfaceInfo>, String>;

/// Whether a result tells of a problem: none is `Ok`, one is its text as the error.
pub open spec fn tells(r: Result<(), String>, problem: Option<Seq<char>>) -> bool {
    match problem {
        None => r is Ok,
        Some(p) => r matches Err(e) && e@ == p,
    }
}

/// The first problem of two.
pub open spec fn first_problem(a: Option<Seq<char>>, b: Option<Seq<char>>) -> Option<Seq<char>> {
    if a is Some {
        a
    } else {
        b
    }
}

/// A text between two others.
pub open spec fn quoted(before: Seq<char>, s: Seq<char>, after: Seq<char>) -> Seq<char> {
    before + s + after
}

// ---------------------------------------------------------------- single fields

/// What is wrong with a multicast group: it must be an address, and one of a group.
pub open spec fn group_problem(addr: Seq<char>) -> Option<Seq<char>> {
    match ip_of(addr) {
        None => Some(quoted("Invalid IP address format: '"@, addr, "'"@)),
        Some(a) => if a.multicast() {
            None
        } else {
            match a {
                IpModel::V4(_) => Some(
                    quoted(
                        "Address '"@,
                        addr,
                        "' is not a valid IPv4 multicast address (must be in range 224.0.0.0 - 239.255.255.255)"@,
                    ),
                ),
                IpModel::V6(_) => Some(
                    quoted("Address '"@, addr, "' is not a valid IPv6 multicast address"@),
                ),
            }
        },
    }
}

/// What is wrong with a bind address: it must be a wildcard, or an address of an interface.
pub open spec fn bind_problem(addr: Seq<char>, interfaces: Interfaces) -> Option<Seq<char>> {
    if is_wildcard(addr) {
        None
    } else if ip_of(addr) is None {
        Some(quoted("Invalid bind IP address format: '"@, addr, "'"@))
    } else if !bindable(addr, interfaces) {
        Some(
            quoted(
                "Bind address '"@,
                addr,
                "' not found in system interfaces. Use GET /interfaces to see available addresses."@,
            ),
        )
    } else {
        None
    }
}

/// A field that is missing or empty has no problem.
pub open spec fn optional_bind_problem(
    field: Option<String>,
    interfaces: Interfaces,
) -> Option<Seq<char>> {
    match field {
        Some(a) if a@.len() > 0 => bind_problem(a@, interfaces),
        _ => None,
    }
}

/// A group that is missing or empty has no problem.
pub open spec fn optional_group_problem(field: Option<String>) -> Option<Seq<char>> {
    match field {
        Some(a) if a@.len() > 0 => group_problem(a@),
        _ => None,
    }
}

/// Whether a text is there and is not empty.
pub open spec fn filled(field: Option<String>) -> bool {
    field matches Some(a) && a@.len() > 0
}

/// A source for multicast needs a group and must be an address.
pub open spec fn source_problem(source: Option<String>, group: Option<String>) -> Option<
    Seq<char>,
> {
    match source {
        Some(a) if a@.len() > 0 => if !filled(group) {
            Some("Source-specific multicast requires a multicast group to be specified"@)
        } else if ip_of(a@) is None {
            Some(quoted("Invalid source IP address format: '"@, a@, "'"@))
        } else {
            None
        },
        _ => None,
    }
}

/// A multicast lifetime of zero hops is a problem.
pub open spec fn ttl_problem(ttl: Option<u8>) -> Option<Seq<char>> {
    if ttl == Some(0u8) {
        Some("Multicast TTL must be between 1 and 255"@)
    } else {
        None
    }
}

fn is_filled(field: &Option<String>) -> (r: bool)
    ensures
        r == filled(*field),
{
    match field {
        Some(a) => {
            proof {
                reveal_strlit("");
                assert(a@.len() == 0 ==> a@ =~= ""@);
            }
            !text_eq(a.as_str(), "")
        },
        None => false,
    }
}

/// Check a multicast group.
pub fn validate_multicast_group(group_addr: &str) -> (r: Result<(), String>)
    ensures
        tells(r, group_problem(group_addr@)),
{
    match parse_ip(group_addr) {
        None => Err(join3("Invalid IP address format: '", group_addr, "'")),
        Some(a) => if a.is_multicast() {
            Ok(())
        } else {
            match a {
                crate::ip::IpAddress::V4(_) => Err(
                    join3(
                        "Address '",
                        group_addr,
                        "' is not a valid IPv4 multicast address (must be in range 224.0.0.0 - 239.255.255.255)",
                    ),
                ),
                crate::ip::IpAddress::V6(_) => Err(
                    join3("Address '", group_addr, "' is not a valid IPv6 multicast address"),
                ),
            }
        },
    }
}

/// Check a bind address, given the interfaces.
pub fn validate_bind_address_on(
    bind_addr: &str,
    interfaces: &Interfaces,
) -> (r: Result<(), String>)
    ensures
        tells(r, bind_problem(bind_addr@, *interfaces)),
{
    if text_eq(bind_addr, "0.0.0.0") || text_eq(bind_addr, "::") {
        return Ok(());
    }
    if parse_ip(bind_addr).is_none() {
        return Err(join3("Invalid bind IP address format: '", bind_addr, "'"));
    }
    if !is_bindable(bind_addr, interfaces) {
        return Err(
            join3(
                "Bind address '",
                bind_addr,
                "' not found in system interfaces. Use GET /interfaces to see available addresses.",
            ),
        );
    }
    Ok(())
}

/// Check a bind address on this machine.
pub fn validate_bind_address(bind_addr: &str) -> (r: Result<(), String>)
    ensures
        is_wildcard(bind_addr@) ==> r is Ok,
        !is_wildcard(bind_addr@) && ip_of(bind_addr@) is None ==> r is Err,
        exists|listing: Listing, interfaces: Interfaces|
            #![trigger describes_listing(interfaces, listing), bind_problem(
                bind_addr@,
                interfaces,
            )]
            is_answer(listing) && describes_listing(interfaces, listing) && tells(
                r,
                bind_problem(bind_addr@, interfaces),
            ),
{
    let interfaces = get_system_interfaces();
    let r = validate_bind_address_on(bind_addr, &interfaces);
    assert(tells(r, bind_problem(bind_addr@, interfaces)));
    r
}

fn check_bind_field(field: &Option<String>, interfaces: &Interfaces) -> (r: Result<(), String>)
    ensures
        tells(r, optional_bind_problem(*field, *interfaces)),
{
    if is_filled(field) {
        match field {
            Some(a) => validate_bind_address_on(a.as_str(), interfaces),
            None => Ok(()),
        }
    } else {
        Ok(())
    }
}

fn check_group_field(field: &Option<String>) -> (r: Result<(), String>)
    ensures
        tells(r, optional_group_problem(*field)),
{
    if is_filled(field) {
        match field {
            Some(a) => validate_multicast_group(a.as_str()),
            None => Ok(()),
        }
    } else {
        Ok(())
    }
}

fn check_source_field(source: &Option<String>, group: &Option<String>) -> (r: Result<(), String>)
    ensures
        tells(r, source_problem(*source, *group)),
{
    if !is_filled(source) {
        return Ok(());
    }
    if !is_filled(group) {
        return Err(
            "Source-specific multicast requires a multicast group to be specified".to_owned(),
        );
    }
    match source {
        Some(a) => if parse_ip(a.as_str()).is_none() {
            Err(join3("Invalid source IP address format: '", a.as_str(), "'"))
        } else {
            Ok(())
        },
        None => Ok(()),
    }
}

// ---------------------------------------------------------------- requests

/// The first problem of a UDP input: bind address, then group, then source.
pub open spec fn udp_input_problem(
    config: CreateInputRequest,
    interfaces: Interfaces,
) -> Option<Seq<char>> {
    match config {
        CreateInputRequest::Udp { bind_host, multicast_group, source_specific_multicast, .. } =>
            first_problem(
            optional_bind_problem(bind_host, interfaces),
            first_problem(
                optional_group_problem(multicast_group),
                source_problem(source_specific_multicast, multicast_group),
            ),
        ),
        _ => None,
    }
}

/// The problem of an SRT input: its bind address.
pub open spec fn srt_input_problem(
    config: CreateInputRequest,
    interfaces: Interfaces,
) -> Option<Seq<char>> {
    match config {
        CreateInputRequest::Srt { config: SrtInputConfig::Listener { bind_host, .. }, .. } =>
            optional_bind_problem(bind_host, interfaces),
        CreateInputRequest::Srt { config: SrtInputConfig::Caller { bind_host, .. }, .. } =>
            optional_bind_problem(bind_host, interfaces),
        _ => None,
    }
}

/// The first problem of a UDP output: bind address, then multicast interface, then lifetime.
pub open spec fn udp_output_problem(
    config: CreateOutputRequest,
    interfaces: Interfaces,
) -> Option<Seq<char>> {
    match config {
        CreateOutputRequest::Udp { bind_host, multicast_ttl, multicast_interface, .. } =>
            first_problem(
            optional_bind_problem(bind_host, interfaces),
            first_problem(
                optional_bind_problem(multicast_interface, interfaces),
                ttl_problem(multicast_ttl),
            ),
        ),
        _ => None,
    }
}

/// The problem of an SRT output: its bind address.
pub open spec fn srt_output_problem(
    config: CreateOutputRequest,
    interfaces: Interfaces,
) -> Option<Seq<char>> {
    match config {
        CreateOutputRequest::Srt { config: SrtOutputConfig::Listener { bind_host, .. }, .. } =>
            optional_bind_problem(bind_host, interfaces),
        CreateOutputRequest::Srt { config: SrtOutputConfig::Caller { bind_host, .. }, .. } =>
            optional_bind_problem(bind_host, interfaces),
        _ => None,
    }
}

/// The first problem of a request for an input.
pub open spec fn input_problem(config: CreateInputRequest, interfaces: Interfaces) -> Option<
    Seq<char>,
> {
    first_problem(udp_input_problem(config, interfaces), srt_input_problem(config, interfaces))
}

/// The first problem of a request for an output.
pub open spec fn output_problem(config: CreateOutputRequest, interfaces: Interfaces) -> Option<
    Seq<char>,
> {
    first_problem(udp_output_problem(config, interfaces), srt_output_problem(config, interfaces))
}

/// Check a UDP input, given the interfaces.
pub fn validate_udp_input_config(
    config: &CreateInputRequest,
    interfaces: &Interfaces,
) -> (r: Result<(), String>)
    ensures
        tells(r, udp_input_problem(*config, *interfaces)),
{
    match config {
        CreateInputRequest::Udp { bind_host, multicast_group, source_specific_multicast, .. } => {
            let bind = check_bind_field(bind_host, interfaces);
            if bind.is_err() {
                return bind;
            }
            let group = check_group_field(multicast_group);
            if group.is_err() {
                return group;
            }
            check_source_field(source_specific_multicast, multicast_group)
        },
        _ => Ok(()),
    }
}

/// Check an SRT input, given the interfaces.
pub fn validate_srt_config(
    config: &CreateInputRequest,
    interfaces: &Interfaces,
) -> (r: Result<(), String>)
    ensures
        tells(r, srt_input_problem(*config, *interfaces)),
{
    match config {
        CreateInputRequest::Srt { config, .. } => match config {
            SrtInputConfig::Listener { bind_host, .. } => check_bind_field(bind_host, interfaces),
            SrtInputConfig::Caller { bind_host, .. } => check_bind_field(bind_host, interfaces),
        },
        _ => Ok(()),
    }
}

/// Check a UDP output, given the interfaces.
pub fn validate_udp_output_config(
    config: &CreateOutputRequest,
    interfaces: &Interfaces,
) -> (r: Result<(), String>)
    ensures
        tells(r, udp_output_problem(*config, *interfaces)),
{
    match config {
        CreateOutputRequest::Udp { bind_host, multicast_ttl, multicast_interface, .. } => {
            let bind = check_bind_field(bind_host, interfaces);
            if bind.is_err() {
                return bind;
            }
            let mcast = check_bind_field(multicast_interface, interfaces);
            if mcast.is_err() {
                return mcast;
            }
            match multicast_ttl {
                Some(ttl) => if *ttl == 0 {
                    Err("Multicast TTL must be between 1 and 255".to_owned())
                } else {
                    Ok(())
                },
                None => Ok(()),
            }
        },
        _ => Ok(()),
    }
}

/// Check an SRT output, given the interfaces.
pub fn validate_srt_output_config(
    config: &CreateOutputRequest,
    interfaces: &Interfaces,
) -> (r: Result<(), String>)
    ensures
        tells(r, srt_output_problem(*config, *interfaces)),
{
    match config {
        CreateOutputRequest::Srt { config, .. } => match config {
            SrtOutputConfig::Listener { bind_host, .. } => check_bind_field(bind_host, interfaces),
            SrtOutputConfig::Caller { bind_host, .. } => check_bind_field(bind_host, interfaces),
        },
        _ => Ok(()),
    }
}

/// Check a request for an input, given the interfaces.
pub fn validate_input_on(
    config: &CreateInputRequest,
    interfaces: &Interfaces,
) -> (r: Result<(), String>)
    ensures
        tells(r, input_problem(*config, *interfaces)),
{
    let udp = validate_udp_input_config(config, interfaces);
    if udp.is_err() {
        return udp;
    }
    validate_srt_config(config, interfaces)
}

/// Check a request for an output, given the interfaces.
pub fn validate_output_on(
    config: &CreateOutputRequest,
    interfaces: &Interfaces,
) -> (r: Result<(), String>)
    ensures
        tells(r, output_problem(*config, *interfaces)),
{
    let udp = validate_udp_output_config(config, interfaces);
    if udp.is_err() {
        return udp;
    }
    validate_srt_output_config(config, interfaces)
}

// ---------------------------------------------------------------- laws

/// An input that names no host and no group passes on every machine.
pub proof fn law_plain_inputs_are_accepted(config: CreateInputRequest, interfaces: Interfaces)
    requires
        match config {
            CreateInputRequest::Udp {
                bind_host,
                multicast_group,
                source_specific_multicast,
                ..
            } => !filled(bind_host) && !filled(multicast_group) && !filled(
                source_specific_multicast,
            ),
            CreateInputRequest::Srt { config: SrtInputConfig::Listener { bind_host, .. }, .. } =>
                !filled(bind_host),
            CreateInputRequest::Srt { config: SrtInputConfig::Caller { bind_host, .. }, .. } =>
                !filled(bind_host),
            CreateInputRequest::Spts { .. } => true,
        },
    ensures
        input_problem(config, interfaces) is None,
{
}

/// What passes for a UDP input is consistent: a group is a multicast address, and a source
/// comes only with a group.
pub proof fn law_accepted_udp_input_is_consistent(
    config: CreateInputRequest,
    interfaces: Interfaces,
)
    requires
        input_problem(config, interfaces) is None,
    ensures
        config matches CreateInputRequest::Udp {
            multicast_group,
            source_specific_multicast,
            ..
        } ==> (filled(multicast_group) ==> crate::ip::is_multicast_text(multicast_group->0@)) && (
        filled(source_specific_multicast) ==> filled(multicast_group) && ip_of(
            source_specific_multicast->0@,
        ) is Some),
{
}

} // verus!
