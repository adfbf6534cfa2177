//! How the UDP sockets of inputs and outputs are set up.
use vstd::prelude::*;
use crate::ip::{
    ip_of, ipv4_of, is_ipv4, is_socket_address, parse_ip, parse_socket_address, IpAddress, IpModel,
};
use crate::naming::MulticastOutputConfig;
use crate::text::{address_of, address_text, join2, join3, opt_text};

verus! {

/// A multicast group to join.
#[derive(Debug)]
pub enum GroupJoin {
    NoGroup,
    /// Packets from any sender to the group, on the interface with this address.
    AnySource { group: String, interface: String },
    /// Packets from one sender to the group, on the interface with this address.
    SourceSpecific { group: String, source: String, interface: String },
    /// Packets from any sender to an IPv6 group, on any interface.
    Ipv6 { group: String },
}

/// How the socket of a UDP input is set up.
#[derive(Debug)]
pub struct InputSocketPlan {
    /// Address and port to bind to.
    pub bind: String,
    pub join: GroupJoin,
}

/// Why the socket of a UDP input cannot be set up.
pub open spec fn input_socket_problem(
    bind_addr: Seq<char>,
    port: u16,
    group: Option<Seq<char>>,
    source: Option<Seq<char>>,
) -> Option<Seq<char>> {
    if !is_socket_address(address_text(bind_addr, port)) {
        Some("invalid socket address syntax"@)
    } else {
        match group {
            None => None,
            Some(g) => match ip_of(g) {
                None => Some(
                    "Invalid multicast group address '"@ + g + "': invalid IP address syntax"@,
                ),
                Some(IpModel::V6(_)) => None,
                Some(IpModel::V4(o)) => if !IpModel::V4(o).multicast() {
                    Some("Address '"@ + g + "' is not a valid IPv4 multicast address"@)
                } else {
                    match source {
                        Some(s) => if ipv4_of(s) is None {
                            Some(
                                "Invalid source address '"@ + s
                                    + "': invalid IPv4 address syntax"@,
                            )
                        } else {
                            None
                        },
                        None => None,
                    }
                },
            },
        }
    }
}

/// The address of the interface to join a group on: the bind address, or any interface where
/// that is no IPv4 address.
pub open spec fn join_interface(bind_addr: Seq<char>) -> Seq<char> {
    if ipv4_of(bind_addr) is Some {
        bind_addr
    } else {
        "0.0.0.0"@
    }
}

/// The group that the socket of a UDP input joins.
pub open spec fn is_join(
    j: GroupJoin,
    bind_addr: Seq<char>,
    group: Option<Seq<char>>,
    source: Option<Seq<char>>,
) -> bool {
    match group {
        None => j is NoGroup,
        Some(g) => match ip_of(g) {
            Some(IpModel::V6(_)) => j matches GroupJoin::Ipv6 { group: t } && t@ == g,
            _ => match source {
                Some(s) => j matches GroupJoin::SourceSpecific { group: t, source: u, interface }
                    && t@ == g && u@ == s && interface@ == join_interface(bind_addr),
                None => j matches GroupJoin::AnySource { group: t, interface } && t@ == g
                    && interface@ == join_interface(bind_addr),
            },
        },
    }
}

/// How the socket of a UDP input is set up: bound to its address and port, and a member of its
/// group. A source counts for IPv4 groups only.
pub fn plan_input_socket(
    bind_addr: &str,
    port: u16,
    multicast_group: &Option<String>,
    source_specific_multicast: &Option<String>,
) -> (r: Result<InputSocketPlan, String>)
    ensures
        match input_socket_problem(
            bind_addr@,
            port,
            opt_text(*multicast_group),
            opt_text(*source_specific_multicast),
        ) {
            Some(p) => r matches Err(e) && e@ == p,
            None => r matches Ok(plan) && plan.bind@ == address_text(bind_addr@, port) && is_join(
                plan.join,
                bind_addr@,
                opt_text(*multicast_group),
                opt_text(*source_specific_multicast),
            ),
        },
{
    let bind = address_of(bind_addr, port);
    if !parse_socket_address(bind.as_str()) {
        return Err("invalid socket address syntax".to_owned());
    }
    let group = match multicast_group {
        None => {
            return Ok(InputSocketPlan { bind, join: GroupJoin::NoGroup });
        },
        Some(g) => g,
    };
    match parse_ip(group.as_str()) {
        None => Err(
            join3(
                "Invalid multicast group address '",
                group.as_str(),
                "': invalid IP address syntax",
            ),
        ),
        Some(IpAddress::V6(_)) => Ok(
            InputSocketPlan { bind, join: GroupJoin::Ipv6 { group: group.clone() } },
        ),
        Some(IpAddress::V4(o)) => {
            let multicast: bool = IpAddress::V4(o).is_multicast();
            if !multicast {
                return Err(
                    join3(
                        "Address '",
                        group.as_str(),
                        "' is not a valid IPv4 multicast address",
                    ),
                );
            }
            let interface = if is_ipv4(bind_addr) {
                bind_addr.to_owned()
            } else {
                "0.0.0.0".to_owned()
            };
            match source_specific_multicast {
                Some(s) => if is_ipv4(s.as_str()) {
                    Ok(
                        InputSocketPlan {
                            bind,
                            join: GroupJoin::SourceSpecific {
                                group: group.clone(),
                                source: s.clone(),
                                interface,
                            },
                        },
                    )
                } else {
                    Err(
                        join3(
                            "Invalid source address '",
                            s.as_str(),
                            "': invalid IPv4 address syntax",
                        ),
                    )
                },
                None => Ok(
                    InputSocketPlan {
                        bind,
                        join: GroupJoin::AnySource { group: group.clone(), interface },
                    },
                ),
            }
        },
    }
}

/// How the socket of an output is set up.
#[derive(Debug)]
pub struct OutputSocketPlan {
    /// Address and port to bind to.
    pub bind: Option<String>,
    /// Hops that multicast packets live.
    pub multicast_ttl: Option<u8>,
    /// Address of the interface that multicast packets leave by.
    pub multicast_interface: Option<String>,
}

/// The hops of multicast settings.
pub open spec fn hops(multicast: Option<MulticastOutputConfig>) -> Option<u8> {
    match multicast {
        Some(m) => Some(m.ttl),
        None => None,
    }
}

/// The interface of multicast settings, where it is an IPv4 address.
pub open spec fn leaving_interface(multicast: Option<MulticastOutputConfig>) -> Option<Seq<char>> {
    match multicast {
        Some(m) => match m.interface {
            Some(i) if ipv4_of(i@) is Some => Some(i@),
            _ => None,
        },
        None => None,
    }
}

fn multicast_options(multicast: &Option<MulticastOutputConfig>) -> (r: (
    Option<u8>,
    Option<String>,
))
    ensures
        r.0 == hops(*multicast),
        opt_text(r.1) == leaving_interface(*multicast),
{
    match multicast {
        Some(m) => {
            let interface = match &m.interface {
                Some(i) => if is_ipv4(i.as_str()) {
                    Some(i.clone())
                } else {
                    None
                },
                None => None,
            };
            (Some(m.ttl), interface)
        },
        None => (None, None),
    }
}

/// The address that the socket of a UDP output binds to, with a port that the system picks.
pub open spec fn output_bind(bind_host: Option<String>) -> Seq<char> {
    match bind_host {
        Some(h) => h@ + ":0"@,
        None => "0.0.0.0:0"@,
    }
}

/// How the socket of a UDP output is set up. It must be bound to an address.
pub fn plan_output_socket(
    bind_host: &Option<String>,
    multicast: &Option<MulticastOutputConfig>,
) -> (r: Result<OutputSocketPlan, String>)
    ensures
        if is_socket_address(output_bind(*bind_host)) {
            r matches Ok(plan) && opt_text(plan.bind) == Some(output_bind(*bind_host))
                && plan.multicast_ttl == hops(*multicast) && opt_text(plan.multicast_interface)
                == leaving_interface(*multicast)
        } else {
            r matches Err(e) && e@ == "invalid socket address syntax"@
        },
{
    let bind = match bind_host {
        Some(h) => join2(h.as_str(), ":0"),
        None => "0.0.0.0:0".to_owned(),
    };
    if !parse_socket_address(bind.as_str()) {
        return Err("invalid socket address syntax".to_owned());
    }
    let (multicast_ttl, multicast_interface) = multicast_options(multicast);
    Ok(OutputSocketPlan { bind: Some(bind), multicast_ttl, multicast_interface })
}

/// How the socket of a filtered output is set up. A bind host that is no address is left out.
pub fn plan_spts_socket(
    bind_host: &Option<String>,
    multicast: &Option<MulticastOutputConfig>,
) -> (r: OutputSocketPlan)
    ensures
        opt_text(r.bind) == (match *bind_host {
            Some(h) if ip_of(h@) is Some => Some(h@),
            _ => None,
        }),
        r.multicast_ttl == hops(*multicast),
        opt_text(r.multicast_interface) == leaving_interface(*multicast),
{
    let bind = match bind_host {
        Some(h) => if parse_ip(h.as_str()).is_some() {
            Some(h.clone())
        } else {
            None
        },
        None => None,
    };
    let (multicast_ttl, multicast_interface) = multicast_options(multicast);
    OutputSocketPlan { bind, multicast_ttl, multicast_interface }
}

// ---------------------------------------------------------------- laws

/// A UDP input whose group passed the checks of a request never fails to join for the text of
/// its group, nor for that of its source where this is an IPv4 address.
pub proof fn law_accepted_groups_can_be_joined(
    bind_addr: Seq<char>,
    port: u16,
    group: Seq<char>,
    source: Option<Seq<char>>,
)
    requires
        is_socket_address(address_text(bind_addr, port)),
        crate::validation::group_problem(group) is None,
        source matches Some(s) ==> ipv4_of(s) is Some,
    ensures
        input_socket_problem(bind_addr, port, Some(group), source) is None,
{
}

} // verus!
