//! When a request leaves the choice of a port to the gateway.
use vstd::prelude::*;
use crate::text::{chars_of, text_eq};

verus! {

/// No port, or port zero in the newer field, or port zero in the older one alone.
pub open spec fn auto_port_input(bind_port: Option<u16>, legacy_listen_port: Option<u16>) -> bool {
    match bind_port {
        Some(p) => p == 0,
        None => legacy_listen_port is None || legacy_listen_port == Some(0u16),
    }
}

/// Whether a legacy address leaves the port open: `auto`, or a text that ends in `:0`.
pub open spec fn auto_address(addr: Seq<char>) -> bool {
    addr == "auto"@ || (addr.len() >= 2 && addr[addr.len() - 2] == ':' && addr.last() == '0')
}

/// A legacy address that leaves the port open, or no port at all, or a port zero.
pub open spec fn auto_port_output(
    remote_port: Option<u16>,
    bind_port: Option<u16>,
    legacy_addr: Option<Seq<char>>,
) -> bool {
    ||| legacy_addr matches Some(addr) && auto_address(addr)
    ||| remote_port == Some(0u16)
    ||| bind_port == Some(0u16)
    ||| (remote_port is None && bind_port is None)
}

/// Whether an input leaves its port open.
pub fn should_use_auto_port_input(
    bind_port: Option<u16>,
    legacy_listen_port: Option<u16>,
) -> (r: bool)
    ensures
        r == auto_port_input(bind_port, legacy_listen_port),
{
    match (bind_port, legacy_listen_port) {
        (Some(p), _) => p == 0,
        (None, Some(p)) => p == 0,
        (None, None) => true,
    }
}

fn leaves_port_open(addr: &str) -> (r: bool)
    ensures
        r == auto_address(addr@),
{
    let v = chars_of(addr);
    let n: usize = v.len();
    text_eq(addr, "auto") || (n >= 2 && v[n - 2] == ':' && v[n - 1] == '0')
}

/// Whether an output leaves its port open.
pub fn should_use_auto_port_output(
    remote_port: Option<u16>,
    bind_port: Option<u16>,
    legacy_addr: Option<&String>,
) -> (r: bool)
    ensures
        r == auto_port_output(
            remote_port,
            bind_port,
            match legacy_addr {
                Some(a) => Some(a@),
                None => None,
            },
        ),
{
    if let Some(addr) = legacy_addr {
        if leaves_port_open(addr.as_str()) {
            return true;
        }
    }
    match (remote_port, bind_port) {
        (None, None) => true,
        (Some(p), None) => p == 0,
        (None, Some(q)) => q == 0,
        (Some(p), Some(q)) => p == 0 || q == 0,
    }
}

} // verus!
