//! Settings of the gateway.
use vstd::prelude::*;
use crate::text::{parse_port, parsed_port};

verus! {

/// Settings of the gateway.
#[derive(Debug, Clone, Copy)]
pub struct Config {
    /// First port that the gateway may assign.
    pub auto_port_range_start: u16,
    /// First port behind those that the gateway may assign.
    pub auto_port_range_end: u16,
}

/// The port that a setting stands for, or its default.
pub open spec fn port_setting(value: Option<String>, default_port: u16) -> u16 {
    match value {
        Some(v) => match parsed_port(v@) {
            Some(p) => p,
            None => default_port,
        },
        None => default_port,
    }
}

fn read_port(value: &Option<String>, default_port: u16) -> (r: u16)
    ensures
        r == port_setting(*value, default_port),
{
    match value {
        Some(v) => match parse_port(v.as_str()) {
            Some(p) => p,
            None => default_port,
        },
        None => default_port,
    }
}

impl Config {
    /// The settings for the values of `AUTO_PORT_RANGE_START` and `AUTO_PORT_RANGE_END`, by
    /// default 10000 and 11000.
    pub fn from_vars(start: &Option<String>, end: &Option<String>) -> (r: Self)
        ensures
            r.auto_port_range_start == port_setting(*start, 10000),
            r.auto_port_range_end == port_setting(*end, 11000),
    {
        Config {
            auto_port_range_start: read_port(start, 10000),
            auto_port_range_end: read_port(end, 11000),
        }
    }

    /// The ports that the gateway may assign.
    pub fn port_range(&self) -> (r: std::ops::Range<u16>)
        ensures
            r.start == self.auto_port_range_start,
            r.end == self.auto_port_range_end,
    {
        self.auto_port_range_start..self.auto_port_range_end
    }
}

} // verus!
