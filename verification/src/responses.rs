//! What clients see of streams, and rows of the database.
use vstd::prelude::*;

verus! {

/// An input with its outputs, in the overview of the system.
#[derive(Debug)]
pub struct InputResponse {
    pub id: i64,
    pub name: Option<String>,
    pub status: String,
    pub assigned_port: Option<u16>,
    pub outputs: Vec<OutputResponse>,
    pub uptime_seconds: Option<u64>,
    pub source_address: Option<String>,
    pub bitrate_bps: Option<u64>,
    pub error_message: Option<String>,
}

/// An output in the overview of the system.
#[derive(Debug)]
pub struct OutputResponse {
    pub id: i64,
    pub name: Option<String>,
    pub input_id: i64,
    pub destination: String,
    pub output_type: String,
    pub status: String,
    pub assigned_port: Option<u16>,
    pub uptime_seconds: Option<u64>,
    pub peer_address: Option<String>,
    pub bitrate_bps: Option<u64>,
    pub error_message: Option<String>,
}

/// An input in the list of inputs.
#[derive(Debug)]
pub struct InputListResponse {
    pub id: i64,
    pub name: Option<String>,
    pub input_type: String,
    pub status: String,
    pub assigned_port: Option<u16>,
    pub output_count: usize,
    pub uptime_seconds: Option<u64>,
    pub source_address: Option<String>,
    pub error_message: Option<String>,
}

/// An input with all that is known of it.
#[derive(Debug)]
pub struct InputDetailResponse {
    pub id: i64,
    pub name: Option<String>,
    pub input_type: String,
    pub status: String,
    pub assigned_port: Option<u16>,
    pub outputs: Vec<OutputDetailResponse>,
    pub uptime_seconds: Option<u64>,
    pub source_address: Option<String>,
    /// Configuration as it is stored.
    pub config: Option<String>,
    pub error_message: Option<String>,
}

/// An output with all that is known of it.
#[derive(Debug)]
pub struct OutputDetailResponse {
    pub id: i64,
    pub name: Option<String>,
    pub input_id: i64,
    pub destination: String,
    pub output_type: String,
    pub status: String,
    pub assigned_port: Option<u16>,
    /// Configuration as it is stored.
    pub config: Option<String>,
    pub uptime_seconds: Option<u64>,
    pub peer_address: Option<String>,
    pub error_message: Option<String>,
}

/// An output in the list of outputs.
#[derive(Debug)]
pub struct OutputListResponse {
    pub id: i64,
    pub name: Option<String>,
    pub input_id: i64,
    pub input_name: Option<String>,
    pub destination: String,
    pub output_type: String,
    pub status: String,
    pub assigned_port: Option<u16>,
    pub uptime_seconds: Option<u64>,
    pub peer_address: Option<String>,
    pub error_message: Option<String>,
    /// Configuration as it is stored.
    pub config: Option<String>,
}

/// A row of the table of inputs.
#[derive(Debug)]
pub struct InputRow {
    pub id: i64,
    pub name: Option<String>,
    /// `udp`, `srt_listener`, `srt_caller` or `spts`.
    pub kind: String,
    pub config_json: String,
    pub status: String,
}

/// A row of the table of outputs.
#[derive(Debug)]
pub struct OutputRow {
    pub id: i64,
    pub name: Option<String>,
    pub input_id: i64,
    /// `udp`, `srt_listener` or `srt_caller`.
    pub kind: String,
    pub destination: Option<String>,
    pub listen_port: Option<u16>,
    pub config_json: Option<String>,
    pub status: String,
}

} // verus!
