//! Logic of a media stream gateway.
use vstd::prelude::*;

pub mod analysis;
pub mod byte_buffers;
pub mod clock;
pub mod config;
pub mod creation;
pub mod deletion;
pub mod interfaces;
pub mod ip;
pub mod ip_laws;
pub mod listing;
pub mod load_laws;
pub mod loading;
pub mod machine;
pub mod maps;
pub mod message_laws;
pub mod metrics;
pub mod mpegts_filter;
pub mod mpegts_laws;
pub mod naming;
pub mod port_rules;
pub mod port_search;
pub mod report;
pub mod report_laws;
pub mod request_laws;
pub mod requests;
pub mod responses;
pub mod sockets;
pub mod spts;
pub mod srt_config;
pub mod srt_stream;
pub mod state_processor;
pub mod stats;
pub mod status;
pub mod stream_control;
pub mod stream_laws;
pub mod streams;
pub mod table_laws;
pub mod task_laws;
pub mod text;
pub mod text_laws;
pub mod udp_stream;
pub mod validation;

verus! {

} // verus!
