//! Reports of transport stream analyses, as clients see them.
use vstd::prelude::*;
use crate::clock::{time_text, time_to_text, UnixNanos};

verus! {

/// What an inspector found in a transport stream.
#[derive(Debug)]
pub struct InspectorReport {
    pub programs: Vec<InspectedProgram>,
    pub tr101_metrics: InspectedErrors,
}

#[derive(Debug)]
pub struct InspectedProgram {
    pub program_number: u16,
    pub streams: Vec<InspectedStream>,
}

#[derive(Debug)]
pub struct InspectedStream {
    pub stream_type: u8,
    pub pid: u16,
    pub codec: Option<CodecInfo>,
}

/// What an inspector found out about a codec. The frame rate is a double precision number,
/// given by its bits.
#[derive(Debug)]
pub enum CodecInfo {
    Video { codec: String, width: u16, height: u16, fps_bits: u64 },
    Audio { codec: String, sample_rate: Option<u32>, channels: Option<u8> },
    Subtitle { codec: String },
}

/// Errors that an inspector counted.
#[derive(Debug, Clone, Copy)]
pub struct InspectedErrors {
    pub sync_byte_errors: u64,
    pub continuity_counter_errors: u64,
    pub pat_crc_errors: u64,
    pub pmt_crc_errors: u64,
    pub cat_crc_errors: u64,
    pub pid_errors: u64,
    pub transport_error_indicator: u64,
    pub pcr_repetition_errors: u64,
    pub pcr_accuracy_errors: u64,
    pub pts_errors: u64,
}

/// A report as clients see it.
#[derive(Debug)]
pub struct AnalysisDataReport {
    pub timestamp: String,
    pub programs: Vec<ProgramData>,
    pub tr101_metrics: Option<Tr101MetricsData>,
}

#[derive(Debug)]
pub struct ProgramData {
    pub program_number: u16,
    pub streams: Vec<StreamData>,
}

#[derive(Debug)]
pub struct StreamData {
    pub stream_type: u8,
    pub pid: u16,
    pub codec: Option<CodecData>,
}

/// A codec as clients see it. The frame rate is a double precision number, given by its bits.
#[derive(Debug)]
pub enum CodecData {
    Video { codec: String, width: u32, height: u32, fps_bits: u64 },
    Audio { codec: String, sample_rate: Option<u32>, channels: Option<u8> },
    Subtitle { codec: String },
}

#[derive(Debug, Clone, Copy)]
pub struct Tr101MetricsData {
    pub sync_byte_errors: u64,
    pub continuity_counter_errors: u64,
    pub pat_errors: u64,
    pub pmt_errors: u64,
    pub pid_errors: u64,
    pub transport_errors: u64,
    pub crc_errors: u64,
    pub pcr_repetition_errors: u64,
    pub pcr_discontinuity_errors: u64,
    pub pcr_accuracy_errors: u64,
    pub pts_errors: u64,
    pub cat_errors: u64,
}

/// A codec as clients see it.
pub open spec fn codec_data(c: Option<CodecInfo>) -> Option<CodecData> {
    match c {
        Some(CodecInfo::Video { codec, width, height, fps_bits }) => Some(
            CodecData::Video { codec, width: width as u32, height: height as u32, fps_bits },
        ),
        Some(CodecInfo::Audio { codec, sample_rate, channels }) => Some(
            CodecData::Audio { codec, sample_rate, channels },
        ),
        Some(CodecInfo::Subtitle { codec }) => Some(CodecData::Subtitle { codec }),
        None => None,
    }
}

/// A stream as clients see it.
pub open spec fn stream_data(s: InspectedStream) -> StreamData {
    StreamData { stream_type: s.stream_type, pid: s.pid, codec: codec_data(s.codec) }
}

/// Whether a program shows what was inspected.
pub open spec fn shows_program(d: ProgramData, p: InspectedProgram) -> bool {
    &&& d.program_number == p.program_number
    &&& d.streams@ == p.streams@.map_values(|s: InspectedStream| stream_data(s))
}

/// The counts as clients see them. Errors of both tables make up the checksum errors;
/// discontinuities of the clock reference are not counted.
pub open spec fn tr101_data(e: InspectedErrors) -> Tr101MetricsData {
    Tr101MetricsData {
        sync_byte_errors: e.sync_byte_errors,
        continuity_counter_errors: e.continuity_counter_errors,
        pat_errors: e.pat_crc_errors,
        pmt_errors: e.pmt_crc_errors,
        pid_errors: e.pid_errors,
        transport_errors: e.transport_error_indicator,
        crc_errors: (e.pat_crc_errors + e.pmt_crc_errors) as u64,
        pcr_repetition_errors: e.pcr_repetition_errors,
        pcr_discontinuity_errors: 0,
        pcr_accuracy_errors: e.pcr_accuracy_errors,
        pts_errors: e.pts_errors,
        cat_errors: e.cat_crc_errors,
    }
}

fn convert_codec(c: &Option<CodecInfo>) -> (r: Option<CodecData>)
    ensures
        r == codec_data(*c),
{
    match c {
        Some(CodecInfo::Video { codec, width, height, fps_bits }) => Some(
            CodecData::Video {
                codec: codec.clone(),
                width: *width as u32,
                height: *height as u32,
                fps_bits: *fps_bits,
            },
        ),
        Some(CodecInfo::Audio { codec, sample_rate, channels }) => Some(
            CodecData::Audio {
                codec: codec.clone(),
                sample_rate: *sample_rate,
                channels: *channels,
            },
        ),
        Some(CodecInfo::Subtitle { codec }) => Some(
            CodecData::Subtitle { codec: codec.clone() },
        ),
        None => None,
    }
}

fn convert_program(p: &InspectedProgram) -> (r: ProgramData)
    ensures
        shows_program(r, *p),
{
    let mut streams: Vec<StreamData> = Vec::new();
    let mut i: usize = 0;
    while i < p.streams.len()
        invariant
            i <= p.streams@.len(),
            streams@ == p.streams@.take(i as int).map_values(
                |s: InspectedStream| stream_data(s),
            ),
        decreases p.streams@.len() - i,
    {
        let s = &p.streams[i];
        streams.push(
            StreamData {
                stream_type: s.stream_type,
                pid: s.pid,
                codec: convert_codec(&s.codec),
            },
        );
        i += 1;
        assert(streams@ =~= p.streams@.take(i as int).map_values(
            |s: InspectedStream| stream_data(s),
        ));
    }
    assert(p.streams@.take(p.streams@.len() as int) =~= p.streams@);
    ProgramData { program_number: p.program_number, streams }
}

/// The report as clients see it: programs and streams in the order in which they were found.
pub fn convert_inspector_report(report: &InspectorReport, now: UnixNanos) -> (r:
    AnalysisDataReport)
    requires
        report.tr101_metrics.pat_crc_errors + report.tr101_metrics.pmt_crc_errors <= u64::MAX,
    ensures
        r.timestamp@ == time_text(now),
        r.programs@.len() == report.programs@.len(),
        forall|i: int|
            0 <= i < r.programs@.len() ==> shows_program(
                #[trigger] r.programs@[i],
                report.programs@[i],
            ),
        r.tr101_metrics == Some(tr101_data(report.tr101_metrics)),
{
    let mut programs: Vec<ProgramData> = Vec::new();
    let mut i: usize = 0;
    while i < report.programs.len()
        invariant
            i <= report.programs@.len(),
            programs@.len() == i,
            forall|j: int|
                0 <= j < i ==> shows_program(#[trigger] programs@[j], report.programs@[j]),
        decreases report.programs@.len() - i,
    {
        programs.push(convert_program(&report.programs[i]));
        i += 1;
    }
    let e = &report.tr101_metrics;
    AnalysisDataReport {
        timestamp: time_to_text(now),
        programs,
        tr101_metrics: Some(
            Tr101MetricsData {
                sync_byte_errors: e.sync_byte_errors,
                continuity_counter_errors: e.continuity_counter_errors,
                pat_errors: e.pat_crc_errors,
                pmt_errors: e.pmt_crc_errors,
                pid_errors: e.pid_errors,
                transport_errors: e.transport_error_indicator,
                crc_errors: e.pat_crc_errors + e.pmt_crc_errors,
                pcr_repetition_errors: e.pcr_repetition_errors,
                pcr_discontinuity_errors: 0,
                pcr_accuracy_errors: e.pcr_accuracy_errors,
                pts_errors: e.pts_errors,
                cat_errors: e.cat_crc_errors,
            },
        ),
    }
}

} // verus!
