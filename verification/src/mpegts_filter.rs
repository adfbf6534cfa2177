//! Extraction of one program from an MPEG transport stream.
//!
//! A `ProgramFilter` reads a multi-program transport stream packet by packet, learns from
//! its tables which PIDs belong to one program, and keeps only the packets of that program.
use bytes::Bytes;
use bytes::BytesMut;
use std::collections::HashSet;
use vstd::prelude::*;

use crate::byte_buffers::{append_byte, append_bytes, byte_at, slice_bytes};
#[allow(unused_imports)]
use crate::byte_buffers::{buffer_content, bytes_content};

verus! {

/// MPEG-TS packet size in bytes.
pub const TS_PACKET_SIZE: usize = 188;

/// Sync byte that starts every TS packet.
pub const TS_SYNC_BYTE: u8 = 0x47;

/// PID of the Program Association Table.
pub const PAT_PID: u16 = 0x0000;

/// PID of the Conditional Access Table.
pub const CAT_PID: u16 = 0x0001;

/// PID of null packets.
pub const NULL_PID: u16 = 0x1FFF;

// ---------------------------------------------------------------- fields of a packet

/// The number in the low five bits of `hi` followed by the eight bits of `lo`.
pub open spec fn field13(hi: u8, lo: u8) -> u16 {
    ((hi % 32) * 256 + lo) as u16
}

/// The number in the low four bits of `hi` followed by the eight bits of `lo`.
pub open spec fn field12(hi: u8, lo: u8) -> int {
    (hi % 16) * 256 + lo
}

/// The sixteen-bit number with the bytes `hi` and `lo`.
pub open spec fn field16(hi: u8, lo: u8) -> u16 {
    (hi * 256 + lo) as u16
}

/// A packet of the right size that starts with the sync byte.
pub open spec fn is_ts_packet(p: Seq<u8>) -> bool {
    p.len() == TS_PACKET_SIZE && p[0] == TS_SYNC_BYTE
}

/// The packet identifier.
pub open spec fn packet_pid(p: Seq<u8>) -> u16 {
    field13(p[1], p[2])
}

/// Whether a table section or a stream packet starts in this packet.
pub open spec fn starts_unit(p: Seq<u8>) -> bool {
    (p[1] / 64) % 2 == 1
}

/// Where the table section of a packet starts: behind the header and, if a unit starts
/// here, behind the pointer field and the bytes that it skips.
pub open spec fn section_start(p: Seq<u8>) -> int {
    if starts_unit(p) {
        5 + p[4]
    } else {
        4
    }
}

/// The version number of the table section that starts at `o`.
pub open spec fn section_version(p: Seq<u8>, o: int) -> u8 {
    (p[o + 5] / 2) % 32
}

/// Where the entries of the table section that starts at `o` end and its checksum starts.
pub open spec fn section_end(p: Seq<u8>, o: int) -> int {
    o + 3 + field12(p[o + 1], p[o + 2]) - 4
}

fn read13(hi: u8, lo: u8) -> (r: u16)
    ensures
        r == field13(hi, lo),
        r < 0x2000,
{
    assert((((hi & 0x1F) as u16) << 8) | (lo as u16) == ((hi % 32) * 256 + lo) as u16 && ((((hi
        & 0x1F) as u16) << 8) | (lo as u16)) < 0x2000) by (bit_vector);
    (((hi & 0x1F) as u16) << 8) | (lo as u16)
}

fn read12(hi: u8, lo: u8) -> (r: usize)
    ensures
        r == field12(hi, lo),
        r < 0x1000,
{
    assert((((hi & 0x0F) as usize) << 8) | (lo as usize) == (hi % 16) * 256 + lo && (hi % 16) * 256
        + lo < 0x1000) by (bit_vector);
    (((hi & 0x0F) as usize) << 8) | (lo as usize)
}

fn read16(hi: u8, lo: u8) -> (r: u16)
    ensures
        r == field16(hi, lo),
{
    assert(((hi as u16) << 8) | (lo as u16) == (hi * 256 + lo) as u16) by (bit_vector);
    ((hi as u16) << 8) | (lo as u16)
}

fn read_unit_start(flags: u8) -> (r: bool)
    ensures
        r == ((flags / 64) % 2 == 1),
{
    assert((flags & 0x40 != 0) == ((flags / 64) % 2 == 1)) by (bit_vector);
    flags & 0x40 != 0
}

fn read_version(b: u8) -> (r: u8)
    ensures
        r == (b / 2) % 32,
{
    assert((b >> 1) & 0x1F == (b / 2) % 32) by (bit_vector);
    (b >> 1) & 0x1F
}

fn read_section_start(data: &Bytes) -> (offset: usize)
    requires
        bytes_content(*data).len() == TS_PACKET_SIZE,
    ensures
        offset == section_start(bytes_content(*data)),
        4 <= offset <= 260,
{
    if read_unit_start(byte_at(data, 1)) {
        5 + byte_at(data, 4) as usize
    } else {
        4
    }
}

// ---------------------------------------------------------------- packets

/// A single TS packet.
#[derive(Debug)]
pub struct TsPacket {
    pub pid: u16,
    pub payload_unit_start: bool,
    pub data: Bytes,
}

impl TsPacket {
    /// Parse a TS packet from raw bytes: those of one packet, starting with the sync byte.
    pub fn parse(data: Bytes) -> (r: Option<TsPacket>)
        ensures
            r is Some <==> is_ts_packet(bytes_content(data)),
            r matches Some(packet) ==> {
                &&& packet.data == data
                &&& packet.pid == packet_pid(bytes_content(data))
                &&& packet.pid < 0x2000
                &&& packet.payload_unit_start == starts_unit(bytes_content(data))
            },
    {
        if data.len() != TS_PACKET_SIZE || byte_at(&data, 0) != TS_SYNC_BYTE {
            return None;
        }
        let pid: u16 = read13(byte_at(&data, 1), byte_at(&data, 2));
        let payload_unit_start = read_unit_start(byte_at(&data, 1));
        Some(TsPacket { pid, payload_unit_start, data })
    }
}

/// The null packet: a header with the null PID and a payload of stuffing bytes.
pub open spec fn null_packet_bytes() -> Seq<u8> {
    Seq::new(
        188,
        |i: int|
            if i == 0 {
                TS_SYNC_BYTE
            } else if i == 1 {
                0x1Fu8
            } else if i == 2 {
                0xFFu8
            } else if i == 3 {
                0x10u8
            } else {
                0xFFu8
            },
    )
}

/// Build the null packet.
pub fn null_packet() -> (packet: Bytes)
    ensures
        bytes_content(packet) == null_packet_bytes(),
{
    let mut packet = BytesMut::with_capacity(TS_PACKET_SIZE);
    append_byte(&mut packet, TS_SYNC_BYTE);
    append_byte(&mut packet, 0x1F);
    append_byte(&mut packet, 0xFF);
    append_byte(&mut packet, 0x10);
    packet.resize(TS_PACKET_SIZE, 0xFF);
    assert(buffer_content(packet) =~= null_packet_bytes());
    packet.freeze()
}

// ---------------------------------------------------------------- the model of the filter

/// What is known of the program that a filter extracts.
pub struct ProgramModel {
    pub program_number: u16,
    pub pmt_pid: u16,
    pub pids: Set<u16>,
}

/// The state of a filter between two packets.
pub struct FilterModel {
    pub target: u16,
    pub fill_with_nulls: bool,
    pub pat_version: Option<u8>,
    pub pmt_version: Option<u8>,
    pub program: Option<ProgramModel>,
}

/// The PMT PID of the first entry for program `target` among the entries of an association
/// table that lie between `i` and `end`, four bytes each.
pub open spec fn pat_lookup(p: Seq<u8>, target: u16, i: int, end: int) -> Option<u16>
    decreases end + 4 - i,
{
    if i < 0 || i >= end || i + 4 > p.len() {
        None
    } else if field16(p[i], p[i + 1]) == target {
        Some(field13(p[i + 2], p[i + 3]))
    } else {
        pat_lookup(p, target, i + 4, end)
    }
}

/// The PIDs of the elementary streams that a map table lists between `i` and `end`: five
/// bytes for each, followed by its descriptors.
pub open spec fn stream_pids(p: Seq<u8>, i: int, end: int) -> Set<u16>
    decreases p.len() + 0x1000 - i,
{
    if i < 0 || i + 5 > end || i + 5 > p.len() {
        Set::empty()
    } else {
        stream_pids(p, i + 5 + field12(p[i + 3], p[i + 4]), end).insert(field13(p[i + 1], p[i + 2]))
    }
}

/// What a filter knows after an association table packet. A packet that holds no complete
/// association table header, or the version seen last, teaches nothing. Once the program has
/// been found, its entry is not replaced.
pub open spec fn after_pat(m: FilterModel, p: Seq<u8>) -> FilterModel {
    let o = section_start(p);
    if o + 8 > p.len() || p[o] != 0 || m.pat_version == Some(section_version(p, o)) {
        m
    } else {
        FilterModel {
            pat_version: Some(section_version(p, o)),
            program: match m.program {
                Some(info) => Some(info),
                None => match pat_lookup(p, m.target, o + 8, section_end(p, o)) {
                    Some(pid) => Some(
                        ProgramModel { program_number: m.target, pmt_pid: pid, pids: Set::empty() },
                    ),
                    None => None,
                },
            },
            ..m
        }
    }
}

/// What a filter knows after a map table packet of its program: the PID of the program clock
/// and those of the elementary streams replace the PIDs known so far. A packet that holds no
/// complete map table header, or the version seen last, teaches nothing.
pub open spec fn after_pmt(m: FilterModel, p: Seq<u8>) -> FilterModel {
    let o = section_start(p);
    if o + 12 > p.len() || p[o] != 2 || m.pmt_version == Some(section_version(p, o)) {
        m
    } else {
        FilterModel {
            pmt_version: Some(section_version(p, o)),
            program: match m.program {
                Some(info) => Some(
                    ProgramModel {
                        pids: stream_pids(
                            p,
                            o + 12 + field12(p[o + 10], p[o + 11]),
                            section_end(p, o),
                        ).insert(field13(p[o + 8], p[o + 9])),
                        ..info
                    },
                ),
                None => None,
            },
            ..m
        }
    }
}

/// Whether packets with this PID belong to the output: the two tables that concern the whole
/// stream, the map table of the program and the PIDs that it lists.
pub open spec fn includes_pid(m: FilterModel, pid: u16) -> bool {
    ||| pid == PAT_PID
    ||| pid == CAT_PID
    ||| (m.program matches Some(info) && (pid == info.pmt_pid || info.pids.contains(pid)))
}

/// What a filter knows after a packet that it lets through.
pub open spec fn learn(m: FilterModel, p: Seq<u8>) -> FilterModel {
    if packet_pid(p) == PAT_PID && starts_unit(p) {
        after_pat(m, p)
    } else if starts_unit(p) && (m.program matches Some(info) && packet_pid(p) == info.pmt_pid) {
        after_pmt(m, p)
    } else {
        m
    }
}

/// The state after one packet, and what the filter puts out for it.
pub open spec fn step(m: FilterModel, p: Seq<u8>) -> (FilterModel, Seq<u8>) {
    if is_ts_packet(p) && includes_pid(m, packet_pid(p)) {
        (learn(m, p), p)
    } else if m.fill_with_nulls {
        (m, null_packet_bytes())
    } else {
        (m, Seq::empty())
    }
}

/// The state after a batch of bytes, and what the filter puts out for it. The batch is cut
/// into packets; bytes behind the last whole packet are dropped.
pub open spec fn filter_run(m: FilterModel, input: Seq<u8>) -> (FilterModel, Seq<u8>)
    decreases input.len(),
{
    if input.len() < TS_PACKET_SIZE {
        (m, Seq::empty())
    } else {
        let first = step(m, input.take(188));
        let rest = filter_run(first.0, input.skip(188));
        (rest.0, first.1 + rest.1)
    }
}

// ---------------------------------------------------------------- the filter

/// Information about a program in the stream.
#[derive(Debug)]
pub struct ProgramInfo {
    pub program_number: u16,
    pub pmt_pid: u16,
    /// All PIDs belonging to this program.
    pub pids: HashSet<u16>,
}

impl View for ProgramInfo {
    type V = ProgramModel;

    open spec fn view(&self) -> ProgramModel {
        ProgramModel {
            program_number: self.program_number,
            pmt_pid: self.pmt_pid,
            pids: self.pids@,
        }
    }
}

/// Filters MPEG-TS packets to extract a single program (SPTS) from an MPTS.
pub struct ProgramFilter {
    pub target_program: u16,
    pub program_info: Option<ProgramInfo>,
    pub pat_version: Option<u8>,
    pub pmt_version: Option<u8>,
    pub fill_with_nulls: bool,
    /// Packets of the batch that is being filtered.
    pub output_buffer: BytesMut,
}

impl View for ProgramFilter {
    type V = FilterModel;

    open spec fn view(&self) -> FilterModel {
        FilterModel {
            target: self.target_program,
            fill_with_nulls: self.fill_with_nulls,
            pat_version: self.pat_version,
            pmt_version: self.pmt_version,
            program: match self.program_info {
                Some(info) => Some(info@),
                None => None,
            },
        }
    }
}

impl ProgramFilter {
    /// Create a new program filter for the specified program number.
    pub fn new(program_number: u16, fill_with_nulls: bool) -> (filter: ProgramFilter)
        ensures
            filter@ == (FilterModel {
                target: program_number,
                fill_with_nulls,
                pat_version: None,
                pmt_version: None,
                program: None,
            }),
    {
        ProgramFilter {
            target_program: program_number,
            program_info: None,
            pat_version: None,
            pmt_version: None,
            fill_with_nulls,
            output_buffer: BytesMut::new(),
        }
    }

    fn should_include(&self, pid: u16) -> (r: bool)
        ensures
            r == includes_pid(self@, pid),
    {
        if pid == PAT_PID || pid == CAT_PID {
            return true;
        }
        match &self.program_info {
            Some(info) => pid == info.pmt_pid || info.pids.contains(&pid),
            None => false,
        }
    }

    /// Filter a batch of packets and return only those belonging to the target program.
    pub fn filter_packets(&mut self, input: &Bytes) -> (output: Bytes)
        ensures
            (final(self)@, bytes_content(output)) == filter_run(old(self)@, bytes_content(*input)),
    {
        self.output_buffer.clear();
        let len: usize = input.len();
        let ghost content = bytes_content(*input);
        let mut offset: usize = 0;
        assert(content.skip(0) =~= content);
        while offset + TS_PACKET_SIZE <= len
            invariant
                content == bytes_content(*input),
                len == content.len(),
                len <= isize::MAX,
                offset <= len,
                buffer_content(self.output_buffer).len() <= offset,
                filter_run(old(self)@, content) == (
                    filter_run(self@, content.skip(offset as int)).0,
                    buffer_content(self.output_buffer) + filter_run(
                        self@,
                        content.skip(offset as int),
                    ).1,
                ),
            decreases len - offset,
        {
            let ghost m = self@;
            let ghost rest = content.skip(offset as int);
            let ghost done = buffer_content(self.output_buffer);
            let packet_data = slice_bytes(input, offset, offset + TS_PACKET_SIZE);
            let ghost p = bytes_content(packet_data);
            assert(p =~= rest.take(188));
            assert(rest.skip(188) =~= content.skip(offset + 188));

            match TsPacket::parse(packet_data) {
                Some(packet) => {
                    if self.should_include(packet.pid) {
                        self.learn_from(&packet);
                        append_bytes(&mut self.output_buffer, packet.data);
                    } else if self.fill_with_nulls {
                        append_bytes(&mut self.output_buffer, null_packet());
                    }
                },
                None => {
                    if self.fill_with_nulls {
                        append_bytes(&mut self.output_buffer, null_packet());
                    }
                },
            }
            proof {
                let first = step(m, p);
                assert(self@ == first.0);
                assert(buffer_content(self.output_buffer) =~= done + first.1);
                assert(filter_run(m, rest).1 =~= first.1 + filter_run(first.0, rest.skip(188)).1);
                assert((done + first.1) + filter_run(first.0, rest.skip(188)).1 =~= done + (first.1
                    + filter_run(first.0, rest.skip(188)).1));
            }
            offset += TS_PACKET_SIZE;
        }
        proof {
            assert(filter_run(self@, content.skip(offset as int)).1 =~= Seq::empty());
            assert(buffer_content(self.output_buffer) + Seq::<u8>::empty() =~= buffer_content(
                self.output_buffer,
            ));
        }
        self.output_buffer.split().freeze()
    }

    /// Learn the program structure from the tables that start in a packet.
    fn learn_from(&mut self, packet: &TsPacket)
        requires
            is_ts_packet(bytes_content(packet.data)),
            packet.pid == packet_pid(bytes_content(packet.data)),
            packet.payload_unit_start == starts_unit(bytes_content(packet.data)),
        ensures
            final(self)@ == learn(old(self)@, bytes_content(packet.data)),
            final(self).output_buffer == old(self).output_buffer,
    {
        if packet.pid == PAT_PID && packet.payload_unit_start {
            self.process_pat(&packet.data);
            return;
        }
        let is_pmt = match &self.program_info {
            Some(info) => packet.pid == info.pmt_pid && packet.payload_unit_start,
            None => false,
        };
        if is_pmt {
            self.process_pmt(&packet.data);
        }
    }

    /// Process PAT (Program Association Table) to find our program's PMT PID.
    fn process_pat(&mut self, data: &Bytes)
        requires
            bytes_content(*data).len() == TS_PACKET_SIZE,
        ensures
            final(self)@ == after_pat(old(self)@, bytes_content(*data)),
            old(self)@.program is Some ==> final(self)@.program == old(self)@.program,
            final(self).output_buffer == old(self).output_buffer,
    {
        let ghost p = bytes_content(*data);
        let offset: usize = read_section_start(data);
        if offset + 8 > data.len() {
            return;
        }
        if byte_at(data, offset) != 0x00 {
            return;
        }
        let section_length: usize = read12(byte_at(data, offset + 1), byte_at(data, offset + 2));
        let version: u8 = read_version(byte_at(data, offset + 5));
        if let Some(current_version) = self.pat_version {
            if current_version == version {
                return;
            }
        }
        self.pat_version = Some(version);

        let programs_start: usize = offset + 8;
        let programs_end: usize = offset + 3 + section_length - 4;
        let mut i: usize = programs_start;
        let mut found: Option<u16> = None;
        while i < programs_end && i + 4 <= data.len() && found.is_none()
            invariant
                p == bytes_content(*data),
                p.len() == TS_PACKET_SIZE,
                programs_end < 0x2000,
                i <= programs_end + 4 || i == programs_start,
                programs_start <= i <= 300,
                pat_lookup(p, self.target_program, programs_start as int, programs_end as int) == (
                match found {
                    Some(pid) => Some(pid),
                    None => pat_lookup(p, self.target_program, i as int, programs_end as int),
                }),
            decreases 400 - i, found.is_none() as int,
        {
            let program_number: u16 = read16(byte_at(data, i), byte_at(data, i + 1));
            let pid: u16 = read13(byte_at(data, i + 2), byte_at(data, i + 3));
            if program_number == self.target_program {
                found = Some(pid);
            } else {
                i += 4;
            }
        }
        if let Some(pid) = found {
            if self.program_info.is_none() {
                self.program_info = Some(
                    ProgramInfo {
                        program_number: self.target_program,
                        pmt_pid: pid,
                        pids: HashSet::new(),
                    },
                );
            }
        }
    }

    /// Process PMT (Program Map Table) to learn all PIDs for our program.
    fn process_pmt(&mut self, data: &Bytes)
        requires
            bytes_content(*data).len() == TS_PACKET_SIZE,
        ensures
            final(self)@ == after_pmt(old(self)@, bytes_content(*data)),
            final(self).output_buffer == old(self).output_buffer,
    {
        let ghost p = bytes_content(*data);
        let offset: usize = read_section_start(data);
        if offset + 12 > data.len() {
            return;
        }
        if byte_at(data, offset) != 0x02 {
            return;
        }
        let section_length: usize = read12(byte_at(data, offset + 1), byte_at(data, offset + 2));
        let version: u8 = read_version(byte_at(data, offset + 5));
        if let Some(current_version) = self.pmt_version {
            if current_version == version {
                return;
            }
        }
        self.pmt_version = Some(version);

        let pcr_pid: u16 = read13(byte_at(data, offset + 8), byte_at(data, offset + 9));
        let program_info_length: usize = read12(
            byte_at(data, offset + 10),
            byte_at(data, offset + 11),
        );
        let streams_start: usize = offset + 12 + program_info_length;
        let streams_end: usize = offset + 3 + section_length - 4;
        let mut stream_offset: usize = streams_start;
        let mut pids: HashSet<u16> = HashSet::new();
        pids.insert(pcr_pid);
        let ghost listed = stream_pids(p, streams_start as int, streams_end as int);
        assert(pids@.union(listed) =~= listed.insert(pcr_pid));
        while stream_offset + 5 <= streams_end && stream_offset + 5 <= data.len()
            invariant
                p == bytes_content(*data),
                p.len() == TS_PACKET_SIZE,
                streams_end < 0x2000,
                stream_offset < 0x2000,
                listed.insert(pcr_pid) == pids@.union(
                    stream_pids(p, stream_offset as int, streams_end as int),
                ),
            decreases 0x2000 - stream_offset,
        {
            let elementary_pid: u16 = read13(
                byte_at(data, stream_offset + 1),
                byte_at(data, stream_offset + 2),
            );
            let es_info_length: usize = read12(
                byte_at(data, stream_offset + 3),
                byte_at(data, stream_offset + 4),
            );
            let ghost before = pids@;
            pids.insert(elementary_pid);
            let ghost later = stream_pids(
                p,
                stream_offset + 5 + es_info_length,
                streams_end as int,
            );
            assert(before.union(later.insert(elementary_pid)) =~= pids@.union(later));
            stream_offset += 5 + es_info_length;
        }
        assert(pids@.union(stream_pids(p, stream_offset as int, streams_end as int)) =~= pids@);
        let known = self.program_info.take();
        if let Some(info) = known {
            self.program_info = Some(
                ProgramInfo { program_number: info.program_number, pmt_pid: info.pmt_pid, pids },
            );
        }
    }

    /// Get current program info if available.
    pub fn get_program_info(&self) -> (r: Option<&ProgramInfo>)
        ensures
            self@.program == (match r {
                Some(info) => Some(info@),
                None => None,
            }),
    {
        self.program_info.as_ref()
    }
}

} // verus!
