//! What the program filter learns from tables, told from how the tables are written.
use vstd::prelude::*;
use crate::mpegts_filter::{
    field12, field13, field16, filter_run, null_packet_bytes, packet_pid, pat_lookup, section_end,
    section_start, section_version, starts_unit, step, stream_pids, FilterModel, ProgramModel,
};

verus! {

// ---------------------------------------------------------------- how packets are written

/// A number of 13 bits in two bytes; the three bits in front of it are given.
pub open spec fn bytes13(bits: int, n: int) -> Seq<u8> {
    seq![(bits * 32 + n / 256) as u8, (n % 256) as u8]
}

/// A number of 12 bits in two bytes; the four bits in front of it are given.
pub open spec fn bytes12(bits: int, n: int) -> Seq<u8> {
    seq![(bits * 16 + n / 256) as u8, (n % 256) as u8]
}

/// A number of 16 bits in two bytes.
pub open spec fn bytes16(n: int) -> Seq<u8> {
    seq![(n / 256) as u8, (n % 256) as u8]
}

/// The header of a packet.
pub struct Header {
    /// First byte; 0x47 in every packet that is well formed.
    pub sync: u8,
    pub error: bool,
    /// Whether a section or a stream packet starts in the packet.
    pub start: bool,
    pub priority: bool,
    pub pid: u16,
    /// Scrambling, presence of an adaptation field and continuity counter.
    pub rest: u8,
}

impl Header {
    pub open spec fn wf(self) -> bool {
        self.pid < 0x2000
    }

    pub open spec fn bytes(self) -> Seq<u8> {
        let error: int = if self.error {
            4
        } else {
            0
        };
        let start: int = if self.start {
            2
        } else {
            0
        };
        let priority: int = if self.priority {
            1
        } else {
            0
        };
        seq![self.sync] + bytes13(error + start + priority, self.pid as int) + seq![self.rest]
    }
}

/// A packet: its header and what it carries.
pub struct Packet {
    pub header: Header,
    pub payload: Seq<u8>,
}

impl Packet {
    pub open spec fn wf(self) -> bool {
        self.header.wf() && self.payload.len() == 184
    }

    pub open spec fn bytes(self) -> Seq<u8> {
        self.header.bytes() + self.payload
    }
}

/// The bytes of packets in a row.
pub open spec fn packets_bytes(packets: Seq<Packet>) -> Seq<u8>
    decreases packets.len(),
{
    if packets.len() == 0 {
        Seq::empty()
    } else {
        packets[0].bytes() + packets_bytes(packets.skip(1))
    }
}

/// What all sections with a version have in front of their entries.
pub struct Section {
    /// Bytes that the pointer field skips.
    pub skipped: Seq<u8>,
    /// Bits in front of the length.
    pub flags: u8,
    /// Number of the transport stream, or of the program.
    pub number: u16,
    /// Bits in front of the version.
    pub mark: u8,
    pub version: u8,
    pub current: bool,
    pub section_number: u8,
    pub last_section_number: u8,
    pub checksum: Seq<u8>,
    /// Bytes that fill the packet up.
    pub stuffing: Seq<u8>,
}

impl Section {
    pub open spec fn wf(self) -> bool {
        &&& self.skipped.len() < 256
        &&& self.flags < 16
        &&& self.mark < 4
        &&& self.version < 32
        &&& self.checksum.len() == 4
    }

    /// The payload of a packet that carries a table of this kind with these contents: pointer
    /// field, length, version, contents and checksum.
    pub open spec fn payload(self, table: u8, contents: Seq<u8>) -> Seq<u8> {
        let current: int = if self.current {
            1
        } else {
            0
        };
        seq![self.skipped.len() as u8] + self.skipped + seq![table] + bytes12(
            self.flags as int,
            contents.len() + 9int,
        ) + bytes16(self.number as int) + seq![
            (self.mark * 64 + self.version * 2 + current) as u8,
            self.section_number,
            self.last_section_number,
        ] + contents + self.checksum + self.stuffing
    }
}

/// A program in an association table.
pub struct ProgramEntry {
    pub program_number: u16,
    /// Bits in front of the PID.
    pub bits: u8,
    pub pmt_pid: u16,
}

impl ProgramEntry {
    pub open spec fn wf(self) -> bool {
        self.bits < 8 && self.pmt_pid < 0x2000
    }

    pub open spec fn bytes(self) -> Seq<u8> {
        bytes16(self.program_number as int) + bytes13(self.bits as int, self.pmt_pid as int)
    }
}

/// The programs of an association table in a row.
pub open spec fn programs_bytes(programs: Seq<ProgramEntry>) -> Seq<u8>
    decreases programs.len(),
{
    if programs.len() == 0 {
        Seq::empty()
    } else {
        programs[0].bytes() + programs_bytes(programs.skip(1))
    }
}

/// An elementary stream in a map table.
pub struct StreamEntry {
    pub stream_type: u8,
    /// Bits in front of the PID.
    pub bits: u8,
    pub pid: u16,
    /// Bits in front of the length of the descriptors.
    pub length_bits: u8,
    pub descriptors: Seq<u8>,
}

impl StreamEntry {
    pub open spec fn wf(self) -> bool {
        self.bits < 8 && self.pid < 0x2000 && self.length_bits < 16 && self.descriptors.len()
            < 0x1000
    }

    pub open spec fn bytes(self) -> Seq<u8> {
        seq![self.stream_type] + bytes13(self.bits as int, self.pid as int) + bytes12(
            self.length_bits as int,
            self.descriptors.len() as int,
        ) + self.descriptors
    }
}

/// The elementary streams of a map table in a row.
pub open spec fn streams_bytes(streams: Seq<StreamEntry>) -> Seq<u8>
    decreases streams.len(),
{
    if streams.len() == 0 {
        Seq::empty()
    } else {
        streams[0].bytes() + streams_bytes(streams.skip(1))
    }
}

/// The contents of a map table.
pub struct MapTable {
    /// Bits in front of the PID of the clock.
    pub bits: u8,
    pub pcr_pid: u16,
    /// Bits in front of the length of the descriptors.
    pub length_bits: u8,
    /// Descriptors of the program.
    pub descriptors: Seq<u8>,
    pub streams: Seq<StreamEntry>,
}

impl MapTable {
    pub open spec fn wf(self) -> bool {
        &&& self.bits < 8
        &&& self.pcr_pid < 0x2000
        &&& self.length_bits < 16
        &&& self.descriptors.len() < 0x1000
        &&& forall|i: int| 0 <= i < self.streams.len() ==> (#[trigger] self.streams[i]).wf()
    }

    pub open spec fn bytes(self) -> Seq<u8> {
        bytes13(self.bits as int, self.pcr_pid as int) + bytes12(
            self.length_bits as int,
            self.descriptors.len() as int,
        ) + self.descriptors + streams_bytes(self.streams)
    }

    /// The PIDs that the table names: that of the clock and those of the streams.
    pub open spec fn pids(self) -> Set<u16> {
        Set::new(
            |pid: u16|
                pid == self.pcr_pid || exists|i: int|
                    0 <= i < self.streams.len() && (#[trigger] self.streams[i]).pid == pid,
        )
    }
}

// ---------------------------------------------------------------- reading what was written

proof fn lemma_bytes13(bits: int, n: int)
    requires
        0 <= bits < 8,
        0 <= n < 0x2000,
    ensures
        field13(bytes13(bits, n)[0], bytes13(bits, n)[1]) == n,
{
}

proof fn lemma_bytes12(bits: int, n: int)
    requires
        0 <= bits < 16,
        0 <= n < 0x1000,
    ensures
        field12(bytes12(bits, n)[0], bytes12(bits, n)[1]) == n,
{
}

proof fn lemma_bytes16(n: int)
    requires
        0 <= n < 0x10000,
    ensures
        field16(bytes16(n)[0], bytes16(n)[1]) == n,
{
}

proof fn lemma_header(p: Packet)
    requires
        p.wf(),
    ensures
        p.bytes().len() == 188,
        p.bytes()[0] == p.header.sync,
        packet_pid(p.bytes()) == p.header.pid,
        starts_unit(p.bytes()) == p.header.start,
        p.bytes().skip(4) == p.payload,
{
    let h = p.header.bytes();
    let s = p.bytes();
    let error: int = if p.header.error {
        4
    } else {
        0
    };
    let start: int = if p.header.start {
        2
    } else {
        0
    };
    let priority: int = if p.header.priority {
        1
    } else {
        0
    };
    let bits = error + start + priority;
    lemma_bytes13(bits, p.header.pid as int);
    assert(h.len() == 4);
    assert(s[1] == bytes13(bits, p.header.pid as int)[0]);
    assert(s[2] == bytes13(bits, p.header.pid as int)[1]);
    assert(s[1] == bits * 32 + (p.header.pid as int) / 256);
    assert(s.skip(4) =~= p.payload);
}

/// Where things stand in a packet that carries a section.
proof fn lemma_section(p: Packet, s: Section, table: u8, contents: Seq<u8>)
    requires
        p.wf(),
        p.header.start,
        s.wf(),
        p.payload == s.payload(table, contents),
    ensures
        ({
            let b = p.bytes();
            let o = section_start(b);
            &&& o == 5 + s.skipped.len()
            &&& o + 8 + contents.len() + 4 <= 188
            &&& b[o] == table
            &&& section_version(b, o) == s.version
            &&& section_end(b, o) == o + 8 + contents.len()
            &&& b.subrange(o + 8, o + 8 + contents.len()) == contents
        }),
{
    let b = p.bytes();
    let n = s.skipped.len() as int;
    let length = 5 + contents.len() as int + 4;
    lemma_header(p);
    let q = p.payload;
    assert forall|i: int| 0 <= i < 184 implies b[4 + i] == #[trigger] q[i] by {
        assert(b.skip(4)[i] == b[4 + i]);
    }
    let current: int = if s.current {
        1
    } else {
        0
    };
    assert(q.len() == 184);
    assert(1 + n + 8 + contents.len() + 4 + s.stuffing.len() == 184);
    lemma_bytes12(s.flags as int, length);
    assert(q[0] == n as u8);
    assert(b[4] == n);
    assert(q[1 + n] == table);
    assert(q[2 + n] == bytes12(s.flags as int, length)[0]);
    assert(q[3 + n] == bytes12(s.flags as int, length)[1]);
    assert(q[6 + n] == (s.mark * 64 + s.version * 2 + current) as u8);
    let o = 5 + n;
    assert(b[o] == q[1 + n]);
    assert(b[o + 1] == q[2 + n]);
    assert(b[o + 2] == q[3 + n]);
    assert(b[o + 5] == q[6 + n]);
    assert(b[o + 5] == s.mark * 64 + s.version * 2 + current);
    assert forall|i: int| 0 <= i < contents.len() implies b.subrange(
        o + 8,
        o + 8 + contents.len(),
    )[i] == #[trigger] contents[i] by {
        assert(q[9 + n + i] == contents[i]);
        assert(b[4 + (9 + n + i)] == q[9 + n + i]);
    }
    assert(b.subrange(o + 8, o + 8 + contents.len()) =~= contents);
}

proof fn lemma_streams(p: Seq<u8>, i: int, end: int, streams: Seq<StreamEntry>)
    requires
        0 <= i <= end <= p.len(),
        p.subrange(i, end) == streams_bytes(streams),
        forall|k: int| 0 <= k < streams.len() ==> (#[trigger] streams[k]).wf(),
    ensures
        forall|pid: u16| #[trigger]
            stream_pids(p, i, end).contains(pid) <==> exists|k: int|
                0 <= k < streams.len() && (#[trigger] streams[k]).pid == pid,
    decreases streams.len(),
{
    let s = p.subrange(i, end);
    if streams.len() == 0 {
        assert(s.len() == 0);
    } else {
        let e = streams[0];
        let rest = streams.skip(1);
        let n = e.descriptors.len() as int;
        assert(e.wf());
        lemma_bytes13(e.bits as int, e.pid as int);
        lemma_bytes12(e.length_bits as int, n);
        let head = e.bytes();
        assert(head.len() == 5 + n);
        assert(s.len() == 5 + n + streams_bytes(rest).len());
        assert(p[i + 1] == s[1] && s[1] == head[1]);
        assert(p[i + 2] == s[2] && s[2] == head[2]);
        assert(p[i + 3] == s[3] && s[3] == head[3]);
        assert(p[i + 4] == s[4] && s[4] == head[4]);
        assert(head[1] == bytes13(e.bits as int, e.pid as int)[0]);
        assert(head[2] == bytes13(e.bits as int, e.pid as int)[1]);
        assert(head[3] == bytes12(e.length_bits as int, n)[0]);
        assert(head[4] == bytes12(e.length_bits as int, n)[1]);
        assert(p.subrange(i + 5 + n, end) =~= s.skip(5 + n));
        assert(s.skip(5 + n) =~= streams_bytes(rest));
        assert forall|k: int| 0 <= k < rest.len() implies (#[trigger] rest[k]).wf() by {
            assert(rest[k] == streams[k + 1]);
        }
        lemma_streams(p, i + 5 + n, end, rest);
        let later = stream_pids(p, i + 5 + n, end);
        assert(stream_pids(p, i, end) == later.insert(e.pid));
        assert forall|pid: u16| #[trigger]
            stream_pids(p, i, end).contains(pid) <==> exists|k: int|
                0 <= k < streams.len() && (#[trigger] streams[k]).pid == pid by {
            if later.contains(pid) {
                let k = choose|k: int| 0 <= k < rest.len() && (#[trigger] rest[k]).pid == pid;
                assert(streams[k + 1].pid == pid);
            }
            if pid == e.pid {
                assert(streams[0].pid == pid);
            }
            if exists|k: int| 0 <= k < streams.len() && (#[trigger] streams[k]).pid == pid {
                let k = choose|k: int|
                    0 <= k < streams.len() && (#[trigger] streams[k]).pid == pid;
                if k > 0 {
                    assert(rest[k - 1].pid == pid);
                }
            }
        }
    }
}

proof fn lemma_programs(
    p: Seq<u8>,
    target: u16,
    i: int,
    end: int,
    programs: Seq<ProgramEntry>,
    k: int,
)
    requires
        0 <= i <= end <= p.len(),
        p.subrange(i, end) == programs_bytes(programs),
        forall|j: int| 0 <= j < programs.len() ==> (#[trigger] programs[j]).wf(),
        0 <= k <= programs.len(),
        forall|j: int| 0 <= j < k ==> (#[trigger] programs[j]).program_number != target,
        k < programs.len() ==> programs[k].program_number == target,
    ensures
        pat_lookup(p, target, i, end) == (if k < programs.len() {
            Some(programs[k].pmt_pid)
        } else {
            None
        }),
    decreases programs.len(),
{
    let s = p.subrange(i, end);
    if programs.len() == 0 {
        assert(s.len() == 0);
    } else {
        let e = programs[0];
        let rest = programs.skip(1);
        assert(e.wf());
        lemma_bytes16(e.program_number as int);
        lemma_bytes13(e.bits as int, e.pmt_pid as int);
        let head = e.bytes();
        assert(head.len() == 4);
        assert(s.len() == 4 + programs_bytes(rest).len());
        assert(p[i] == s[0] && s[0] == head[0]);
        assert(p[i + 1] == s[1] && s[1] == head[1]);
        assert(p[i + 2] == s[2] && s[2] == head[2]);
        assert(p[i + 3] == s[3] && s[3] == head[3]);
        assert(head[2] == bytes13(e.bits as int, e.pmt_pid as int)[0]);
        assert(head[3] == bytes13(e.bits as int, e.pmt_pid as int)[1]);
        if k > 0 {
            assert(e.program_number != target);
            assert(p.subrange(i + 4, end) =~= s.skip(4));
            assert(s.skip(4) =~= programs_bytes(rest));
            assert forall|j: int| 0 <= j < rest.len() implies (#[trigger] rest[j]).wf() by {
                assert(rest[j] == programs[j + 1]);
            }
            assert forall|j: int| 0 <= j < k - 1 implies (#[trigger] rest[j]).program_number
                != target by {
                assert(rest[j] == programs[j + 1]);
            }
            lemma_programs(p, target, i + 4, end, rest, k - 1);
        }
    }
}

proof fn lemma_map_table(b: Seq<u8>, o: int, t: MapTable)
    requires
        t.wf(),
        0 <= o,
        o + 8 + t.bytes().len() <= b.len(),
        b.subrange(o + 8, o + 8 + t.bytes().len()) == t.bytes(),
    ensures
        t.bytes().len() >= 4,
        field13(b[o + 8], b[o + 9]) == t.pcr_pid,
        stream_pids(
            b,
            o + 12 + field12(b[o + 10], b[o + 11]),
            o + 8 + t.bytes().len(),
        ).insert(t.pcr_pid) == t.pids(),
{
    let contents = t.bytes();
    let n = t.descriptors.len() as int;
    let end = o + 8 + contents.len();
    let c = b.subrange(o + 8, end);
    lemma_bytes13(t.bits as int, t.pcr_pid as int);
    lemma_bytes12(t.length_bits as int, n);
    assert(contents.len() == 4 + n + streams_bytes(t.streams).len());
    assert(contents[0] == bytes13(t.bits as int, t.pcr_pid as int)[0]);
    assert(contents[1] == bytes13(t.bits as int, t.pcr_pid as int)[1]);
    assert(contents[2] == bytes12(t.length_bits as int, n)[0]);
    assert(contents[3] == bytes12(t.length_bits as int, n)[1]);
    assert(b[o + 8] == c[0]);
    assert(b[o + 9] == c[1]);
    assert(b[o + 10] == c[2]);
    assert(b[o + 11] == c[3]);
    assert(b.subrange(o + 12 + n, end) =~= c.skip(4 + n));
    assert(c.skip(4 + n) =~= streams_bytes(t.streams));
    lemma_streams(b, o + 12 + n, end, t.streams);
    assert(stream_pids(b, o + 12 + n, end).insert(t.pcr_pid) =~= t.pids());
}

proof fn lemma_one_packet(m: FilterModel, p: Packet)
    requires
        p.wf(),
    ensures
        filter_run(m, p.bytes()) == step(m, p.bytes()),
{
    lemma_header(p);
    let b = p.bytes();
    assert(b.take(188) =~= b);
    assert(b.skip(188) =~= Seq::<u8>::empty());
    let first = step(m, b);
    assert(filter_run(first.0, b.skip(188)) == (first.0, Seq::<u8>::empty()));
    assert(first.1 + Seq::<u8>::empty() =~= first.1);
}

// ---------------------------------------------------------------- laws

/// An association table tells a filter where the map table of its program is: the PID of the
/// first entry with the number of the program. Where no entry has it, nothing is known of the
/// program. The packet passes.
pub proof fn law_association_table_is_read(
    m: FilterModel,
    p: Packet,
    s: Section,
    programs: Seq<ProgramEntry>,
    k: int,
)
    requires
        p.wf(),
        p.header.sync == 0x47,
        p.header.start,
        p.header.pid == 0,
        s.wf(),
        p.payload == s.payload(0, programs_bytes(programs)),
        forall|j: int| 0 <= j < programs.len() ==> (#[trigger] programs[j]).wf(),
        m.program is None,
        m.pat_version != Some(s.version),
        0 <= k <= programs.len(),
        forall|j: int| 0 <= j < k ==> (#[trigger] programs[j]).program_number != m.target,
        k < programs.len() ==> programs[k].program_number == m.target,
    ensures
        filter_run(m, p.bytes()).1 == p.bytes(),
        filter_run(m, p.bytes()).0 == (FilterModel {
            pat_version: Some(s.version),
            program: if k < programs.len() {
                Some(
                    ProgramModel {
                        program_number: m.target,
                        pmt_pid: programs[k].pmt_pid,
                        pids: Set::empty(),
                    },
                )
            } else {
                None
            },
            ..m
        }),
{
    let contents = programs_bytes(programs);
    let b = p.bytes();
    lemma_header(p);
    lemma_section(p, s, 0, contents);
    let o = section_start(b);
    lemma_programs(b, m.target, o + 8, o + 8 + contents.len(), programs, k);
    lemma_one_packet(m, p);
}

/// The map table of a program tells a filter the PIDs of the program: exactly that of the clock
/// and those of the elementary streams, whatever descriptors the program and the streams have.
/// The packet passes.
pub proof fn law_map_table_is_read(m: FilterModel, p: Packet, s: Section, t: MapTable)
    requires
        p.wf(),
        p.header.sync == 0x47,
        p.header.start,
        p.header.pid != 0,
        s.wf(),
        t.wf(),
        p.payload == s.payload(2, t.bytes()),
        m.program matches Some(info) && info.pmt_pid == p.header.pid,
        m.pmt_version != Some(s.version),
    ensures
        filter_run(m, p.bytes()).1 == p.bytes(),
        filter_run(m, p.bytes()).0 == (FilterModel {
            pmt_version: Some(s.version),
            program: Some(
                ProgramModel {
                    program_number: m.program->0.program_number,
                    pmt_pid: p.header.pid,
                    pids: t.pids(),
                },
            ),
            ..m
        }),
{
    let b = p.bytes();
    lemma_header(p);
    lemma_section(p, s, 2, t.bytes());
    lemma_map_table(b, section_start(b), t);
    lemma_one_packet(m, p);
}

/// What passes of packets that carry no tables: those that are well formed and have one of the
/// PIDs; for each of the others a null packet, where the filter fills, or nothing.
pub open spec fn passed(packets: Seq<Packet>, pids: Set<u16>, fill: bool) -> Seq<u8>
    decreases packets.len(),
{
    if packets.len() == 0 {
        Seq::empty()
    } else {
        let p = packets[0];
        (if p.header.sync == 0x47 && pids.contains(p.header.pid) {
            p.bytes()
        } else if fill {
            null_packet_bytes()
        } else {
            Seq::empty()
        }) + passed(packets.skip(1), pids, fill)
    }
}

/// Once a filter knows its program, exactly the packets of the program pass, unchanged and in
/// their order, with those of the two tables of the whole stream; packets that carry none of
/// the tables it reads leave what it knows alone.
pub proof fn law_packets_of_the_program_pass(
    m: FilterModel,
    packets: Seq<Packet>,
    pmt_pid: u16,
    pids: Set<u16>,
)
    requires
        m.program matches Some(info) && info.pmt_pid == pmt_pid && info.pids == pids,
        forall|i: int|
            0 <= i < packets.len() ==> (#[trigger] packets[i]).wf() && (packets[i].header.start
                ==> packets[i].header.pid != 0 && packets[i].header.pid != pmt_pid),
    ensures
        filter_run(m, packets_bytes(packets)) == (
            m,
            passed(packets, pids.insert(0).insert(1).insert(pmt_pid), m.fill_with_nulls),
        ),
    decreases packets.len(),
{
    let input = packets_bytes(packets);
    let all = pids.insert(0).insert(1).insert(pmt_pid);
    if packets.len() > 0 {
        let p = packets[0];
        let rest = packets.skip(1);
        assert(p.wf());
        lemma_header(p);
        assert(input.take(188) =~= p.bytes());
        assert(input.skip(188) =~= packets_bytes(rest));
        assert forall|i: int| 0 <= i < rest.len() implies (#[trigger] rest[i]).wf() && (
        rest[i].header.start ==> rest[i].header.pid != 0 && rest[i].header.pid != pmt_pid) by {
            assert(rest[i] == packets[i + 1]);
        }
        law_packets_of_the_program_pass(m, rest, pmt_pid, pids);
        assert(step(m, p.bytes()).0 == m);
    }
}

/// A filter takes its program out of a stream: after the association table and the map table of
/// the program, which pass, exactly the packets of the program follow.
pub proof fn law_program_is_extracted(
    target: u16,
    fill: bool,
    first: Packet,
    pat: Section,
    programs: Seq<ProgramEntry>,
    k: int,
    second: Packet,
    pmt: Section,
    t: MapTable,
    packets: Seq<Packet>,
)
    requires
        first.wf(),
        first.header.sync == 0x47,
        first.header.start,
        first.header.pid == 0,
        pat.wf(),
        first.payload == pat.payload(0, programs_bytes(programs)),
        forall|j: int| 0 <= j < programs.len() ==> (#[trigger] programs[j]).wf(),
        0 <= k < programs.len(),
        forall|j: int| 0 <= j < k ==> (#[trigger] programs[j]).program_number != target,
        programs[k].program_number == target,
        second.wf(),
        second.header.sync == 0x47,
        second.header.start,
        second.header.pid == programs[k].pmt_pid,
        programs[k].pmt_pid != 0,
        pmt.wf(),
        t.wf(),
        second.payload == pmt.payload(2, t.bytes()),
        forall|i: int|
            0 <= i < packets.len() ==> (#[trigger] packets[i]).wf() && (packets[i].header.start
                ==> packets[i].header.pid != 0 && packets[i].header.pid != programs[k].pmt_pid),
    ensures
        filter_run(
            FilterModel {
                target,
                fill_with_nulls: fill,
                pat_version: None,
                pmt_version: None,
                program: None,
            },
            first.bytes() + second.bytes() + packets_bytes(packets),
        ).1 == first.bytes() + second.bytes() + passed(
            packets,
            t.pids().insert(0).insert(1).insert(programs[k].pmt_pid),
            fill,
        ),
{
    let m = FilterModel {
        target,
        fill_with_nulls: fill,
        pat_version: None,
        pmt_version: None,
        program: None,
    };
    law_association_table_is_read(m, first, pat, programs, k);
    let m1 = filter_run(m, first.bytes()).0;
    law_map_table_is_read(m1, second, pmt, t);
    let m2 = filter_run(m1, second.bytes()).0;
    law_packets_of_the_program_pass(m2, packets, programs[k].pmt_pid, t.pids());
    lemma_header(first);
    lemma_header(second);
    crate::mpegts_laws::law_batches_compose(m, first.bytes(), second.bytes());
    crate::mpegts_laws::law_batches_compose(
        m,
        first.bytes() + second.bytes(),
        packets_bytes(packets),
    );
}

/// A later version of the map table replaces the PIDs, and the version seen last teaches
/// nothing.
pub proof fn law_map_table_is_replaced(
    m: FilterModel,
    p: Packet,
    s: Section,
    t: MapTable,
)
    requires
        p.wf(),
        p.header.sync == 0x47,
        p.header.start,
        p.header.pid != 0,
        s.wf(),
        t.wf(),
        p.payload == s.payload(2, t.bytes()),
        m.program matches Some(info) && info.pmt_pid == p.header.pid,
    ensures
        m.pmt_version == Some(s.version) ==> filter_run(m, p.bytes()).0 == m,
        m.pmt_version != Some(s.version) ==> filter_run(m, p.bytes()).0.program->0.pids
            == t.pids(),
{
    lemma_header(p);
    lemma_section(p, s, 2, t.bytes());
    lemma_one_packet(m, p);
    if m.pmt_version != Some(s.version) {
        law_map_table_is_read(m, p, s, t);
    }
}

// ---------------------------------------------------------------- tables longer than a packet

/// Where things stand in a packet that carries the beginning of a section.
proof fn lemma_cut_section(p: Packet, s: Section, table: u8, contents: Seq<u8>)
    requires
        p.wf(),
        p.header.start,
        s.wf(),
        contents.len() + 9 < 0x1000,
        s.payload(table, contents).len() >= 184,
        p.payload == s.payload(table, contents).take(184),
        13 + s.skipped.len() <= 188,
    ensures
        ({
            let b = p.bytes();
            let o = section_start(b);
            &&& b.len() == 188
            &&& o == 5 + s.skipped.len()
            &&& b[o] == table
            &&& section_version(b, o) == s.version
            &&& section_end(b, o) == o + 8 + contents.len()
            &&& forall|j: int|
                0 <= j < contents.len() && o + 8 + j < 188 ==> b[o + 8 + j] == #[trigger] contents[j]
        }),
{
    let b = p.bytes();
    let n = s.skipped.len() as int;
    let length = 5 + contents.len() as int + 4;
    lemma_header(p);
    let q = s.payload(table, contents);
    assert forall|i: int| 0 <= i < 184 implies b[4 + i] == #[trigger] q[i] by {
        assert(b.skip(4)[i] == b[4 + i]);
        assert(p.payload[i] == q[i]);
    }
    let current: int = if s.current {
        1
    } else {
        0
    };
    lemma_bytes12(s.flags as int, length);
    assert(q[0] == n as u8);
    assert(b[4] == n);
    assert(q[1 + n] == table);
    assert(q[2 + n] == bytes12(s.flags as int, length)[0]);
    assert(q[3 + n] == bytes12(s.flags as int, length)[1]);
    assert(q[6 + n] == (s.mark * 64 + s.version * 2 + current) as u8);
    let o = 5 + n;
    assert(b[o] == q[1 + n]);
    assert(b[o + 1] == q[2 + n]);
    assert(b[o + 2] == q[3 + n]);
    assert(b[o + 5] == q[6 + n]);
    assert(b[o + 5] == s.mark * 64 + s.version * 2 + current);
    assert forall|j: int| 0 <= j < contents.len() && o + 8 + j < 188 implies b[o + 8 + j]
        == #[trigger] contents[j] by {
        assert(q[9 + n + j] == contents[j]);
        assert(b[4 + (9 + n + j)] == q[9 + n + j]);
    }
}

/// Whether the head of a stream lies within the first `room` bytes.
pub open spec fn head_fits(streams: Seq<StreamEntry>, k: int, room: int) -> bool {
    streams_bytes(streams.take(k)).len() + 5 <= room
}

proof fn lemma_cut_streams(b: Seq<u8>, i: int, end: int, streams: Seq<StreamEntry>)
    requires
        0 <= i <= end,
        end - i == streams_bytes(streams).len(),
        forall|j: int|
            0 <= j < end - i && i + j < b.len() ==> b[i + j] == #[trigger] streams_bytes(
                streams,
            )[j],
        forall|k: int| 0 <= k < streams.len() ==> (#[trigger] streams[k]).wf(),
    ensures
        forall|pid: u16| #[trigger]
            stream_pids(b, i, end).contains(pid) <==> exists|k: int|
                0 <= k < streams.len() && (#[trigger] streams[k]).pid == pid && head_fits(
                    streams,
                    k,
                    b.len() - i,
                ),
    decreases streams.len(),
{
    let s = streams_bytes(streams);
    if streams.len() > 0 {
        let e = streams[0];
        let rest = streams.skip(1);
        let r = streams_bytes(rest);
        let n = e.descriptors.len() as int;
        let head = e.bytes();
        let room = b.len() - i;
        assert(e.wf());
        lemma_bytes13(e.bits as int, e.pid as int);
        lemma_bytes12(e.length_bits as int, n);
        assert(head.len() == 5 + n);
        assert(s.len() == 5 + n + r.len());
        assert(streams.take(0) =~= Seq::<StreamEntry>::empty());
        assert forall|k: int| 0 <= k < rest.len() implies streams_bytes(
            streams.take(k + 1),
        ).len() == 5 + n + streams_bytes(#[trigger] rest.take(k)).len() by {
            assert(streams.take(k + 1).skip(1) =~= rest.take(k));
            assert(streams.take(k + 1)[0] == e);
        }
        if i + 5 > b.len() {
            assert forall|k: int| 0 <= k < streams.len() implies !(#[trigger] head_fits(
                streams,
                k,
                room,
            )) by {
                if k > 0 {
                    assert(rest.take(k - 1).len() == k - 1);
                }
            }
        } else {
            assert(s[1] == head[1] && s[2] == head[2] && s[3] == head[3] && s[4] == head[4]);
            assert(b[i + 1] == s[1] && b[i + 2] == s[2] && b[i + 3] == s[3] && b[i + 4] == s[4]);
            assert(head[1] == bytes13(e.bits as int, e.pid as int)[0]);
            assert(head[2] == bytes13(e.bits as int, e.pid as int)[1]);
            assert(head[3] == bytes12(e.length_bits as int, n)[0]);
            assert(head[4] == bytes12(e.length_bits as int, n)[1]);
            let at = i + 5 + n;
            assert forall|j: int| 0 <= j < end - at && at + j < b.len() implies b[at + j]
                == #[trigger] r[j] by {
                assert(s[5 + n + j] == r[j]);
                assert(b[i + (5 + n + j)] == s[5 + n + j]);
            }
            assert forall|k: int| 0 <= k < rest.len() implies (#[trigger] rest[k]).wf() by {
                assert(rest[k] == streams[k + 1]);
            }
            lemma_cut_streams(b, at, end, rest);
            let later = stream_pids(b, at, end);
            assert(stream_pids(b, i, end) == later.insert(e.pid));
            assert forall|pid: u16| #[trigger]
                stream_pids(b, i, end).contains(pid) <==> exists|k: int|
                    0 <= k < streams.len() && (#[trigger] streams[k]).pid == pid && head_fits(
                        streams,
                        k,
                        room,
                    ) by {
                if later.contains(pid) {
                    let k = choose|k: int|
                        0 <= k < rest.len() && (#[trigger] rest[k]).pid == pid && head_fits(
                            rest,
                            k,
                            b.len() - at,
                        );
                    assert(rest.take(k).len() == k);
                    assert(streams[k + 1].pid == pid && head_fits(streams, k + 1, room));
                }
                if pid == e.pid {
                    assert(streams[0].pid == pid && head_fits(streams, 0, room));
                }
                if exists|k: int|
                    0 <= k < streams.len() && (#[trigger] streams[k]).pid == pid && head_fits(
                        streams,
                        k,
                        room,
                    ) {
                    let k = choose|k: int|
                        0 <= k < streams.len() && (#[trigger] streams[k]).pid == pid && head_fits(
                            streams,
                            k,
                            room,
                        );
                    if k > 0 {
                        assert(rest.take(k - 1).len() == k - 1);
                        assert(rest[k - 1].pid == pid && head_fits(rest, k - 1, b.len() - at));
                    }
                }
            }
        }
    }
}

proof fn lemma_cut_map_table(b: Seq<u8>, o: int, t: MapTable)
    requires
        t.wf(),
        0 <= o,
        o + 12 <= b.len(),
        forall|j: int|
            0 <= j < t.bytes().len() && o + 8 + j < b.len() ==> b[o + 8 + j] == #[trigger] t.bytes()[j],
    ensures
        field13(b[o + 8], b[o + 9]) == t.pcr_pid,
        field12(b[o + 10], b[o + 11]) == t.descriptors.len(),
        forall|pid: u16| #[trigger]
            stream_pids(
                b,
                o + 12 + t.descriptors.len(),
                o + 8 + t.bytes().len(),
            ).contains(pid) <==> exists|k: int|
                0 <= k < t.streams.len() && (#[trigger] t.streams[k]).pid == pid && head_fits(
                    t.streams,
                    k,
                    b.len() - (o + 12 + t.descriptors.len()),
                ),
{
    let c = t.bytes();
    let n = t.descriptors.len() as int;
    let r = streams_bytes(t.streams);
    lemma_bytes13(t.bits as int, t.pcr_pid as int);
    lemma_bytes12(t.length_bits as int, n);
    assert(c.len() == 4 + n + r.len());
    assert(c[0] == bytes13(t.bits as int, t.pcr_pid as int)[0]);
    assert(c[1] == bytes13(t.bits as int, t.pcr_pid as int)[1]);
    assert(c[2] == bytes12(t.length_bits as int, n)[0]);
    assert(c[3] == bytes12(t.length_bits as int, n)[1]);
    assert(b[o + 8 + 0] == c[0] && b[o + 8 + 1] == c[1] && b[o + 8 + 2] == c[2] && b[o + 8 + 3]
        == c[3]);
    let at = o + 12 + n;
    assert forall|j: int| 0 <= j < r.len() && at + j < b.len() implies b[at + j]
        == #[trigger] r[j] by {
        assert(c[4 + n + j] == r[j]);
        assert(b[o + 8 + (4 + n + j)] == c[4 + n + j]);
    }
    lemma_cut_streams(b, at, o + 8 + c.len(), t.streams);
}

/// A map table that is longer than its packet is read as far as it goes: the filter learns the
/// PID of the clock and those of the streams whose heads lie in the packet.
pub proof fn law_cut_map_table_is_read(
    m: FilterModel,
    p: Packet,
    s: Section,
    t: MapTable,
    pid: u16,
)
    requires
        p.wf(),
        p.header.sync == 0x47,
        p.header.start,
        p.header.pid != 0,
        s.wf(),
        t.wf(),
        t.bytes().len() + 9 < 0x1000,
        s.payload(2, t.bytes()).len() >= 184,
        p.payload == s.payload(2, t.bytes()).take(184),
        17 + s.skipped.len() <= 188,
        m.program matches Some(info) && info.pmt_pid == p.header.pid,
        m.pmt_version != Some(s.version),
    ensures
        filter_run(m, p.bytes()).1 == p.bytes(),
        ({
            let after = filter_run(m, p.bytes()).0;
            let room = 188 - (17 + s.skipped.len() + t.descriptors.len());
            &&& after.pmt_version == Some(s.version)
            &&& after.pat_version == m.pat_version
            &&& after.target == m.target
            &&& after.program matches Some(info) && info.pmt_pid == p.header.pid
                && info.program_number == m.program->0.program_number && (info.pids.contains(pid)
                <==> pid == t.pcr_pid || exists|k: int|
                0 <= k < t.streams.len() && (#[trigger] t.streams[k]).pid == pid && head_fits(
                    t.streams,
                    k,
                    room,
                ))
        }),
{
    let b = p.bytes();
    lemma_header(p);
    lemma_cut_section(p, s, 2, t.bytes());
    lemma_cut_map_table(b, section_start(b), t);
    lemma_one_packet(m, p);
}

proof fn lemma_programs_len(programs: Seq<ProgramEntry>)
    ensures
        programs_bytes(programs).len() == 4 * programs.len(),
    decreases programs.len(),
{
    if programs.len() > 0 {
        lemma_programs_len(programs.skip(1));
        assert(programs[0].bytes().len() == 4);
    }
}

proof fn lemma_cut_programs(
    b: Seq<u8>,
    target: u16,
    i: int,
    end: int,
    programs: Seq<ProgramEntry>,
    k: int,
)
    requires
        0 <= i <= end,
        end - i == 4 * programs.len(),
        forall|j: int|
            0 <= j < end - i && i + j < b.len() ==> b[i + j] == #[trigger] programs_bytes(
                programs,
            )[j],
        forall|j: int| 0 <= j < programs.len() ==> (#[trigger] programs[j]).wf(),
        0 <= k < programs.len(),
        forall|j: int| 0 <= j < k ==> (#[trigger] programs[j]).program_number != target,
        programs[k].program_number == target,
    ensures
        pat_lookup(b, target, i, end) == (if i + 4 * (k + 1) <= b.len() {
            Some(programs[k].pmt_pid)
        } else {
            None
        }),
    decreases programs.len(),
{
    let e = programs[0];
    let rest = programs.skip(1);
    let s = programs_bytes(programs);
    let r = programs_bytes(rest);
    lemma_programs_len(programs);
    lemma_programs_len(rest);
    assert(e.wf());
    lemma_bytes16(e.program_number as int);
    lemma_bytes13(e.bits as int, e.pmt_pid as int);
    if i + 4 <= b.len() {
        let head = e.bytes();
        assert(head.len() == 4);
        assert(s[0] == head[0] && s[1] == head[1] && s[2] == head[2] && s[3] == head[3]);
        assert(b[i + 0] == s[0] && b[i + 1] == s[1] && b[i + 2] == s[2] && b[i + 3] == s[3]);
        assert(head[0] == bytes16(e.program_number as int)[0]);
        assert(head[1] == bytes16(e.program_number as int)[1]);
        assert(head[2] == bytes13(e.bits as int, e.pmt_pid as int)[0]);
        assert(head[3] == bytes13(e.bits as int, e.pmt_pid as int)[1]);
        if k > 0 {
            assert forall|j: int| 0 <= j < end - (i + 4) && i + 4 + j < b.len() implies b[i + 4 + j]
                == #[trigger] r[j] by {
                assert(s[4 + j] == r[j]);
                assert(b[i + (4 + j)] == s[4 + j]);
            }
            assert forall|j: int| 0 <= j < rest.len() implies (#[trigger] rest[j]).wf() by {
                assert(rest[j] == programs[j + 1]);
            }
            assert forall|j: int| 0 <= j < k - 1 implies (#[trigger] rest[j]).program_number
                != target by {
                assert(rest[j] == programs[j + 1]);
            }
            lemma_cut_programs(b, target, i + 4, end, rest, k - 1);
        }
    }
}

/// An association table that is longer than its packet is read as far as it goes: the program is
/// found exactly if its entry lies in the packet.
pub proof fn law_cut_association_table_is_read(
    m: FilterModel,
    p: Packet,
    s: Section,
    programs: Seq<ProgramEntry>,
    k: int,
)
    requires
        p.wf(),
        p.header.sync == 0x47,
        p.header.start,
        p.header.pid == 0,
        s.wf(),
        4 * programs.len() + 9 < 0x1000,
        s.payload(0, programs_bytes(programs)).len() >= 184,
        p.payload == s.payload(0, programs_bytes(programs)).take(184),
        13 + s.skipped.len() <= 188,
        forall|j: int| 0 <= j < programs.len() ==> (#[trigger] programs[j]).wf(),
        m.program is None,
        m.pat_version != Some(s.version),
        0 <= k < programs.len(),
        forall|j: int| 0 <= j < k ==> (#[trigger] programs[j]).program_number != m.target,
        programs[k].program_number == m.target,
    ensures
        filter_run(m, p.bytes()).1 == p.bytes(),
        filter_run(m, p.bytes()).0.pat_version == Some(s.version),
        filter_run(m, p.bytes()).0.program == (if 13 + s.skipped.len() + 4 * (k + 1) <= 188 {
            Some(
                ProgramModel {
                    program_number: m.target,
                    pmt_pid: programs[k].pmt_pid,
                    pids: Set::empty(),
                },
            )
        } else {
            None
        }),
{
    let b = p.bytes();
    let c = programs_bytes(programs);
    lemma_programs_len(programs);
    lemma_header(p);
    lemma_cut_section(p, s, 0, c);
    let o = section_start(b);
    lemma_cut_programs(b, m.target, o + 8, o + 8 + c.len(), programs, k);
    lemma_one_packet(m, p);
}

} // verus!
