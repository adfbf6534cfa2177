use bytes::{BufMut, Bytes, BytesMut};
use stream_gateway::mpegts_filter::{
    null_packet, ProgramFilter, TsPacket, CAT_PID, NULL_PID, PAT_PID, TS_PACKET_SIZE, TS_SYNC_BYTE,
};

/// A packet with this header and payload, stuffed to its full size.
fn packet(pid: u16, start: bool, payload: &[u8]) -> Vec<u8> {
    let flags: u8 = if start { 0x40 } else { 0x00 };
    let mut p = vec![0x47, flags | (pid >> 8) as u8, (pid & 0xff) as u8, 0x10];
    p.extend_from_slice(payload);
    p.resize(TS_PACKET_SIZE, 0xff);
    p
}

/// An association table.
fn pat(version: u8, programs: &[(u16, u16)]) -> Vec<u8> {
    let length = 5 + 4 * programs.len() + 4;
    let mut s = vec![0x00, 0x00, 0xb0 | (length >> 8) as u8, length as u8, 0x00, 0x01];
    s.extend_from_slice(&[0xc1 | (version << 1), 0x00, 0x00]);
    for (number, pid) in programs {
        s.extend_from_slice(&[(number >> 8) as u8, *number as u8]);
        s.extend_from_slice(&[0xe0 | (pid >> 8) as u8, *pid as u8]);
    }
    s.extend_from_slice(&[1, 2, 3, 4]);
    packet(PAT_PID, true, &s)
}

/// A map table.
fn pmt(pid: u16, version: u8, pcr: u16, streams: &[(u16, usize)]) -> Vec<u8> {
    let extra: usize = streams.iter().map(|(_, info)| info).sum();
    let length = 9 + 5 * streams.len() + extra + 4;
    let mut s = vec![0x00, 0x02, 0xb0 | (length >> 8) as u8, length as u8, 0x00, 0x01];
    s.extend_from_slice(&[0xc1 | (version << 1), 0x00, 0x00]);
    s.extend_from_slice(&[0xe0 | (pcr >> 8) as u8, pcr as u8, 0xf0, 0x00]);
    for (stream, info) in streams {
        s.extend_from_slice(&[0x1b, 0xe0 | (stream >> 8) as u8, *stream as u8, 0xf0, *info as u8]);
        s.extend(std::iter::repeat(0xaa).take(*info));
    }
    s.extend_from_slice(&[1, 2, 3, 4]);
    packet(pid, true, &s)
}

fn batch(packets: &[Vec<u8>]) -> Bytes {
    Bytes::from(packets.concat())
}

/// Two programs: 1 with its map table at 0x100, 2 with its map table at 0x200.
fn tables() -> Vec<Vec<u8>> {
    vec![
        pat(0, &[(1, 0x100), (2, 0x200)]),
        pmt(0x100, 0, 0x101, &[(0x101, 0), (0x102, 3)]),
        pmt(0x200, 0, 0x201, &[(0x201, 0)]),
    ]
}

#[test]
fn test_ts_packet_parse() {
    let mut data = BytesMut::with_capacity(TS_PACKET_SIZE);
    data.put_u8(TS_SYNC_BYTE);
    data.put_u8(0x00);
    data.put_u8(0x00);
    data.resize(TS_PACKET_SIZE, 0xFF);

    let packet = TsPacket::parse(data.freeze()).unwrap();
    assert_eq!(packet.pid, PAT_PID);
}

#[test]
fn test_program_filter_creation() {
    let filter = ProgramFilter::new(1, false);
    assert_eq!(filter.target_program, 1);
    assert!(filter.program_info.is_none());
}

#[test]
fn packet_fields_are_read() {
    let p = TsPacket::parse(Bytes::from(packet(0x1abc, true, &[]))).unwrap();
    assert_eq!(p.pid, 0x1abc);
    assert!(p.payload_unit_start);
    assert_eq!(p.data.len(), 188);
    let p = TsPacket::parse(Bytes::from(packet(0x0001, false, &[]))).unwrap();
    assert_eq!(p.pid, CAT_PID);
    assert!(!p.payload_unit_start);
}

#[test]
fn other_sizes_and_sync_bytes_are_no_packets() {
    assert!(TsPacket::parse(Bytes::from(vec![0x47; 187])).is_none());
    assert!(TsPacket::parse(Bytes::from(vec![0x47; 189])).is_none());
    assert!(TsPacket::parse(Bytes::new()).is_none());
    let mut p = packet(0, false, &[]);
    p[0] = 0x48;
    assert!(TsPacket::parse(Bytes::from(p)).is_none());
}

#[test]
fn null_packet_is_well_formed() {
    let p = TsPacket::parse(null_packet()).unwrap();
    assert_eq!(p.pid, NULL_PID);
    assert!(!p.payload_unit_start);
    assert_eq!(&p.data[..4], &[0x47, 0x1f, 0xff, 0x10]);
    assert!(p.data[4..].iter().all(|b| *b == 0xff));
}

#[test]
fn program_is_extracted() {
    let mut filter = ProgramFilter::new(1, false);
    let mut packets = tables();
    packets.push(packet(0x101, false, &[1]));
    packets.push(packet(0x102, false, &[2]));
    packets.push(packet(0x201, false, &[3]));
    packets.push(packet(NULL_PID, false, &[]));
    let out = filter.filter_packets(&batch(&packets));
    let expected = [&packets[0], &packets[1], &packets[3], &packets[4]];
    let expected: Vec<u8> = expected.iter().flat_map(|p| p.iter().copied()).collect();
    assert_eq!(out, Bytes::from(expected));

    let info = filter.get_program_info().unwrap();
    assert_eq!(info.program_number, 1);
    assert_eq!(info.pmt_pid, 0x100);
    assert_eq!(info.pids.len(), 2);
    assert!(info.pids.contains(&0x101) && info.pids.contains(&0x102));
}

#[test]
fn only_tables_pass_before_the_program_is_found() {
    let mut filter = ProgramFilter::new(9, false);
    let mut packets = tables();
    packets.push(packet(CAT_PID, false, &[]));
    packets.push(packet(0x101, false, &[]));
    let out = filter.filter_packets(&batch(&packets));
    let expected = [packets[0].clone(), packets[3].clone()].concat();
    assert_eq!(out, Bytes::from(expected));
    assert!(filter.get_program_info().is_none());
    assert_eq!(filter.pat_version, Some(0));
}

#[test]
fn filling_keeps_the_length() {
    let mut filter = ProgramFilter::new(1, true);
    let mut packets = tables();
    packets.push(packet(0x201, false, &[3]));
    let mut broken = packet(0x101, false, &[]);
    broken[0] = 0x00;
    packets.push(broken);
    let out = filter.filter_packets(&batch(&packets));
    assert_eq!(out.len(), 188 * packets.len());
    assert_eq!(out.slice(188 * 2..188 * 3), null_packet());
    assert_eq!(out.slice(188 * 3..188 * 4), null_packet());
    assert_eq!(out.slice(188 * 4..), null_packet());
    assert_eq!(out.slice(188..188 * 2), Bytes::from(packets[1].clone()));
}

#[test]
fn broken_packets_are_dropped_without_filling() {
    let mut filter = ProgramFilter::new(1, false);
    let out = filter.filter_packets(&Bytes::from(vec![0u8; 376]));
    assert!(out.is_empty());
}

#[test]
fn bytes_behind_the_last_packet_are_dropped() {
    let mut filter = ProgramFilter::new(1, true);
    let mut data = pat(0, &[(1, 0x100)]);
    data.extend_from_slice(&[0x47; 100]);
    let out = filter.filter_packets(&Bytes::from(data));
    assert_eq!(out.len(), 188);
    assert!(filter.filter_packets(&Bytes::from(vec![0x47; 187])).is_empty());
}

#[test]
fn batches_compose() {
    let mut packets = tables();
    for k in 0..20u8 {
        packets.push(packet(if k % 3 == 0 { 0x101 } else { 0x201 }, false, &[k]));
    }
    let mut whole = ProgramFilter::new(1, true);
    let expected = whole.filter_packets(&batch(&packets));
    for cut in 0..packets.len() {
        let mut parts = ProgramFilter::new(1, true);
        let a = parts.filter_packets(&batch(&packets[..cut]));
        let b = parts.filter_packets(&batch(&packets[cut..]));
        assert_eq!([a, b].concat(), expected.to_vec());
        assert_eq!(parts.pat_version, whole.pat_version);
        assert_eq!(parts.pmt_version, whole.pmt_version);
    }
}

#[test]
fn program_is_found_once() {
    let mut filter = ProgramFilter::new(1, false);
    filter.filter_packets(&batch(&[pat(0, &[(1, 0x100)])]));
    filter.filter_packets(&batch(&[pat(1, &[(1, 0x300)])]));
    assert_eq!(filter.pat_version, Some(1));
    assert_eq!(filter.get_program_info().unwrap().pmt_pid, 0x100);
}

#[test]
fn repeated_tables_teach_nothing() {
    let mut filter = ProgramFilter::new(1, false);
    filter.filter_packets(&batch(&[pat(3, &[(1, 0x100)]), pmt(0x100, 5, 0x101, &[(0x102, 0)])]));
    // The same version with other streams is not read again.
    filter.filter_packets(&batch(&[pmt(0x100, 5, 0x111, &[(0x112, 0)])]));
    assert!(filter.get_program_info().unwrap().pids.contains(&0x102));
    // Another version replaces what is known.
    filter.filter_packets(&batch(&[pmt(0x100, 6, 0x111, &[(0x112, 0)])]));
    let pids = &filter.get_program_info().unwrap().pids;
    assert!(!pids.contains(&0x102) && pids.contains(&0x111) && pids.contains(&0x112));
}

#[test]
fn tables_without_a_whole_header_are_not_read() {
    let mut filter = ProgramFilter::new(1, false);
    // The pointer field leads to where no header fits.
    let mut late = pat(0, &[(1, 0x100)]);
    late[4] = 176;
    filter.filter_packets(&Bytes::from(late));
    assert_eq!(filter.pat_version, None);
    // Another table id.
    let mut other = pat(0, &[(1, 0x100)]);
    other[5] = 0x42;
    filter.filter_packets(&Bytes::from(other));
    assert_eq!(filter.pat_version, None);
    assert!(filter.get_program_info().is_none());
}

#[test]
fn pointer_field_is_skipped() {
    let mut filter = ProgramFilter::new(2, false);
    let plain = pat(4, &[(1, 0x100), (2, 0x200)]);
    let mut shifted = plain[..4].to_vec();
    shifted.push(3);
    shifted.extend_from_slice(&[9, 9, 9]);
    shifted.extend_from_slice(&plain[5..185]);
    assert_eq!(shifted.len(), 188);
    filter.filter_packets(&Bytes::from(shifted));
    assert_eq!(filter.pat_version, Some(4));
    assert_eq!(filter.get_program_info().unwrap().pmt_pid, 0x200);
}

#[test]
fn descriptors_of_streams_are_skipped() {
    let mut filter = ProgramFilter::new(1, false);
    let streams = [(0x150, 10), (0x151, 0), (0x152, 7)];
    filter.filter_packets(&batch(&[pat(0, &[(1, 0x100)]), pmt(0x100, 0, 0x1fff, &streams)]));
    let pids = &filter.get_program_info().unwrap().pids;
    assert_eq!(pids.len(), 4);
    for pid in [0x150, 0x151, 0x152, 0x1fff] {
        assert!(pids.contains(&pid));
    }
}

#[test]
fn later_association_table_keeps_the_program() {
    let mut filter = ProgramFilter::new(1, false);
    filter.filter_packets(&batch(&tables()));
    let later = pat(1, &[(1, 0x300), (2, 0x200)]);
    assert_eq!(filter.filter_packets(&batch(&[later.clone()])), Bytes::from(later));
    let info = filter.get_program_info().unwrap();
    assert_eq!((info.program_number, info.pmt_pid), (1, 0x100));
    let mut pids: Vec<u16> = info.pids.iter().copied().collect();
    pids.sort();
    assert_eq!(pids, [0x101, 0x102]);
    let kept = packet(0x102, false, &[2]);
    assert_eq!(filter.filter_packets(&batch(&[kept.clone()])), Bytes::from(kept));
}
