//! Laws of the program filter.
use vstd::prelude::*;

#[allow(unused_imports)]
use crate::mpegts_filter::{
    after_pat, field13, filter_run, includes_pid, is_ts_packet, learn, null_packet_bytes,
    packet_pid, starts_unit, step, FilterModel, CAT_PID, NULL_PID, PAT_PID, TS_PACKET_SIZE,
};

verus! {

/// The packet with number `k` of a sequence of packets.
pub open spec fn packet_at(s: Seq<u8>, k: int) -> Seq<u8> {
    s.subrange(188 * k, 188 * k + 188)
}

/// What is known of a program concerns the program that was asked for.
pub open spec fn knows_target_only(m: FilterModel) -> bool {
    m.program matches Some(info) ==> info.program_number == m.target
}

/// A filter that fills with null packets keeps the bitrate: it puts out one packet for each
/// whole packet that came in.
pub proof fn law_fill_keeps_length(m: FilterModel, input: Seq<u8>)
    requires
        m.fill_with_nulls,
    ensures
        filter_run(m, input).1.len() == 188 * (input.len() as int / 188),
    decreases input.len(),
{
    if input.len() >= TS_PACKET_SIZE {
        let first = step(m, input.take(188));
        law_fill_keeps_length(first.0, input.skip(188));
        assert(first.1.len() == 188);
    }
}

/// The output is made of whole packets and is never longer than the input.
pub proof fn law_output_is_whole_packets(m: FilterModel, input: Seq<u8>)
    ensures
        filter_run(m, input).1.len() % 188 == 0,
        filter_run(m, input).1.len() <= input.len(),
    decreases input.len(),
{
    if input.len() >= TS_PACKET_SIZE {
        let first = step(m, input.take(188));
        law_output_is_whole_packets(first.0, input.skip(188));
    }
}

/// A stream may be cut between any two packets: filtering both parts in turn gives the
/// output, and leaves the state, of filtering them as one batch.
pub proof fn law_batches_compose(m: FilterModel, a: Seq<u8>, b: Seq<u8>)
    requires
        a.len() % 188 == 0,
    ensures
        filter_run(m, a + b) == (
            filter_run(filter_run(m, a).0, b).0,
            filter_run(m, a).1 + filter_run(filter_run(m, a).0, b).1,
        ),
    decreases a.len(),
{
    if a.len() == 0 {
        assert(a + b =~= b);
        assert(filter_run(m, a).1 + filter_run(m, b).1 =~= filter_run(m, b).1);
    } else {
        let first = step(m, a.take(188));
        assert((a + b).take(188) =~= a.take(188));
        assert((a + b).skip(188) =~= a.skip(188) + b);
        law_batches_compose(first.0, a.skip(188), b);
        let mid = filter_run(first.0, a.skip(188));
        let end = filter_run(mid.0, b);
        assert(first.1 + (mid.1 + end.1) =~= (first.1 + mid.1) + end.1);
    }
}

/// Every packet of the output is a packet of the input, unchanged, or a null packet; null
/// packets are put in only where the filter is told to fill.
pub proof fn law_output_packets_come_from_input(m: FilterModel, input: Seq<u8>, k: int)
    requires
        0 <= k < filter_run(m, input).1.len() as int / 188,
    ensures
        ({
            let packet = packet_at(filter_run(m, input).1, k);
            ||| m.fill_with_nulls && packet == null_packet_bytes()
            ||| is_ts_packet(packet) && exists|j: int|
                0 <= j < input.len() as int / 188 && packet == #[trigger] packet_at(input, j)
        }),
    decreases input.len(),
{
    if input.len() >= TS_PACKET_SIZE {
        let p = input.take(188);
        let first = step(m, p);
        let rest = filter_run(first.0, input.skip(188));
        law_output_is_whole_packets(first.0, input.skip(188));
        assert(first.0.fill_with_nulls == m.fill_with_nulls);
        let out = first.1 + rest.1;
        if first.1.len() == 0 {
            assert(out =~= rest.1);
            law_output_packets_come_from_input(first.0, input.skip(188), k);
            lemma_shift_packet(input, packet_at(out, k));
        } else if k == 0 {
            assert(packet_at(out, 0) =~= first.1);
            assert(packet_at(input, 0) =~= p);
        } else {
            assert(packet_at(out, k) =~= packet_at(rest.1, k - 1));
            law_output_packets_come_from_input(first.0, input.skip(188), k - 1);
            lemma_shift_packet(input, packet_at(out, k));
        }
    }
}

proof fn lemma_shift_packet(input: Seq<u8>, packet: Seq<u8>)
    requires
        input.len() >= TS_PACKET_SIZE,
    ensures
        (exists|j: int|
            0 <= j < input.skip(188).len() as int / 188 && packet == #[trigger] packet_at(
                input.skip(188),
                j,
            )) ==> (exists|j: int|
            0 <= j < input.len() as int / 188 && packet == #[trigger] packet_at(input, j)),
{
    if exists|j: int|
        0 <= j < input.skip(188).len() as int / 188 && packet == #[trigger] packet_at(
            input.skip(188),
            j,
        ) {
        let j = choose|j: int|
            0 <= j < input.skip(188).len() as int / 188 && packet == #[trigger] packet_at(
                input.skip(188),
                j,
            );
        assert(packet_at(input, j + 1) =~= packet_at(input.skip(188), j));
    }
}

/// A packet is let through exactly when it is well formed and its PID belongs to the program
/// as far as it is known, or to one of the two tables of the whole stream. (Where null packets
/// are put in, one that is not let through cannot be told from one that is put in for it.)
pub proof fn law_packet_passes_iff_included(m: FilterModel, p: Seq<u8>)
    requires
        p.len() == TS_PACKET_SIZE,
        !(m.fill_with_nulls && p == null_packet_bytes()),
    ensures
        step(m, p).1 == p <==> is_ts_packet(p) && includes_pid(m, packet_pid(p)),
        !(is_ts_packet(p) && includes_pid(m, packet_pid(p))) ==> step(m, p).0 == m,
{
}

/// Association and access tables always pass, whatever the filter knows.
pub proof fn law_tables_always_pass(m: FilterModel, p: Seq<u8>)
    requires
        is_ts_packet(p),
        packet_pid(p) == PAT_PID || packet_pid(p) == CAT_PID,
    ensures
        step(m, p).1 == p,
{
}

/// Once the program has been found, later tables never give it another number or another map
/// table PID, and the request itself never changes.
pub proof fn law_program_is_found_once(m: FilterModel, input: Seq<u8>)
    ensures
        filter_run(m, input).0.target == m.target,
        filter_run(m, input).0.fill_with_nulls == m.fill_with_nulls,
        m.program matches Some(before) ==> (filter_run(m, input).0.program matches Some(after)
            && after.program_number == before.program_number && after.pmt_pid == before.pmt_pid),
    decreases input.len(),
{
    if input.len() >= TS_PACKET_SIZE {
        let first = step(m, input.take(188));
        law_program_is_found_once(first.0, input.skip(188));
    }
}

/// Once the program has been found, a later association table changes nothing that is known of
/// it: its number, the PID of its map table and the PIDs that the map table listed stay, and so
/// the same packets pass.
pub proof fn law_later_association_table_keeps_the_program(m: FilterModel, p: Seq<u8>)
    requires
        m.program is Some,
        packet_pid(p) == PAT_PID,
    ensures
        after_pat(m, p).program == m.program,
        step(m, p).0.program == m.program,
        step(m, p).0.pmt_version == m.pmt_version,
        forall|pid: u16| #[trigger] includes_pid(step(m, p).0, pid) == includes_pid(m, pid),
{
}

/// A filter never learns of a program other than the one it was made for.
pub proof fn law_only_the_target_is_known(m: FilterModel, input: Seq<u8>)
    requires
        knows_target_only(m),
    ensures
        knows_target_only(filter_run(m, input).0),
    decreases input.len(),
{
    if input.len() >= TS_PACKET_SIZE {
        let first = step(m, input.take(188));
        law_only_the_target_is_known(first.0, input.skip(188));
    }
}

/// Reading the same packet again teaches nothing more.
pub proof fn law_repeated_packet_teaches_nothing(m: FilterModel, p: Seq<u8>)
    requires
        is_ts_packet(p),
    ensures
        learn(learn(m, p), p) == learn(m, p),
{
}

/// The null packet is a well-formed packet, its PID is the null PID, and a filter learns nothing
/// from it.
pub proof fn law_null_packet(m: FilterModel)
    ensures
        is_ts_packet(null_packet_bytes()),
        packet_pid(null_packet_bytes()) == NULL_PID,
        !starts_unit(null_packet_bytes()),
        step(m, null_packet_bytes()).0 == m,
{
    assert(field13(0x1F, 0xFF) == NULL_PID);
}

/// Before the program is found only association and access tables pass, and an association
/// table that does not list the program does not change that.
pub proof fn law_nothing_passes_before_the_program_is_found(m: FilterModel, p: Seq<u8>)
    requires
        m.program is None,
        is_ts_packet(p),
    ensures
        includes_pid(m, packet_pid(p)) <==> packet_pid(p) == PAT_PID || packet_pid(p) == CAT_PID,
        packet_pid(p) != PAT_PID ==> step(m, p).0 == m,
        step(m, p).0.program matches Some(info) ==> info.pids == Set::<u16>::empty(),
{
}

} // verus!
