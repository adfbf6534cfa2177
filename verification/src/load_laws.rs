//! Laws of the streams that the database brings back, and of the analyses that begin and end.
use vstd::prelude::*;
use crate::analysis::{adding, is_first_of_kind, is_new_analysis, resumed, runs, without_id};
use crate::clock::UnixNanos;
use crate::ip::is_socket_address;
use crate::loading::{
    input_load, input_row_loaded, is_kept_as, needs_lookup, output_row_failure, output_row_loaded,
    started_inputs, started_outputs, starts_output, InputLoad, InputRowData, OutputRowData,
};
use crate::requests::{CreateInputRequest, CreateOutputRequest, SrtInputConfig};
use crate::status::AnalysisType;
use crate::stream_control::stopped_model;
use crate::streams::{AnalysisInfo, InputModel};
use crate::text::opt_text;

verus! {

proof fn lemma_kinds()
    ensures
        "udp"@ != "srt_caller"@,
        "udp"@ != "srt_listener"@,
        "srt_caller"@ != "srt_listener"@,
{
    reveal_strlit("udp");
    reveal_strlit("srt_caller");
    reveal_strlit("srt_listener");
    assert("udp"@.len() == 3);
    assert("srt_caller"@.len() == 10);
    assert("srt_listener"@.len() == 12);
}

// ---------------------------------------------------------------- inputs

/// A row of the table of inputs is brought back if it is of a kind that is stored and its
/// configuration reads; one whose configuration does not read ends the load; others are left out.
pub proof fn law_input_rows_are_brought_back(d: InputRowData)
    ensures
        d.row.kind@ == "udp"@ ==> (input_load(d) is Fail <==> d.request is Err),
        d.row.kind@ == "srt_listener"@ || d.row.kind@ == "srt_caller"@ ==> (input_load(d) is Fail
            <==> d.srt is Err),
        input_load(d) is Skip <==> d.row.kind@ != "udp"@ && d.row.kind@ != "srt_listener"@
            && d.row.kind@ != "srt_caller"@,
        input_load(d) is Stopped ==> d.row.status@ == "stopped"@,
        input_load(d) is Running ==> d.row.status@ != "stopped"@,
        input_load(d) matches InputLoad::Stopped(c) ==> if d.row.kind@ == "udp"@ {
            Ok::<CreateInputRequest, String>(c) == d.request
        } else {
            c is Srt && Ok::<SrtInputConfig, String>(c->config) == d.srt && c.given_name()
                == d.row.name
        },
        input_load(d) matches InputLoad::Running(c) ==> if d.row.kind@ == "udp"@ {
            Ok::<CreateInputRequest, String>(c) == d.request
        } else {
            c is Srt && Ok::<SrtInputConfig, String>(c->config) == d.srt
        },
{
    lemma_kinds();
}

/// A row changes the input that it names and no other, and is counted exactly if that input runs
/// afterwards.
pub proof fn law_input_rows_are_counted(
    rows: Seq<InputRowData>,
    before: Map<i64, InputModel>,
    d: InputRowData,
    now: UnixNanos,
    after: Map<i64, InputModel>,
    other: i64,
)
    requires
        input_row_loaded(before, d, now, after),
    ensures
        input_load(d) is Skip ==> after == before && started_inputs(rows.push(d))
            == started_inputs(rows),
        !(input_load(d) is Skip) ==> after.contains_key(d.row.id) && after[d.row.id].id == d.row.id
            && started_inputs(rows.push(d)) == started_inputs(rows) + (if after[d.row.id].running {
            1nat
        } else {
            0nat
        }),
        other != d.row.id ==> after.contains_key(other) == before.contains_key(other) && (
        before.contains_key(other) ==> after[other] == before[other]),
{
    assert(rows.push(d).drop_last() =~= rows);
}

// ---------------------------------------------------------------- outputs

/// The output of a row runs exactly if its input was brought back, it was not stopped, and it is
/// of a stored kind, where that of UDP is sent to an address that was found.
pub proof fn law_rows_start_outputs_iff(inputs: Set<i64>, d: OutputRowData, t: Seq<char>)
    ensures
        d.row.kind@ == "udp"@ && opt_text(d.row.destination) == Some(t) ==> (starts_output(
            inputs,
            d,
        ) <==> inputs.contains(d.row.input_id) && d.row.status@ != "stopped"@
            && is_socket_address(t) && d.lookup is Found),
        d.row.kind@ == "srt_caller"@ || d.row.kind@ == "srt_listener"@ ==> (starts_output(inputs, d)
            <==> inputs.contains(d.row.input_id) && d.row.status@ != "stopped"@),
        starts_output(inputs, d) ==> d.row.kind@ == "udp"@ || d.row.kind@ == "srt_caller"@
            || d.row.kind@ == "srt_listener"@,
        starts_output(inputs, d) && d.row.kind@ == "udp"@ ==> needs_lookup(inputs, d.row),
        needs_lookup(inputs, d.row) ==> (starts_output(inputs, d) <==> d.lookup is Found),
{
    lemma_kinds();
}

/// A row changes its own output and no other, and is counted exactly if that output runs
/// afterwards because of it.
pub proof fn law_output_rows_are_counted(
    rows: Seq<OutputRowData>,
    before: Map<i64, InputModel>,
    d: OutputRowData,
    now: UnixNanos,
    after: Map<i64, InputModel>,
    input: i64,
    id: i64,
)
    requires
        output_row_loaded(before, d, now, after),
    ensures
        after.dom() == before.dom(),
        input != d.row.input_id && before.contains_key(input) ==> after[input] == before[input],
        before.contains_key(input) && id != d.row.id ==> {
            &&& after[input].outputs.contains_key(id) == before[input].outputs.contains_key(id)
            &&& after[input].outputs.contains_key(id) ==> after[input].outputs[id]
                == before[input].outputs[id]
            &&& after[input].stopped.contains_key(id) == before[input].stopped.contains_key(id)
            &&& after[input].stopped.contains_key(id) ==> after[input].stopped[id]
                == before[input].stopped[id]
        },
        before.contains_key(input) ==> after[input].status == before[input].status
            && after[input].config == before[input].config && after[input].running
            == before[input].running,
        starts_output(before.dom(), d) ==> {
            let o = after[d.row.input_id].outputs[d.row.id];
            &&& after[d.row.input_id].outputs.contains_key(d.row.id)
            &&& o.id == d.row.id
            &&& o.input_id == d.row.input_id
            &&& o.started_at == Some(now)
            &&& o.status.active()
            &&& started_outputs(before.dom(), rows.push(d)) == started_outputs(before.dom(), rows)
                + 1
        },
        !starts_output(before.dom(), d) ==> {
            &&& before.contains_key(input) ==> after[input].outputs == before[input].outputs
            &&& started_outputs(before.dom(), rows.push(d)) == started_outputs(before.dom(), rows)
        },
        before.contains_key(d.row.input_id) && d.row.status@ == "stopped"@ && (d.row.kind@
            == "udp"@ || d.row.kind@ == "srt_caller"@ || d.row.kind@ == "srt_listener"@) ==> {
            let was = after[d.row.input_id];
            &&& was.stopped.contains_key(d.row.id)
            &&& was.stopped[d.row.id].of_input() == d.row.input_id
            &&& was.stopped[d.row.id].given_name() == d.row.name
        },
{
    lemma_kinds();
    assert(rows.push(d).drop_last() =~= rows);
    let input_id = d.row.input_id;
    if before.contains_key(input_id) {
        let was = before[input_id];
        if crate::loading::is_loaded_kind(d.row.kind@) && d.row.status@ == "stopped"@ {
            let c = choose|c: CreateOutputRequest| #[trigger]
                is_kept_as(c, d) && after == before.insert(
                    input_id,
                    InputModel { stopped: was.stopped.insert(d.row.id, c), ..was },
                );
            assert(after[input_id].stopped[d.row.id] == c);
        }
    }
    assert(after.dom() =~= before.dom());
}

/// A row of an output that is to run ends the load exactly if it is one of SRT whose settings do
/// not read, or that listens and has no port. Stopped outputs never end it.
pub proof fn law_output_rows_end_the_load_iff(d: OutputRowData)
    ensures
        d.row.status@ == "stopped"@ ==> output_row_failure(d) is None,
        d.row.kind@ == "udp"@ ==> output_row_failure(d) is None,
        d.row.status@ != "stopped"@ && d.row.kind@ == "srt_caller"@ ==> (output_row_failure(d)
            is Some <==> d.common is Err),
        d.row.status@ != "stopped"@ && d.row.kind@ == "srt_listener"@ ==> (output_row_failure(d)
            is Some <==> d.common is Err || d.row.listen_port is None),
        output_row_failure(d) is Some && d.common is Err ==> output_row_failure(d) == Some(
            d.common->Err_0@,
        ),
{
    lemma_kinds();
}

/// A stopped SRT output whose configuration does not read is kept without any SRT setting, and one
/// whose configuration reads with all of them.
pub proof fn law_unread_outputs_are_kept_plain(c: CreateOutputRequest, d: OutputRowData)
    requires
        is_kept_as(c, d),
        d.row.kind@ == "srt_caller"@ || d.row.kind@ == "srt_listener"@,
    ensures
        c is Srt,
        d.config is None ==> {
            let settings = c->config.common_config();
            &&& settings.latency_ms is None
            &&& settings.stream_id is None
            &&& settings.passphrase is None
            &&& settings.expected_bitrate_kbps is None
            &&& settings.fec is None
            &&& d.row.kind@ == "srt_caller"@ <==> c->config is Caller
        },
        d.config matches Some(given) ==> c->config == given,
{
    lemma_kinds();
}

// ---------------------------------------------------------------- analyses

/// A new analysis runs among those that ran before, each of which stays unless it has the same
/// identifier; nothing else comes to run.
pub proof fn law_new_analysis_joins_the_others(
    analyses: Seq<AnalysisInfo>,
    a: AnalysisInfo,
    b: AnalysisInfo,
)
    ensures
        adding(analyses, a).contains(a),
        runs(adding(analyses, a), a.analysis_type),
        b.id@ != a.id@ ==> (adding(analyses, a).contains(b) <==> analyses.contains(b)),
        b.id@ == a.id@ && adding(analyses, a).contains(b) ==> b == a,
        without_id(analyses, a.id@).contains(b) <==> analyses.contains(b) && b.id@ != a.id@,
{
    let keep = |x: AnalysisInfo| x.id@ != a.id@;
    let kept = without_id(analyses, a.id@);
    let after = adding(analyses, a);
    assert(after[after.len() - 1] == a);
    lemma_filter_keeps(analyses, keep, b);
    assert(analyses.filter(keep) == kept);
    if kept.contains(b) {
        let k = choose|k: int| 0 <= k < kept.len() && kept[k] == b;
        assert(after[k] == b);
    }
    if after.contains(b) && b != a {
        let k = choose|k: int| 0 <= k < after.len() && after[k] == b;
        assert(k < kept.len());
        assert(kept[k] == b);
    }
}

/// A filter keeps what is there and is wanted, and nothing else.
pub proof fn lemma_filter_keeps<A>(s: Seq<A>, keep: spec_fn(A) -> bool, b: A)
    ensures
        s.filter(keep).contains(b) <==> s.contains(b) && keep(b),
    decreases s.len(),
{
    reveal(Seq::filter);
    if s.len() > 0 {
        let rest = s.drop_last();
        lemma_filter_keeps(rest, keep, b);
        assert(s =~= rest.push(s.last()));
        let r = rest.filter(keep);
        if rest.contains(b) {
            let k = choose|k: int| 0 <= k < rest.len() && rest[k] == b;
            assert(s[k] == b);
        }
        if s.contains(b) && b != s.last() {
            let k = choose|k: int| 0 <= k < s.len() && s[k] == b;
            assert(rest[k] == b);
        }
        if keep(s.last()) {
            let f = r.push(s.last());
            assert(s.filter(keep) == f);
            if r.contains(b) {
                let k = choose|k: int| 0 <= k < r.len() && r[k] == b;
                assert(f[k] == b);
            }
            if b == s.last() {
                assert(f[r.len() as int] == b);
                assert(s[s.len() - 1] == b);
            }
            if f.contains(b) && b != s.last() {
                let k = choose|k: int| 0 <= k < f.len() && f[k] == b;
                assert(r[k] == b);
            }
        }
    }
}

/// An analysis that begins carries the identifier, the kind and the input that it was begun with,
/// and ends the minutes later that it was given.
pub proof fn law_new_analysis_is_as_asked(
    a: AnalysisInfo,
    id: Seq<char>,
    kind: AnalysisType,
    input_id: i64,
    minutes: Option<u64>,
    now: UnixNanos,
)
    requires
        is_new_analysis(a, id, kind, input_id, minutes, now),
        crate::analysis::timeout_fits(now, minutes),
    ensures
        a.id@ == id,
        a.analysis_type == kind,
        a.input_id == input_id,
        a.created_at == now,
        a.timeout_minutes == minutes,
        a.expires_at is Some <==> minutes is Some,
        minutes matches Some(m) ==> a.expires_at->0 - a.created_at == m * 60_000_000_000,
{
    if let Some(m) = minutes {
        crate::report_laws::law_analyses_expire_after_their_minutes(now, m);
    }
}

/// Of the analyses that were paused, each kind runs after the input started: it was begun again,
/// or ran already.
pub proof fn law_paused_kinds_run_again(
    analyses: Seq<AnalysisInfo>,
    kinds: Seq<AnalysisType>,
    fresh: Seq<AnalysisInfo>,
    k: int,
)
    requires
        fresh.len() == kinds.len(),
        forall|i: int| 0 <= i < kinds.len() ==> (#[trigger] fresh[i]).analysis_type == kinds[i],
        forall|i: int, j: int|
            0 <= i < fresh.len() && 0 <= j < analyses.len() ==> (#[trigger] fresh[i]).id@ != (
            #[trigger] analyses[j]).id@,
        forall|i: int, j: int|
            0 <= i < j < fresh.len() ==> (#[trigger] fresh[i]).id@ != (#[trigger] fresh[j]).id@,
        0 <= k < kinds.len(),
    ensures
        runs(resumed(analyses, kinds, fresh).0, kinds[k]),
{
    lemma_resumed(analyses, kinds, fresh, kinds[k]);
    assert(kinds.contains(kinds[k]));
}

proof fn lemma_resumed(
    analyses: Seq<AnalysisInfo>,
    kinds: Seq<AnalysisType>,
    fresh: Seq<AnalysisInfo>,
    kind: AnalysisType,
)
    requires
        fresh.len() >= kinds.len(),
        forall|i: int| 0 <= i < kinds.len() ==> (#[trigger] fresh[i]).analysis_type == kinds[i],
        forall|i: int, j: int|
            0 <= i < fresh.len() && 0 <= j < analyses.len() ==> (#[trigger] fresh[i]).id@ != (
            #[trigger] analyses[j]).id@,
        forall|i: int, j: int|
            0 <= i < j < fresh.len() ==> (#[trigger] fresh[i]).id@ != (#[trigger] fresh[j]).id@,
    ensures
        kinds.contains(kind) || runs(analyses, kind) ==> runs(
            resumed(analyses, kinds, fresh).0,
            kind,
        ),
        forall|x: AnalysisInfo| #[trigger]
            resumed(analyses, kinds, fresh).0.contains(x) ==> analyses.contains(x) || exists|i: int|
                0 <= i < kinds.len() && fresh[i] == x,
    decreases kinds.len(),
{
    if kinds.len() > 0 {
        let rest = kinds.drop_last();
        let n = kinds.len() - 1;
        lemma_resumed(analyses, rest, fresh, kind);
        let (running, failed) = resumed(analyses, rest, fresh);
        let after = resumed(analyses, kinds, fresh).0;
        assert(fresh[n].analysis_type == kinds[n]);
        if kinds.contains(kind) && kind != kinds.last() {
            let i = choose|i: int| 0 <= i < kinds.len() && kinds[i] == kind;
            assert(rest[i] == kind);
        }
        if !runs(running, kinds.last()) {
            let a = fresh[n];
            law_new_analysis_joins_the_others(running, a, a);
            if runs(running, kind) {
                let j = choose|j: int|
                    0 <= j < running.len() && (#[trigger] running[j]).analysis_type == kind;
                let x = running[j];
                assert(running.contains(x));
                if analyses.contains(x) {
                    let m = choose|m: int| 0 <= m < analyses.len() && analyses[m] == x;
                    assert(fresh[n].id@ != analyses[m].id@);
                } else {
                    let i = choose|i: int| 0 <= i < rest.len() && fresh[i] == x;
                    assert(fresh[i].id@ != fresh[n].id@);
                }
                law_new_analysis_joins_the_others(running, a, x);
                let q = choose|q: int| 0 <= q < after.len() && after[q] == x;
                assert(after[q].analysis_type == kind);
            }
            assert forall|x: AnalysisInfo| #[trigger] after.contains(x) implies analyses.contains(x)
                || exists|i: int| 0 <= i < kinds.len() && fresh[i] == x by {
                law_new_analysis_joins_the_others(running, a, x);
                if x == a {
                    assert(fresh[n] == x);
                }
            }
        }
    }
}

/// A kind that ran when the paused analyses were begun again stays paused, and no kind is paused
/// that was not.
pub proof fn law_kinds_that_ran_stay_paused(
    analyses: Seq<AnalysisInfo>,
    kinds: Seq<AnalysisType>,
    fresh: Seq<AnalysisInfo>,
    kind: AnalysisType,
)
    requires
        fresh.len() >= kinds.len(),
        forall|i: int| 0 <= i < kinds.len() ==> (#[trigger] fresh[i]).analysis_type == kinds[i],
        forall|i: int, j: int|
            0 <= i < fresh.len() && 0 <= j < analyses.len() ==> (#[trigger] fresh[i]).id@ != (
            #[trigger] analyses[j]).id@,
        forall|i: int, j: int|
            0 <= i < j < fresh.len() ==> (#[trigger] fresh[i]).id@ != (#[trigger] fresh[j]).id@,
    ensures
        runs(analyses, kind) && kinds.contains(kind) ==> resumed(
            analyses,
            kinds,
            fresh,
        ).1.contains(kind),
        resumed(analyses, kinds, fresh).1.contains(kind) ==> kinds.contains(kind),
    decreases kinds.len(),
{
    if kinds.len() > 0 {
        let rest = kinds.drop_last();
        law_kinds_that_ran_stay_paused(analyses, rest, fresh, kind);
        lemma_resumed(analyses, rest, fresh, kind);
        let before = resumed(analyses, rest, fresh).1;
        let after = resumed(analyses, kinds, fresh).1;
        if before.contains(kind) {
            let i = choose|i: int| 0 <= i < before.len() && before[i] == kind;
            assert(after[i] == kind);
        }
        if kinds.contains(kind) && kind != kinds.last() {
            let i = choose|i: int| 0 <= i < kinds.len() && kinds[i] == kind;
            assert(rest[i] == kind);
        }
        if rest.contains(kind) {
            let i = choose|i: int| 0 <= i < rest.len() && rest[i] == kind;
            assert(kinds[i] == kind);
        }
        assert(kinds[kinds.len() - 1] == kinds.last());
        if after.contains(kind) {
            let i = choose|i: int| 0 <= i < after.len() && after[i] == kind;
            if i < before.len() {
                assert(before[i] == kind);
            }
        }
        if after.len() > before.len() {
            assert(after[before.len() as int] == kinds.last());
        }
    }
}

/// There is at most one first analysis of a kind, and one exactly if the kind runs.
pub proof fn law_first_of_kind_is_one(
    analyses: Seq<AnalysisInfo>,
    kind: AnalysisType,
    i: int,
    j: int,
)
    ensures
        is_first_of_kind(analyses, kind, i) && is_first_of_kind(analyses, kind, j) ==> i == j,
        is_first_of_kind(analyses, kind, i) ==> runs(analyses, kind),
{
}

/// Stopping an input adds the kinds of its analyses, in their order, to those that were paused.
pub proof fn law_stopping_pauses_analyses(before: InputModel, k: int)
    ensures
        stopped_model(before).analyses.len() == 0,
        stopped_model(before).paused.len() == before.paused.len() + before.analyses.len(),
        0 <= k < before.paused.len() ==> stopped_model(before).paused[k] == before.paused[k],
        0 <= k < before.analyses.len() ==> stopped_model(before).paused[before.paused.len() + k]
            == before.analyses[k].analysis_type,
{
}

} // verus!
