//! Analyses of transport streams: starting and stopping them, and what they report.
use vstd::prelude::*;
use crate::clock::{time_text, time_to_text, UnixNanos};
use crate::status::AnalysisType;
use crate::streams::{models, AnalysisInfo, InputInfo, InputModel, InputsMap};
use crate::text::{
    join3, join4, opt_text, signed_decimal, signed_decimal_text, text_eq,
};

verus! {

// ---------------------------------------------------------------- identifiers

/// A random UUID in its usual form: 32 hexadecimal digits in lower case in five groups with
/// hyphens between them, of which the third begins with the version number 4 and the fourth
/// with the variant, one of 8, 9, a and b.
pub open spec fn is_random_uuid(s: Seq<char>) -> bool {
    &&& s.len() == 36
    &&& s[14] == '4'
    &&& s[19] == '8' || s[19] == '9' || s[19] == 'a' || s[19] == 'b'
    &&& forall|i: int|
        #![trigger s[i]]
        0 <= i < 36 ==> if i == 8 || i == 13 || i == 18 || i == 23 {
            s[i] == '-'
        } else {
            ('0' <= s[i] && s[i] <= '9') || ('a' <= s[i] && s[i] <= 'f')
        }
}

/// `uuid::Uuid::new_v4` makes a random UUID, which is written in its usual form. Which one it
/// is, is left to chance.
#[verifier::external_body]
fn new_uuid() -> (r: String)
    ensures
        is_random_uuid(r@),
{
    uuid::Uuid::new_v4().to_string()
}

// ---------------------------------------------------------------- starting

/// Whether an analysis of a kind runs.
pub open spec fn runs(analyses: Seq<AnalysisInfo>, kind: AnalysisType) -> bool {
    exists|i: int| 0 <= i < analyses.len() && (#[trigger] analyses[i]).analysis_type == kind
}

/// `Input`, a number and what is said of it.
pub open spec fn about_input(id: i64, rest: Seq<char>) -> Seq<char> {
    "Input "@ + signed_decimal(id as int) + rest
}

/// The message that an input is not known.
pub fn input_not_found(id: i64) -> (r: String)
    ensures
        r@ == about_input(id, " not found"@),
{
    let n = signed_decimal_text(id);
    join3("Input ", n.as_str(), " not found")
}

/// When an analysis with a time limit ends.
pub open spec fn expiry(now: UnixNanos, timeout_minutes: Option<u64>) -> Option<UnixNanos> {
    match timeout_minutes {
        Some(m) => Some((now + m * 60 * 1_000_000_000) as i128),
        None => None,
    }
}

/// Whether the end of a time limit is a point in time.
pub open spec fn timeout_fits(now: UnixNanos, timeout_minutes: Option<u64>) -> bool {
    timeout_minutes matches Some(m) ==> m * 60 <= u64::MAX && now + m * 60 * 1_000_000_000
        <= i128::MAX
}

/// Tell whether the end of a time limit is a point in time.
pub fn is_timeout_valid(now: UnixNanos, timeout_minutes: Option<u64>) -> (r: bool)
    ensures
        r == timeout_fits(now, timeout_minutes),
{
    match timeout_minutes {
        Some(m) => {
            let nanos: i128 = m as i128 * 60 * 1_000_000_000;
            m <= 0xffff_ffff_ffff_ffff / 60 && now <= i128::MAX - nanos
        },
        None => true,
    }
}

fn expires_at(now: UnixNanos, timeout_minutes: Option<u64>) -> (r: Option<UnixNanos>)
    requires
        timeout_fits(now, timeout_minutes),
    ensures
        r == expiry(now, timeout_minutes),
{
    match timeout_minutes {
        Some(m) => Some(now + m as i128 * 60 * 1_000_000_000),
        None => None,
    }
}

fn find_kind(analyses: &Vec<AnalysisInfo>, kind: AnalysisType) -> (r: Option<usize>)
    ensures
        match r {
            Some(i) => i < analyses@.len() && analyses@[i as int].analysis_type == kind && forall|
                j: int,
            |
                0 <= j < i ==> (#[trigger] analyses@[j]).analysis_type != kind,
            None => !runs(analyses@, kind),
        },
{
    let mut i: usize = 0;
    while i < analyses.len()
        invariant
            i <= analyses@.len(),
            forall|j: int| 0 <= j < i ==> (#[trigger] analyses@[j]).analysis_type != kind,
        decreases analyses@.len() - i,
    {
        if analyses[i].analysis_type == kind {
            return Some(i);
        }
        i += 1;
    }
    None
}

/// An analysis that has just started.
pub open spec fn is_new_analysis(
    a: AnalysisInfo,
    id: Seq<char>,
    kind: AnalysisType,
    input_id: i64,
    timeout_minutes: Option<u64>,
    now: UnixNanos,
) -> bool {
    &&& a.id@ == id
    &&& a.analysis_type == kind
    &&& a.input_id == input_id
    &&& a.created_at == now
    &&& a.timeout_minutes == timeout_minutes
    &&& a.expires_at == expiry(now, timeout_minutes)
}

/// The analyses that do not have this identifier.
pub open spec fn without_id(analyses: Seq<AnalysisInfo>, id: Seq<char>) -> Seq<AnalysisInfo> {
    analyses.filter(|a: AnalysisInfo| a.id@ != id)
}

/// Analyses and one more, to which one with the same identifier gives way.
pub open spec fn adding(analyses: Seq<AnalysisInfo>, a: AnalysisInfo) -> Seq<AnalysisInfo> {
    without_id(analyses, a.id@).push(a)
}

fn add_analysis(analyses: &mut Vec<AnalysisInfo>, a: AnalysisInfo)
    ensures
        final(analyses)@ == adding(old(analyses)@, a),
{
    let ghost all = analyses@;
    let ghost mut seen: int = 0;
    let mut i: usize = 0;
    proof {
        reveal(Seq::filter);
        assert(all.take(0) =~= Seq::<AnalysisInfo>::empty());
        assert(analyses@ =~= without_id(all.take(0), a.id@) + all.skip(0));
    }
    while i < analyses.len()
        invariant
            0 <= seen <= all.len(),
            i == without_id(all.take(seen), a.id@).len(),
            analyses@ == without_id(all.take(seen), a.id@) + all.skip(seen),
        decreases analyses@.len() - i,
    {
        let ghost kept = without_id(all.take(seen), a.id@);
        proof {
            assert(analyses@[i as int] == all[seen]);
            reveal(Seq::filter);
            assert(all.take(seen + 1).drop_last() =~= all.take(seen));
            assert(all.take(seen + 1).last() == all[seen]);
        }
        if text_eq(analyses[i].id.as_str(), a.id.as_str()) {
            analyses.remove(i);
            assert(analyses@ =~= kept + all.skip(seen + 1));
        } else {
            i += 1;
            assert(analyses@ =~= kept.push(all[seen]) + all.skip(seen + 1));
        }
        proof {
            seen = seen + 1;
        }
    }
    assert(all.take(all.len() as int) =~= all);
    assert(analyses@ =~= without_id(all, a.id@));
    analyses.push(a);
}

/// An input with one analysis more, to which one with the same identifier gives way.
pub open spec fn with_analysis(i: InputModel, a: AnalysisInfo) -> InputModel {
    InputModel { analyses: adding(i.analyses, a), ..i }
}

/// Why an analysis cannot start: its input is not known, or one of its kind runs.
pub open spec fn refusal(
    streams: Map<i64, InputModel>,
    input_id: i64,
    kind: AnalysisType,
) -> Option<Seq<char>> {
    if !streams.contains_key(input_id) {
        Some(about_input(input_id, " not found"@))
    } else if runs(streams[input_id].analyses, kind) {
        Some(
            "Analysis type "@ + kind.text() + " is already running for input "@ + signed_decimal(
                input_id as int,
            ),
        )
    } else {
        None
    }
}

/// Tell why an analysis cannot start.
pub fn analysis_refusal(
    streams: &InputsMap,
    input_id: i64,
    analysis_type: AnalysisType,
) -> (r: Option<String>)
    ensures
        opt_text(r) == refusal(models(streams@), input_id, analysis_type),
{
    broadcast use vstd::std_specs::hash::group_hash_axioms;

    match streams.get(&input_id) {
        None => Some(input_not_found(input_id)),
        Some(info) => {
            assert(models(streams@)[input_id] == info@);
            if find_kind(&info.analysis_tasks, analysis_type).is_none() {
                return None;
            }
            let word = analysis_type.to_string();
            let n = signed_decimal_text(input_id);
            Some(
                join4(
                    "Analysis type ",
                    word.as_str(),
                    " is already running for input ",
                    n.as_str(),
                ),
            )
        },
    }
}

/// Start an analysis under a given identifier, unless one of its kind runs already. An analysis
/// that has the identifier gives way.
pub fn start_analysis_as(
    streams: &mut InputsMap,
    input_id: i64,
    analysis_type: AnalysisType,
    timeout_minutes: Option<u64>,
    id: String,
    now: UnixNanos,
) -> (r: Result<String, String>)
    requires
        timeout_fits(now, timeout_minutes),
    ensures
        ({
            let before = models(old(streams)@);
            let after = models(final(streams)@);
            match refusal(before, input_id, analysis_type) {
                Some(message) => {
                    &&& r matches Err(e) && e@ == message
                    &&& after == before
                },
                None => {
                    &&& r == Ok::<String, String>(id)
                    &&& exists|a: AnalysisInfo| #[trigger]
                        is_new_analysis(a, id@, analysis_type, input_id, timeout_minutes, now)
                            && after == before.insert(
                            input_id,
                            with_analysis(before[input_id], a),
                        )
                },
            }
        }),
{
    broadcast use vstd::std_specs::hash::group_hash_axioms;

    let ghost before = streams@;
    if let Some(message) = analysis_refusal(streams, input_id, analysis_type) {
        return Err(message);
    }
    if let Some(mut info) = streams.remove(&input_id) {
        let ghost was = info@;
        assert(models(before)[input_id] == was);
        let expires = expires_at(now, timeout_minutes);
        let a = AnalysisInfo {
            id: id.clone(),
            analysis_type,
            input_id,
            created_at: now,
            timeout_minutes,
            expires_at: expires,
        };
        assert(is_new_analysis(a, id@, analysis_type, input_id, timeout_minutes, now));
        let ghost added = a;
        add_analysis(&mut info.analysis_tasks, a);
        assert(info@ =~= with_analysis(was, added));
        streams.insert(input_id, info);
        assert(models(streams@) =~= models(before).insert(input_id, with_analysis(was, added)));
    }
    Ok(id)
}

/// Start an analysis of an input, unless one of its kind runs already. Its identifier is left
/// to chance.
pub fn start_analysis(
    streams: &mut InputsMap,
    input_id: i64,
    analysis_type: AnalysisType,
    timeout_minutes: Option<u64>,
    now: UnixNanos,
) -> (r: Result<String, String>)
    requires
        timeout_fits(now, timeout_minutes),
    ensures
        ({
            let before = models(old(streams)@);
            let after = models(final(streams)@);
            match refusal(before, input_id, analysis_type) {
                Some(message) => {
                    &&& r matches Err(e) && e@ == message
                    &&& after == before
                },
                None => r matches Ok(id) && is_random_uuid(id@) && exists|a: AnalysisInfo|
                    #[trigger]
                    is_new_analysis(a, id@, analysis_type, input_id, timeout_minutes, now) && after
                        == before.insert(input_id, with_analysis(before[input_id], a)),
            }
        }),
{
    let id = new_uuid();
    let ghost text = id@;
    let r = start_analysis_as(streams, input_id, analysis_type, timeout_minutes, id, now);
    assert(r is Ok ==> r->Ok_0@ == text);
    r
}

/// What the task of an analysis does.
#[derive(Debug, Clone, Copy, PartialEq, Eq, Structural)]
pub struct AnalysisRun {
    /// Seconds between two reports.
    pub report_every_secs: u64,
    /// Whether the checks of TR 101 290 are made.
    pub tr101: bool,
    /// Seconds after which the task ends by itself.
    pub timeout_secs: Option<u64>,
}

/// What the task of an analysis does: it reports every two seconds.
pub fn analysis_run(analysis_type: AnalysisType, timeout_minutes: Option<u64>) -> (r: AnalysisRun)
    requires
        timeout_minutes matches Some(m) ==> m * 60 <= u64::MAX,
    ensures
        r.report_every_secs == 2,
        r.tr101 == (analysis_type == AnalysisType::Tr101),
        match timeout_minutes {
            Some(m) => r.timeout_secs == Some((m * 60) as u64),
            None => r.timeout_secs is None,
        },
{
    AnalysisRun {
        report_every_secs: 2,
        tr101: matches!(analysis_type, AnalysisType::Tr101),
        timeout_secs: match timeout_minutes {
            Some(m) => Some(m * 60),
            None => None,
        },
    }
}

// ---------------------------------------------------------------- stopping

/// The first analysis of a kind.
pub open spec fn is_first_of_kind(
    analyses: Seq<AnalysisInfo>,
    kind: AnalysisType,
    i: int,
) -> bool {
    &&& 0 <= i < analyses.len()
    &&& analyses[i].analysis_type == kind
    &&& forall|j: int| 0 <= j < i ==> (#[trigger] analyses[j]).analysis_type != kind
}

/// Stop the analysis of a kind; it is handed back, so that its task can be ended.
pub fn stop_analysis(
    streams: &mut InputsMap,
    input_id: i64,
    analysis_type: AnalysisType,
) -> (r: Result<AnalysisInfo, String>)
    ensures
        ({
            let before = models(old(streams)@);
            let after = models(final(streams)@);
            if !before.contains_key(input_id) {
                &&& r matches Err(e) && e@ == about_input(input_id, " not found"@)
                &&& after == before
            } else if !runs(before[input_id].analyses, analysis_type) {
                &&& r matches Err(e) && e@ == "No active "@ + analysis_type.text()
                    + " analysis found for input "@ + signed_decimal(input_id as int)
                &&& after == before
            } else {
                let was = before[input_id];
                exists|i: int| #[trigger]
                    is_first_of_kind(was.analyses, analysis_type, i) && r == Ok::<
                        AnalysisInfo,
                        String,
                    >(was.analyses[i]) && after == before.insert(
                        input_id,
                        InputModel { analyses: was.analyses.remove(i), ..was },
                    )
            }
        }),
{
    broadcast use vstd::std_specs::hash::group_hash_axioms;

    let ghost before = streams@;
    match streams.remove(&input_id) {
        None => {
            assert(models(streams@) =~= models(before));
            Err(input_not_found(input_id))
        },
        Some(mut info) => {
            let ghost was = info@;
            assert(models(before)[input_id] == was);
            match find_kind(&info.analysis_tasks, analysis_type) {
                Some(i) => {
                    assert(is_first_of_kind(was.analyses, analysis_type, i as int));
                    let a = info.analysis_tasks.remove(i);
                    assert(info@ =~= (InputModel {
                        analyses: was.analyses.remove(i as int),
                        ..was
                    }));
                    streams.insert(input_id, info);
                    assert(models(streams@) =~= models(before).insert(input_id, info@));
                    Ok(a)
                },
                None => {
                    streams.insert(input_id, info);
                    assert(models(streams@) =~= models(before));
                    let word = analysis_type.to_string();
                    let n = signed_decimal_text(input_id);
                    Err(
                        join4(
                            "No active ",
                            word.as_str(),
                            " analysis found for input ",
                            n.as_str(),
                        ),
                    )
                },
            }
        },
    }
}

/// Stop all analyses of an input; they are handed back, so that their tasks can be ended.
pub fn stop_all_analysis(
    streams: &mut InputsMap,
    input_id: i64,
) -> (r: Result<Vec<AnalysisInfo>, String>)
    ensures
        ({
            let before = models(old(streams)@);
            let after = models(final(streams)@);
            if !before.contains_key(input_id) {
                &&& r matches Err(e) && e@ == about_input(input_id, " not found"@)
                &&& after == before
            } else {
                let was = before[input_id];
                &&& r matches Ok(all) && all@ == was.analyses
                &&& after == before.insert(
                    input_id,
                    InputModel { analyses: Seq::empty(), ..was },
                )
            }
        }),
{
    broadcast use vstd::std_specs::hash::group_hash_axioms;

    let ghost before = streams@;
    match streams.remove(&input_id) {
        None => {
            assert(models(streams@) =~= models(before));
            Err(input_not_found(input_id))
        },
        Some(info) => {
            let ghost was = info@;
            assert(models(before)[input_id] == was);
            let mut info = info;
            let all = info.analysis_tasks;
            info.analysis_tasks = Vec::new();
            assert(info@ =~= (InputModel { analyses: Seq::empty(), ..was }));
            streams.insert(input_id, info);
            assert(models(streams@) =~= models(before).insert(input_id, info@));
            Ok(all)
        },
    }
}

// ---------------------------------------------------------------- resuming

/// New analyses of these kinds, without a time limit.
pub open spec fn are_new(
    fresh: Seq<AnalysisInfo>,
    kinds: Seq<AnalysisType>,
    input_id: i64,
    now: UnixNanos,
) -> bool {
    &&& fresh.len() == kinds.len()
    &&& forall|i: int|
        0 <= i < fresh.len() ==> is_random_uuid((#[trigger] fresh[i]).id@) && is_new_analysis(
            fresh[i],
            fresh[i].id@,
            kinds[i],
            input_id,
            None,
            now,
        )
}

/// The analyses that run once those of these kinds were started one after the other, and the
/// kinds that did not start because one of them ran. The analysis of each kind is the one of the
/// same place in `fresh`.
pub open spec fn resumed(
    analyses: Seq<AnalysisInfo>,
    kinds: Seq<AnalysisType>,
    fresh: Seq<AnalysisInfo>,
) -> (Seq<AnalysisInfo>, Seq<AnalysisType>)
    decreases kinds.len(),
{
    if kinds.len() == 0 {
        (analyses, Seq::empty())
    } else {
        let (running, failed) = resumed(analyses, kinds.drop_last(), fresh);
        if runs(running, kinds.last()) {
            (running, failed.push(kinds.last()))
        } else {
            (adding(running, fresh[kinds.len() - 1]), failed)
        }
    }
}

/// An input whose paused analyses were started again: those whose kind ran already stay paused.
pub open spec fn is_resumed(
    after: InputModel,
    before: InputModel,
    input_id: i64,
    now: UnixNanos,
) -> bool {
    exists|fresh: Seq<AnalysisInfo>| #[trigger]
        are_new(fresh, before.paused, input_id, now) && resumed(
            before.analyses,
            before.paused,
            fresh,
        ) == (after.analyses, after.paused)
}

/// Start the analyses again that ran when the input stopped. Those whose kind runs already stay
/// paused. Their identifiers are left to chance.
pub fn resume_analyses(info: &mut InputInfo, input_id: i64, now: UnixNanos)
    ensures
        is_resumed(final(info)@, old(info)@, input_id, now),
        final(info)@ == (InputModel {
            analyses: final(info)@.analyses,
            paused: final(info)@.paused,
            ..old(info)@
        }),
{
    let ghost was = info@;
    let mut analyses: Vec<AnalysisInfo> = Vec::new();
    std::mem::swap(&mut analyses, &mut info.analysis_tasks);
    let mut kinds: Vec<AnalysisType> = Vec::new();
    std::mem::swap(&mut kinds, &mut info.paused_analysis);
    let mut failed: Vec<AnalysisType> = Vec::new();
    let ghost mut fresh: Seq<AnalysisInfo> = Seq::empty();
    let mut i: usize = 0;
    assert(kinds@.take(0) =~= Seq::<AnalysisType>::empty());
    while i < kinds.len()
        invariant
            i <= kinds@.len(),
            kinds@ == was.paused,
            are_new(fresh, kinds@.take(i as int), input_id, now),
            resumed(was.analyses, kinds@.take(i as int), fresh) == (analyses@, failed@),
        decreases kinds@.len() - i,
    {
        let kind = kinds[i];
        let a = AnalysisInfo {
            id: new_uuid(),
            analysis_type: kind,
            input_id,
            created_at: now,
            timeout_minutes: None,
            expires_at: None,
        };
        proof {
            assert(kinds@.take(i + 1).drop_last() =~= kinds@.take(i as int));
            assert(kinds@.take(i + 1).last() == kind);
            lemma_resumed_prefix(was.analyses, kinds@.take(i as int), fresh, a);
            fresh = fresh.push(a);
        }
        if find_kind(&analyses, kind).is_some() {
            failed.push(kind);
        } else {
            add_analysis(&mut analyses, a);
        }
        i += 1;
    }
    assert(kinds@.take(kinds@.len() as int) =~= kinds@);
    info.analysis_tasks = analyses;
    info.paused_analysis = failed;
    assert(are_new(fresh, was.paused, input_id, now));
}

proof fn lemma_resumed_prefix(
    analyses: Seq<AnalysisInfo>,
    kinds: Seq<AnalysisType>,
    fresh: Seq<AnalysisInfo>,
    a: AnalysisInfo,
)
    requires
        kinds.len() <= fresh.len(),
    ensures
        resumed(analyses, kinds, fresh.push(a)) == resumed(analyses, kinds, fresh),
    decreases kinds.len(),
{
    if kinds.len() > 0 {
        lemma_resumed_prefix(analyses, kinds.drop_last(), fresh, a);
    }
}

// ---------------------------------------------------------------- listing

/// Request to start an analysis.
#[derive(Debug, Clone, Copy)]
pub struct StartAnalysisRequest {
    pub timeout_minutes: Option<u64>,
}

/// What clients see of an analysis.
#[derive(Debug)]
pub struct AnalysisStatusResponse {
    pub id: String,
    pub analysis_type: String,
    pub input_id: i64,
    pub status: String,
    pub created_at: String,
    pub timeout_minutes: Option<u64>,
    pub expires_at: Option<String>,
    pub remaining_minutes: Option<u64>,
}

#[derive(Debug)]
pub struct AnalysisListResponse {
    pub input_id: i64,
    pub active_analyses: Vec<AnalysisStatusResponse>,
}

/// What is told of each analysis that runs: identifier, kind, start, time limit and end.
pub type ActiveAnalysis = (
    String,
    AnalysisType,
    UnixNanos,
    Option<u64>,
    Option<UnixNanos>,
);

/// The analyses of an input that run.
pub fn get_active_analyses(
    streams: &InputsMap,
    input_id: i64,
) -> (r: Result<Vec<ActiveAnalysis>, String>)
    ensures
        if !models(streams@).contains_key(input_id) {
            r matches Err(e) && e@ == about_input(input_id, " not found"@)
        } else {
            let all = models(streams@)[input_id].analyses;
            r matches Ok(list) && list@.len() == all.len() && forall|i: int|
                0 <= i < all.len() ==> #[trigger] list@[i] == (
                    all[i].id,
                    all[i].analysis_type,
                    all[i].created_at,
                    all[i].timeout_minutes,
                    all[i].expires_at,
                )
        },
{
    broadcast use vstd::std_specs::hash::group_hash_axioms;

    match streams.get(&input_id) {
        None => Err(input_not_found(input_id)),
        Some(info) => {
            let mut list: Vec<ActiveAnalysis> = Vec::new();
            let mut i: usize = 0;
            let ghost all = info.analysis_tasks@;
            while i < info.analysis_tasks.len()
                invariant
                    i <= all.len(),
                    all == info.analysis_tasks@,
                    list@.len() == i,
                    forall|j: int|
                        0 <= j < i ==> #[trigger] list@[j] == (
                            all[j].id,
                            all[j].analysis_type,
                            all[j].created_at,
                            all[j].timeout_minutes,
                            all[j].expires_at,
                        ),
                decreases all.len() - i,
            {
                let a = &info.analysis_tasks[i];
                list.push(
                    (a.id.clone(), a.analysis_type, a.created_at, a.timeout_minutes, a.expires_at),
                );
                i += 1;
            }
            Ok(list)
        },
    }
}

/// Whole minutes from now to a point in time; zero once it has passed.
pub open spec fn minutes_left(now: UnixNanos, end: UnixNanos) -> u64 {
    match crate::clock::elapsed(now, end) {
        Some(d) => (crate::clock::whole_seconds(d) / 60) as u64,
        None => 0,
    }
}

fn minutes_until(now: UnixNanos, end: UnixNanos) -> (r: u64)
    ensures
        r == minutes_left(now, end),
{
    match crate::clock::calculate_uptime_seconds(Some(now), end) {
        Some(s) => s / 60,
        None => 0,
    }
}

/// What clients see of an analysis.
pub open spec fn shows_analysis(
    r: AnalysisStatusResponse,
    a: ActiveAnalysis,
    input_id: i64,
    now: UnixNanos,
) -> bool {
    let (id, kind, created_at, timeout_minutes, expires_at) = a;
    &&& r.id == id
    &&& r.analysis_type@ == kind.text()
    &&& r.input_id == input_id
    &&& r.status@ == "running"@
    &&& r.created_at@ == time_text(created_at)
    &&& r.timeout_minutes == timeout_minutes
    &&& match expires_at {
        Some(t) => opt_text(r.expires_at) == Some(time_text(t)) && r.remaining_minutes == Some(
            minutes_left(now, t),
        ),
        None => r.expires_at is None && r.remaining_minutes is None,
    }
}

/// What clients see of the analyses of an input.
pub fn analysis_list(
    input_id: i64,
    analyses: &Vec<ActiveAnalysis>,
    now: UnixNanos,
) -> (r: AnalysisListResponse)
    ensures
        r.input_id == input_id,
        r.active_analyses@.len() == analyses@.len(),
        forall|i: int|
            0 <= i < analyses@.len() ==> shows_analysis(
                #[trigger] r.active_analyses@[i],
                analyses@[i],
                input_id,
                now,
            ),
{
    let mut list: Vec<AnalysisStatusResponse> = Vec::new();
    let mut i: usize = 0;
    while i < analyses.len()
        invariant
            i <= analyses@.len(),
            list@.len() == i,
            forall|j: int|
                0 <= j < i ==> shows_analysis(#[trigger] list@[j], analyses@[j], input_id, now),
        decreases analyses@.len() - i,
    {
        let a = &analyses[i];
        let (expires_at, remaining_minutes) = match a.4 {
            Some(t) => (Some(time_to_text(t)), Some(minutes_until(now, t))),
            None => (None, None),
        };
        list.push(
            AnalysisStatusResponse {
                id: a.0.clone(),
                analysis_type: a.1.to_string(),
                input_id,
                status: "running".to_owned(),
                created_at: time_to_text(a.2),
                timeout_minutes: a.3,
                expires_at,
                remaining_minutes,
            },
        );
        i += 1;
    }
    AnalysisListResponse { input_id, active_analyses: list }
}

// ---------------------------------------------------------------- laws

/// An input on which no kind of analysis runs twice.
pub open spec fn one_of_each_kind(analyses: Seq<AnalysisInfo>) -> bool {
    forall|i: int, j: int|
        0 <= i < j < analyses.len() ==> (#[trigger] analyses[i]).analysis_type != (
        #[trigger] analyses[j]).analysis_type
}

/// Analyses of which no two have one identifier.
pub open spec fn ids_differ(analyses: Seq<AnalysisInfo>) -> bool {
    forall|i: int, j: int|
        0 <= i < j < analyses.len() ==> (#[trigger] analyses[i]).id@ != (
        #[trigger] analyses[j]).id@
}

/// Starting an analysis never makes a kind run twice: it is added only where none of its kind
/// runs.
pub proof fn law_start_keeps_kinds_apart(i: InputModel, a: AnalysisInfo)
    requires
        one_of_each_kind(i.analyses),
        !runs(i.analyses, a.analysis_type),
    ensures
        one_of_each_kind(with_analysis(i, a).analyses),
{
    lemma_adding_kind(i.analyses, a);
}

/// Once an analysis has started it runs, and so do all others but one that had its identifier:
/// no two have one identifier. Where none had it, the new one comes behind those that ran.
pub proof fn law_start_keeps_identifiers_apart(i: InputModel, a: AnalysisInfo)
    ensures
        forall|x: AnalysisInfo| #[trigger]
            with_analysis(i, a).analyses.contains(x) <==> x == a || (i.analyses.contains(x)
                && x.id@ != a.id@),
        ids_differ(i.analyses) ==> ids_differ(with_analysis(i, a).analyses),
        (forall|j: int| 0 <= j < i.analyses.len() ==> (#[trigger] i.analyses[j]).id@ != a.id@)
            ==> with_analysis(i, a).analyses == i.analyses.push(a),
{
    lemma_adding_id(i.analyses, a);
}

proof fn lemma_adding_kind(analyses: Seq<AnalysisInfo>, a: AnalysisInfo)
    requires
        one_of_each_kind(analyses),
        !runs(analyses, a.analysis_type),
    ensures
        one_of_each_kind(adding(analyses, a)),
{
    lemma_without_id(analyses, a.id@);
    lemma_kinds_without_id(analyses, a.id@);
    let rest = without_id(analyses, a.id@);
    assert forall|j: int| 0 <= j < rest.len() implies (#[trigger] rest[j]).analysis_type
        != a.analysis_type by {
        assert(rest.contains(rest[j]));
        let k = choose|k: int| 0 <= k < analyses.len() && analyses[k] == rest[j];
        assert(analyses[k].analysis_type != a.analysis_type);
    }
}

proof fn lemma_adding_id(analyses: Seq<AnalysisInfo>, a: AnalysisInfo)
    ensures
        forall|x: AnalysisInfo| #[trigger]
            adding(analyses, a).contains(x) <==> x == a || (analyses.contains(x) && x.id@
                != a.id@),
        ids_differ(analyses) ==> ids_differ(adding(analyses, a)),
        (forall|j: int| 0 <= j < analyses.len() ==> (#[trigger] analyses[j]).id@ != a.id@)
            ==> adding(analyses, a) == analyses.push(a),
{
    let rest = without_id(analyses, a.id@);
    lemma_without_id(analyses, a.id@);
    assert forall|x: AnalysisInfo| #[trigger]
        adding(analyses, a).contains(x) <==> x == a || (analyses.contains(x) && x.id@
            != a.id@) by {
        lemma_contains_push(rest, a, x);
        assert(rest.contains(x) <==> analyses.contains(x) && x.id@ != a.id@);
    }
    if ids_differ(analyses) {
        lemma_ids_without_id(analyses, a.id@);
        assert forall|j: int| 0 <= j < rest.len() implies (#[trigger] rest[j]).id@ != a.id@ by {
            assert(rest.contains(rest[j]));
        }
    }
    if forall|j: int| 0 <= j < analyses.len() ==> (#[trigger] analyses[j]).id@ != a.id@ {
        lemma_without_unknown_id(analyses, a.id@);
    }
}

proof fn lemma_without_id(analyses: Seq<AnalysisInfo>, id: Seq<char>)
    ensures
        forall|x: AnalysisInfo| #[trigger]
            without_id(analyses, id).contains(x) <==> analyses.contains(x) && x.id@ != id,
    decreases analyses.len(),
{
    reveal(Seq::filter);
    if analyses.len() > 0 {
        let front = analyses.drop_last();
        lemma_without_id(front, id);
        let rest = without_id(front, id);
        let all = without_id(analyses, id);
        assert forall|x: AnalysisInfo| #[trigger]
            all.contains(x) <==> analyses.contains(x) && x.id@ != id by {
            lemma_contains_push(front, analyses.last(), x);
            assert(front.push(analyses.last()) =~= analyses);
            lemma_contains_push(rest, analyses.last(), x);
        }
    }
}

proof fn lemma_contains_push(s: Seq<AnalysisInfo>, last: AnalysisInfo, x: AnalysisInfo)
    ensures
        s.push(last).contains(x) <==> s.contains(x) || x == last,
{
    assert(s.push(last)[s.len() as int] == last);
    if s.contains(x) {
        let i = choose|i: int| 0 <= i < s.len() && s[i] == x;
        assert(s.push(last)[i] == x);
    }
}

proof fn lemma_kinds_without_id(analyses: Seq<AnalysisInfo>, id: Seq<char>)
    requires
        one_of_each_kind(analyses),
    ensures
        one_of_each_kind(without_id(analyses, id)),
    decreases analyses.len(),
{
    reveal(Seq::filter);
    if analyses.len() > 0 {
        let front = analyses.drop_last();
        let rest = without_id(front, id);
        lemma_kinds_without_id(front, id);
        lemma_without_id(front, id);
        assert forall|j: int| 0 <= j < rest.len() implies (#[trigger] rest[j]).analysis_type
            != analyses.last().analysis_type by {
            assert(rest.contains(rest[j]));
            let k = choose|k: int| 0 <= k < front.len() && front[k] == rest[j];
            assert(analyses[k] == rest[j]);
        }
    }
}

proof fn lemma_ids_without_id(analyses: Seq<AnalysisInfo>, id: Seq<char>)
    requires
        ids_differ(analyses),
    ensures
        ids_differ(without_id(analyses, id)),
    decreases analyses.len(),
{
    reveal(Seq::filter);
    if analyses.len() > 0 {
        let front = analyses.drop_last();
        let rest = without_id(front, id);
        lemma_ids_without_id(front, id);
        lemma_without_id(front, id);
        assert forall|j: int| 0 <= j < rest.len() implies (#[trigger] rest[j]).id@
            != analyses.last().id@ by {
            assert(rest.contains(rest[j]));
            let k = choose|k: int| 0 <= k < front.len() && front[k] == rest[j];
            assert(analyses[k] == rest[j]);
        }
    }
}

proof fn lemma_without_unknown_id(analyses: Seq<AnalysisInfo>, id: Seq<char>)
    requires
        forall|j: int| 0 <= j < analyses.len() ==> (#[trigger] analyses[j]).id@ != id,
    ensures
        without_id(analyses, id) == analyses,
    decreases analyses.len(),
{
    reveal(Seq::filter);
    if analyses.len() > 0 {
        lemma_without_unknown_id(analyses.drop_last(), id);
        assert(analyses.drop_last().push(analyses.last()) =~= analyses);
    }
}

/// What runs once all analyses were started again from nothing: no kind runs twice, and only
/// kinds that were asked for run. Where no two of the new analyses have one identifier every
/// kind that was asked for runs; where each was asked for once, all new ones run and none is
/// left.
pub proof fn law_resume_from_nothing(kinds: Seq<AnalysisType>, fresh: Seq<AnalysisInfo>)
    requires
        fresh.len() == kinds.len(),
        forall|i: int| 0 <= i < kinds.len() ==> (#[trigger] fresh[i]).analysis_type == kinds[i],
    ensures
        ({
            let (running, failed) = resumed(Seq::empty(), kinds, fresh);
            &&& one_of_each_kind(running)
            &&& forall|k: AnalysisType| #[trigger] runs(running, k) ==> kinds.contains(k)
            &&& ids_differ(fresh) ==> forall|k: AnalysisType|
                kinds.contains(k) ==> #[trigger] runs(running, k)
            &&& ids_differ(fresh) && kinds.no_duplicates() ==> running == fresh && failed.len()
                == 0
        }),
{
    lemma_resume_from_nothing(kinds, fresh);
    assert(fresh.take(kinds.len() as int) =~= fresh);
    let running = resumed(Seq::empty(), kinds, fresh).0;
    assert forall|k: AnalysisType| #[trigger] runs(running, k) implies kinds.contains(k) by {
        let i = choose|i: int|
            0 <= i < running.len() && (#[trigger] running[i]).analysis_type == k;
        let j = choose|j: int| 0 <= j < kinds.len() && #[trigger] fresh[j] == running[i];
        assert(kinds[j] == k);
    }
}

proof fn lemma_resume_from_nothing(kinds: Seq<AnalysisType>, fresh: Seq<AnalysisInfo>)
    requires
        kinds.len() <= fresh.len(),
        forall|i: int| 0 <= i < kinds.len() ==> (#[trigger] fresh[i]).analysis_type == kinds[i],
    ensures
        ({
            let (running, failed) = resumed(Seq::empty(), kinds, fresh);
            &&& one_of_each_kind(running)
            &&& forall|i: int|
                #![trigger running[i]]
                0 <= i < running.len() ==> exists|j: int|
                    0 <= j < kinds.len() && #[trigger] fresh[j] == running[i]
            &&& ids_differ(fresh) ==> forall|k: AnalysisType|
                kinds.contains(k) ==> #[trigger] runs(running, k)
            &&& ids_differ(fresh) && kinds.no_duplicates() ==> running == fresh.take(
                kinds.len() as int,
            ) && failed.len() == 0
        }),
    decreases kinds.len(),
{
    let none = Seq::<AnalysisInfo>::empty();
    if kinds.len() > 0 {
        let n = kinds.len() - 1;
        let front = kinds.drop_last();
        lemma_resume_from_nothing(front, fresh);
        let (was, was_failed) = resumed(none, front, fresh);
        let (running, failed) = resumed(none, kinds, fresh);
        let a = fresh[n];
        if !runs(was, kinds.last()) {
            lemma_adding_kind(was, a);
            lemma_adding_id(was, a);
            assert forall|x: int| #![trigger running[x]] 0 <= x < running.len() implies exists|
                j: int,
            |
                0 <= j < kinds.len() && #[trigger] fresh[j] == running[x] by {
                assert(running.contains(running[x]));
                if running[x] == a {
                    assert(fresh[n] == running[x]);
                } else {
                    let y = choose|y: int| 0 <= y < was.len() && was[y] == running[x];
                    let j = choose|j: int| 0 <= j < front.len() && #[trigger] fresh[j] == was[y];
                    assert(fresh[j] == running[x]);
                }
            }
            if ids_differ(fresh) {
                assert forall|y: int| 0 <= y < was.len() implies (#[trigger] was[y]).id@
                    != a.id@ by {
                    let j = choose|j: int| 0 <= j < front.len() && #[trigger] fresh[j] == was[y];
                    assert(fresh[j].id@ != fresh[n].id@);
                }
                assert(running == was.push(a));
                assert forall|k: AnalysisType| kinds.contains(k) implies #[trigger] runs(
                    running,
                    k,
                ) by {
                    if k == kinds.last() {
                        assert(running[was.len() as int].analysis_type == k);
                    } else {
                        let j = choose|j: int| 0 <= j < kinds.len() && kinds[j] == k;
                        assert(front[j] == k);
                        assert(runs(was, k));
                        let y = choose|y: int|
                            0 <= y < was.len() && (#[trigger] was[y]).analysis_type == k;
                        assert(running[y].analysis_type == k);
                    }
                }
            }
        } else {
            assert forall|x: int| #![trigger running[x]] 0 <= x < running.len() implies exists|
                j: int,
            |
                0 <= j < kinds.len() && #[trigger] fresh[j] == running[x] by {
                let j = choose|j: int| 0 <= j < front.len() && #[trigger] fresh[j] == was[x];
                assert(fresh[j] == running[x]);
            }
            if ids_differ(fresh) {
                assert forall|k: AnalysisType| kinds.contains(k) implies #[trigger] runs(
                    running,
                    k,
                ) by {
                    if k != kinds.last() {
                        let j = choose|j: int| 0 <= j < kinds.len() && kinds[j] == k;
                        assert(front[j] == k);
                    }
                }
            }
        }
        if ids_differ(fresh) && kinds.no_duplicates() {
            assert(was == fresh.take(n));
            if runs(was, kinds.last()) {
                let y = choose|y: int|
                    0 <= y < was.len() && (#[trigger] was[y]).analysis_type == kinds.last();
                assert(fresh[y].analysis_type == kinds[y]);
                assert(kinds[y] == kinds[n]);
            }
            assert(fresh.take(n).push(a) =~= fresh.take(n + 1));
        }
    }
}

/// Stopping an analysis of which one runs leaves none of its kind, and all others.
pub proof fn law_stop_leaves_the_others(i: InputModel, kind: AnalysisType, at: int)
    requires
        one_of_each_kind(i.analyses),
        is_first_of_kind(i.analyses, kind, at),
    ensures
        !runs(i.analyses.remove(at), kind),
        one_of_each_kind(i.analyses.remove(at)),
        forall|k: AnalysisType|
            k != kind ==> #[trigger] runs(i.analyses.remove(at), k) == runs(i.analyses, k),
{
    let after = i.analyses.remove(at);
    if runs(after, kind) {
        let j = choose|j: int| 0 <= j < after.len() && (#[trigger] after[j]).analysis_type == kind;
        if j < at {
            assert(after[j] == i.analyses[j]);
        } else {
            assert(after[j] == i.analyses[j + 1]);
            assert(i.analyses[at].analysis_type == kind);
        }
    }
    assert forall|a: int, b: int| 0 <= a < b < after.len() implies (
    #[trigger] after[a]).analysis_type != (#[trigger] after[b]).analysis_type by {
        let x = if a < at {
            a
        } else {
            a + 1
        };
        let y = if b < at {
            b
        } else {
            b + 1
        };
        assert(after[a] == i.analyses[x]);
        assert(after[b] == i.analyses[y]);
    }
    assert forall|k: AnalysisType| k != kind implies #[trigger] runs(after, k) == runs(
        i.analyses,
        k,
    ) by {
        if runs(i.analyses, k) {
            let j = choose|j: int|
                0 <= j < i.analyses.len() && (#[trigger] i.analyses[j]).analysis_type == k;
            if j < at {
                assert(after[j].analysis_type == k);
            } else {
                assert(after[j - 1].analysis_type == k);
            }
        }
        if runs(after, k) {
            let j = choose|j: int| 0 <= j < after.len() && (#[trigger] after[j]).analysis_type == k;
            if j < at {
                assert(i.analyses[j].analysis_type == k);
            } else {
                assert(i.analyses[j + 1].analysis_type == k);
            }
        }
    }
}

} // verus!
