//! `effigy demo`: what the demo reports show, block by block, and the
//! decisions of the demo commands (which attempt a history query selects,
//! whether input or a resize can be handed to a running demo, what a stop
//! request does, how a managed run ends).
use vstd::prelude::*;
use crate::error::RunnerError;
use crate::text::{dec, owned, views};

verus! {

/// A key and its value, as a report shows them side by side.
#[derive(Debug)]
pub struct DemoKeyValue {
    pub key: String,
    pub value: String,
}

pub open spec fn kv_views(kvs: Seq<DemoKeyValue>) -> Seq<(Seq<char>, Seq<char>)> {
    kvs.map_values(|k: DemoKeyValue| (k.key@, k.value@))
}

/// A block of a demo report. The blocks that project live demo state
/// (actions, the active attempt and terminal session, the recent attempts
/// table) are placed here and filled where that state is read.
#[derive(Debug)]
pub enum DemoBlock {
    Section(String),
    KeyValues(Vec<DemoKeyValue>),
    Text(String),
    Notice(String),
    Bullets(String, Vec<String>),
    Actions,
    ActiveAttempt,
    ActiveTerminalSession,
    RecentAttempts,
    /// The table of the demos of group `i`, or of all listed demos.
    DemosTable(Option<usize>),
}

/// A block as its text reads.
pub enum BlockView {
    Section(Seq<char>),
    KeyValues(Seq<(Seq<char>, Seq<char>)>),
    Text(Seq<char>),
    Notice(Seq<char>),
    Bullets(Seq<char>, Seq<Seq<char>>),
    Actions,
    ActiveAttempt,
    ActiveTerminalSession,
    RecentAttempts,
    DemosTable(Option<usize>),
}

pub open spec fn block_view(b: DemoBlock) -> BlockView {
    match b {
        DemoBlock::Section(s) => BlockView::Section(s@),
        DemoBlock::KeyValues(kvs) => BlockView::KeyValues(kv_views(kvs@)),
        DemoBlock::Text(s) => BlockView::Text(s@),
        DemoBlock::Notice(s) => BlockView::Notice(s@),
        DemoBlock::Bullets(l, items) => BlockView::Bullets(l@, views(items@)),
        DemoBlock::Actions => BlockView::Actions,
        DemoBlock::ActiveAttempt => BlockView::ActiveAttempt,
        DemoBlock::ActiveTerminalSession => BlockView::ActiveTerminalSession,
        DemoBlock::RecentAttempts => BlockView::RecentAttempts,
        DemoBlock::DemosTable(g) => BlockView::DemosTable(g),
    }
}

pub open spec fn block_views(bs: Seq<DemoBlock>) -> Seq<BlockView> {
    bs.map_values(|b: DemoBlock| block_view(b))
}

fn kv(key: &str, value: &str) -> (r: DemoKeyValue)
    ensures
        r.key@ == key@,
        r.value@ == value@,
{
    DemoKeyValue { key: owned(key), value: owned(value) }
}

fn push_kv(kvs: &mut Vec<DemoKeyValue>, key: &str, value: &str)
    ensures
        kv_views(final(kvs)@) == kv_views(old(kvs)@).push((key@, value@)),
{
    let ghost before = kv_views(kvs@);
    kvs.push(kv(key, value));
    assert(kv_views(kvs@) =~= before.push((key@, value@)));
}

pub open spec fn opt_kv(key: Seq<char>, value: Option<String>) -> Seq<(Seq<char>, Seq<char>)> {
    match value {
        Some(v) => seq![(key, v@)],
        None => Seq::empty(),
    }
}

fn push_opt_kv(kvs: &mut Vec<DemoKeyValue>, key: &str, value: &Option<String>)
    ensures
        kv_views(final(kvs)@) == kv_views(old(kvs)@) + opt_kv(key@, *value),
{
    let ghost before = kv_views(kvs@);
    if let Some(v) = value {
        push_kv(kvs, key, v.as_str());
    }
    assert(kv_views(kvs@) =~= before + opt_kv(key@, *value));
}

/// The value shown for an optional text, or `fallback` without one.
pub open spec fn or_text(value: Option<String>, fallback: Seq<char>) -> Seq<char> {
    match value {
        Some(v) => v@,
        None => fallback,
    }
}

fn or_owned(value: &Option<String>, fallback: &str) -> (r: String)
    ensures
        r@ == or_text(*value, fallback@),
{
    match value {
        Some(v) => owned(v.as_str()),
        None => owned(fallback),
    }
}

fn push_block(out: &mut Vec<DemoBlock>, b: DemoBlock)
    ensures
        block_views(final(out)@) == block_views(old(out)@).push(block_view(b)),
{
    let ghost before = block_views(out@);
    out.push(b);
    assert(block_views(out@) =~= before.push(block_view(b)));
}

fn section(title: &str) -> (b: DemoBlock)
    ensures
        block_view(b) == BlockView::Section(title@),
{
    DemoBlock::Section(owned(title))
}

fn blank() -> (b: DemoBlock)
    ensures
        block_view(b) == BlockView::Text(Seq::<char>::empty()),
{
    DemoBlock::Text(String::new())
}

fn copy_all(items: &Vec<String>) -> (r: Vec<String>)
    ensures
        views(r@) == views(items@),
{
    let mut out: Vec<String> = Vec::new();
    let mut i: usize = 0;
    while i < items.len()
        invariant
            i <= items.len(),
            views(out@) == views(items@).take(i as int),
        decreases items.len() - i,
    {
        let ghost before = views(out@);
        out.push(owned(items[i].as_str()));
        assert(views(out@) =~= before.push(views(items@)[i as int]));
        assert(views(items@).take(i + 1) =~= views(items@).take(i as int).push(views(items@)[i as int]));
        i = i + 1;
    }
    assert(views(items@).take(items.len() as int) =~= views(items@));
    out
}

/// A labelled list followed by a blank line, where the list has items.
pub open spec fn listed(label: Seq<char>, items: Seq<Seq<char>>, shown: bool) -> Seq<BlockView> {
    if shown {
        seq![BlockView::Bullets(label, items), BlockView::Text(Seq::empty())]
    } else {
        Seq::empty()
    }
}

fn push_listed(out: &mut Vec<DemoBlock>, label: &str, items: &Vec<String>, shown: bool)
    ensures
        block_views(final(out)@) == block_views(old(out)@) + listed(label@, views(items@), shown),
{
    let ghost before = block_views(out@);
    if shown {
        push_block(out, DemoBlock::Bullets(owned(label), copy_all(items)));
        push_block(out, blank());
    }
    assert(block_views(out@) =~= before + listed(label@, views(items@), shown));
}

/// The latest recorded attempt of a demo, as its receipt reads.
#[derive(Debug)]
pub struct DemoLatestAttempt {
    pub state_label: String,
    pub outcome: Option<String>,
    pub summary: Option<String>,
    pub receipt_path: Option<String>,
    pub parse_error: Option<String>,
    pub stdout_log_path: Option<String>,
    pub stderr_log_path: Option<String>,
    pub artifacts: Vec<String>,
}

/// A retained terminal attempt of a demo's history.
#[derive(Debug)]
pub struct DemoHistoricalAttempt {
    pub attempt_id: String,
    pub recorded_at_epoch_ms: u64,
    pub outcome: String,
    pub exit_code: Option<i32>,
    pub receipt_path: Option<String>,
    pub stdout_log_path: Option<String>,
    pub stderr_log_path: Option<String>,
    pub summary: Option<String>,
    pub artifacts: Vec<String>,
}

/// What the demo reports show of one declared demo.
#[derive(Debug)]
pub struct DemoRecordView {
    pub id: String,
    pub title: String,
    pub summary: String,
    pub proof: String,
    pub owner: String,
    pub mode: String,
    pub base_status: String,
    pub effective_status: String,
    pub freshness: String,
    pub gap: String,
    /// The entrypoint, rendered in full.
    pub entrypoint: String,
    pub defined_in: String,
    pub covers: Vec<String>,
    pub tags: Vec<String>,
    pub sources: Vec<String>,
    pub prerequisites: Vec<String>,
    pub dependencies: Vec<String>,
    pub latest: DemoLatestAttempt,
    pub history_path: Option<String>,
    pub history_parse_error: Option<String>,
    pub stored_attempts: usize,
    pub recent_stdout: Vec<String>,
    pub recent_stderr: Vec<String>,
}

pub open spec fn inspect_values(r: DemoRecordView) -> Seq<(Seq<char>, Seq<char>)> {
    seq![
        ("id"@, r.id@),
        ("title"@, r.title@),
        ("summary"@, r.summary@),
        ("proof"@, r.proof@),
        ("owner"@, r.owner@),
        ("mode"@, r.mode@),
        ("base-status"@, r.base_status@),
        ("effective-status"@, r.effective_status@),
        ("freshness"@, r.freshness@),
        ("gap"@, r.gap@),
        ("entrypoint"@, r.entrypoint@),
        ("defined-in"@, r.defined_in@),
    ]
}

pub open spec fn inspect_head(r: DemoRecordView) -> Seq<BlockView> {
    seq![
        BlockView::Section("Demo Inspect"@),
        BlockView::KeyValues(inspect_values(r)),
        BlockView::Text(Seq::empty()),
    ]
}

pub open spec fn inspect_lists(r: DemoRecordView) -> Seq<BlockView> {
    listed("covers"@, views(r.covers@), r.covers@.len() > 0) + listed("tags"@, views(r.tags@), r.tags@.len() > 0)
        + listed("sources"@, views(r.sources@), r.sources@.len() > 1) + listed(
        "prerequisites"@,
        views(r.prerequisites@),
        r.prerequisites@.len() > 0,
    ) + listed("dependencies"@, views(r.dependencies@), r.dependencies@.len() > 0)
}

pub open spec fn inspect_live(r: DemoRecordView) -> Seq<BlockView> {
    seq![
        BlockView::Section("Actions"@),
        BlockView::Actions,
        BlockView::Text(Seq::empty()),
        BlockView::Section("Active Attempt"@),
        BlockView::ActiveAttempt,
        BlockView::Text(Seq::empty()),
        BlockView::Section("Active Terminal Session"@),
        BlockView::ActiveTerminalSession,
    ] + (if r.recent_stdout@.len() > 0 {
        seq![BlockView::Text(Seq::empty()), BlockView::Bullets("recent-stdout"@, views(r.recent_stdout@))]
    } else {
        Seq::empty()
    }) + (if r.recent_stderr@.len() > 0 {
        seq![BlockView::Text(Seq::empty()), BlockView::Bullets("recent-stderr"@, views(r.recent_stderr@))]
    } else {
        Seq::empty()
    }) + seq![BlockView::Text(Seq::empty())]
}

pub open spec fn latest_values(l: DemoLatestAttempt) -> Seq<(Seq<char>, Seq<char>)> {
    seq![("state"@, l.state_label@), ("receipt"@, or_text(l.receipt_path, "<none>"@))] + opt_kv(
        "outcome"@,
        l.outcome,
    ) + opt_kv("summary"@, l.summary) + opt_kv("receipt-parse"@, l.parse_error) + opt_kv(
        "stdout-log"@,
        l.stdout_log_path,
    ) + opt_kv("stderr-log"@, l.stderr_log_path)
}

pub open spec fn recent_part(r: DemoRecordView) -> Seq<BlockView> {
    if r.history_parse_error is Some || r.stored_attempts > 0 {
        seq![BlockView::Text(Seq::empty()), BlockView::Section("Recent Attempts"@)] + (match r.history_parse_error {
            Some(e) => seq![BlockView::KeyValues(seq![("history-parse"@, e@)])],
            None => Seq::empty(),
        }) + (if r.stored_attempts > 0 {
            seq![BlockView::RecentAttempts]
        } else {
            Seq::empty()
        })
    } else {
        Seq::empty()
    }
}

pub open spec fn inspect_latest(r: DemoRecordView) -> Seq<BlockView> {
    seq![BlockView::Section("Latest Attempt"@), BlockView::KeyValues(latest_values(r.latest))] + (if r.latest.artifacts@.len()
        > 0 {
        seq![BlockView::Text(Seq::empty()), BlockView::Bullets("artifacts"@, views(r.latest.artifacts@))]
    } else {
        Seq::empty()
    }) + recent_part(r) + seq![BlockView::Text(Seq::empty())]
}

/// The blocks of `demo inspect`: the demo's declaration, its lists, its
/// actions and live state, then its latest attempt and recent history.
pub open spec fn inspect_blocks(r: DemoRecordView) -> Seq<BlockView> {
    inspect_head(r) + inspect_lists(r) + inspect_live(r) + inspect_latest(r)
}

fn push_inspect_head(out: &mut Vec<DemoBlock>, r: &DemoRecordView)
    ensures
        block_views(final(out)@) == block_views(old(out)@) + inspect_head(*r),
{
    let ghost before = block_views(out@);
    push_block(out, section("Demo Inspect"));
    let mut kvs: Vec<DemoKeyValue> = Vec::new();
    push_kv(&mut kvs, "id", r.id.as_str());
    push_kv(&mut kvs, "title", r.title.as_str());
    push_kv(&mut kvs, "summary", r.summary.as_str());
    push_kv(&mut kvs, "proof", r.proof.as_str());
    push_kv(&mut kvs, "owner", r.owner.as_str());
    push_kv(&mut kvs, "mode", r.mode.as_str());
    push_kv(&mut kvs, "base-status", r.base_status.as_str());
    push_kv(&mut kvs, "effective-status", r.effective_status.as_str());
    push_kv(&mut kvs, "freshness", r.freshness.as_str());
    push_kv(&mut kvs, "gap", r.gap.as_str());
    push_kv(&mut kvs, "entrypoint", r.entrypoint.as_str());
    push_kv(&mut kvs, "defined-in", r.defined_in.as_str());
    assert(kv_views(kvs@) =~= inspect_values(*r));
    push_block(out, DemoBlock::KeyValues(kvs));
    push_block(out, blank());
    assert(block_views(out@) =~= before + inspect_head(*r));
}

fn push_inspect_lists(out: &mut Vec<DemoBlock>, r: &DemoRecordView)
    ensures
        block_views(final(out)@) == block_views(old(out)@) + inspect_lists(*r),
{
    let ghost before = block_views(out@);
    push_listed(out, "covers", &r.covers, r.covers.len() > 0);
    push_listed(out, "tags", &r.tags, r.tags.len() > 0);
    push_listed(out, "sources", &r.sources, r.sources.len() > 1);
    push_listed(out, "prerequisites", &r.prerequisites, r.prerequisites.len() > 0);
    push_listed(out, "dependencies", &r.dependencies, r.dependencies.len() > 0);
    assert(block_views(out@) =~= before + inspect_lists(*r));
}

fn push_inspect_live(out: &mut Vec<DemoBlock>, r: &DemoRecordView)
    ensures
        block_views(final(out)@) == block_views(old(out)@) + inspect_live(*r),
{
    let ghost before = block_views(out@);
    push_block(out, section("Actions"));
    push_block(out, DemoBlock::Actions);
    push_block(out, blank());
    push_block(out, section("Active Attempt"));
    push_block(out, DemoBlock::ActiveAttempt);
    push_block(out, blank());
    push_block(out, section("Active Terminal Session"));
    push_block(out, DemoBlock::ActiveTerminalSession);
    let ghost mid = block_views(out@);
    if r.recent_stdout.len() > 0 {
        push_block(out, blank());
        push_block(out, DemoBlock::Bullets(owned("recent-stdout"), copy_all(&r.recent_stdout)));
    }
    if r.recent_stderr.len() > 0 {
        push_block(out, blank());
        push_block(out, DemoBlock::Bullets(owned("recent-stderr"), copy_all(&r.recent_stderr)));
    }
    push_block(out, blank());
    assert(block_views(out@) =~= before + inspect_live(*r));
}

fn latest_key_values(l: &DemoLatestAttempt) -> (r: Vec<DemoKeyValue>)
    ensures
        kv_views(r@) == latest_values(*l),
{
    let mut kvs: Vec<DemoKeyValue> = Vec::new();
    push_kv(&mut kvs, "state", l.state_label.as_str());
    let receipt = or_owned(&l.receipt_path, "<none>");
    push_kv(&mut kvs, "receipt", receipt.as_str());
    push_opt_kv(&mut kvs, "outcome", &l.outcome);
    push_opt_kv(&mut kvs, "summary", &l.summary);
    push_opt_kv(&mut kvs, "receipt-parse", &l.parse_error);
    push_opt_kv(&mut kvs, "stdout-log", &l.stdout_log_path);
    push_opt_kv(&mut kvs, "stderr-log", &l.stderr_log_path);
    assert(kv_views(kvs@) =~= latest_values(*l));
    kvs
}

fn push_inspect_latest(out: &mut Vec<DemoBlock>, r: &DemoRecordView)
    ensures
        block_views(final(out)@) == block_views(old(out)@) + inspect_latest(*r),
{
    let ghost before = block_views(out@);
    push_block(out, section("Latest Attempt"));
    push_block(out, DemoBlock::KeyValues(latest_key_values(&r.latest)));
    if r.latest.artifacts.len() > 0 {
        push_block(out, blank());
        push_block(out, DemoBlock::Bullets(owned("artifacts"), copy_all(&r.latest.artifacts)));
    }
    let ghost mid = block_views(out@);
    assert(mid =~= before + seq![BlockView::Section("Latest Attempt"@), BlockView::KeyValues(latest_values(r.latest))] + (if r.latest.artifacts@.len()
        > 0 {
        seq![BlockView::Text(Seq::empty()), BlockView::Bullets("artifacts"@, views(r.latest.artifacts@))]
    } else {
        Seq::empty()
    }));
    if r.history_parse_error.is_some() || r.stored_attempts > 0 {
        push_block(out, blank());
        push_block(out, section("Recent Attempts"));
        if let Some(e) = &r.history_parse_error {
            let mut kvs: Vec<DemoKeyValue> = Vec::new();
            push_kv(&mut kvs, "history-parse", e.as_str());
            assert(kv_views(kvs@) =~= seq![("history-parse"@, e@)]);
            push_block(out, DemoBlock::KeyValues(kvs));
        }
        if r.stored_attempts > 0 {
            push_block(out, DemoBlock::RecentAttempts);
        }
    }
    assert(block_views(out@) =~= mid + recent_part(*r));
    push_block(out, blank());
    assert(block_views(out@) =~= before + inspect_latest(*r));
}

/// The blocks of `demo inspect` for a demo.
pub fn render_demo_inspect(r: &DemoRecordView) -> (out: Vec<DemoBlock>)
    ensures
        block_views(out@) == inspect_blocks(*r),
{
    let mut out: Vec<DemoBlock> = Vec::new();
    push_inspect_head(&mut out, r);
    push_inspect_lists(&mut out, r);
    push_inspect_live(&mut out, r);
    push_inspect_latest(&mut out, r);
    assert(block_views(out@) =~= inspect_blocks(*r));
    out
}

/// A signed decimal rendering.
pub open spec fn idec(i: int) -> Seq<char> {
    if i < 0 {
        "-"@ + dec((-i) as nat)
    } else {
        dec(i as nat)
    }
}

fn idec_string(i: i32) -> (r: String)
    ensures
        r@ == idec(i as int),
{
    let mut s = String::new();
    if i < 0 {
        s.append("-");
        let m: i64 = -(i as i64);
        crate::text::push_dec(&mut s, m as u64);
    } else {
        crate::text::push_dec(&mut s, i as u64);
    }
    s
}

/// Which attempt a history query picked, if any.
#[derive(Debug, Clone, Copy, PartialEq, Eq)]
pub enum HistoryPick {
    /// None was asked for.
    NoAttempt,
    /// The retained attempt at this index, asked for by its id.
    Retained(usize),
    /// The displayed attempt at this index, asked for by its ordinal.
    Displayed(usize),
}

pub open spec fn both_selectors_message() -> Seq<char> {
    "choose either `--attempt <ATTEMPT_ID>` or `--ordinal <N>`, not both"@
}

pub open spec fn attempt_not_found_message(attempt_id: Seq<char>, demo_id: Seq<char>) -> Seq<char> {
    "retained attempt `"@ + attempt_id + "` was not found for demo `"@ + demo_id + "`"@
}

pub open spec fn ordinal_not_found_message(ordinal: nat, demo_id: Seq<char>) -> Seq<char> {
    "retained attempt ordinal `"@ + dec(ordinal) + "` was not found in the current history result for demo `"@
        + demo_id + "`"@
}

/// The attempt a history query selects: by id, the retained attempt the
/// lookup found (`found_by_id`); by ordinal, counting from one, the
/// displayed attempt at that position. Asking for both, an id that was not
/// found or an ordinal past the displayed attempts gives the message of the
/// failure.
pub fn demo_history_selection(
    demo_id: &str,
    selected_id: Option<&str>,
    ordinal: Option<usize>,
    found_by_id: Option<usize>,
    displayed_count: usize,
) -> (r: Result<HistoryPick, String>)
    ensures
        selected_id is Some && ordinal is Some ==> (r matches Err(m) && m@ == both_selectors_message()),
        selected_id is None && ordinal is None ==> r == Ok::<HistoryPick, String>(HistoryPick::NoAttempt),
        selected_id is Some && ordinal is None ==> match found_by_id {
            Some(i) => r == Ok::<HistoryPick, String>(HistoryPick::Retained(i)),
            None => r matches Err(m) && m@ == attempt_not_found_message(selected_id->0@, demo_id@),
        },
        selected_id is None && ordinal is Some ==> if 1 <= ordinal->0 <= displayed_count {
            r == Ok::<HistoryPick, String>(HistoryPick::Displayed((ordinal->0 - 1) as usize))
        } else {
            r matches Err(m) && m@ == ordinal_not_found_message(ordinal->0 as nat, demo_id@)
        },
{
    match (selected_id, ordinal) {
        (Some(_), Some(_)) => Err(owned("choose either `--attempt <ATTEMPT_ID>` or `--ordinal <N>`, not both")),
        (None, None) => Ok(HistoryPick::NoAttempt),
        (Some(id), None) => match found_by_id {
            Some(i) => Ok(HistoryPick::Retained(i)),
            None => {
                let mut m = crate::text::cat3("retained attempt `", id, "` was not found for demo `");
                m.append(demo_id);
                m.append("`");
                Err(m)
            },
        },
        (None, Some(n)) => {
            if 1 <= n && n <= displayed_count {
                Ok(HistoryPick::Displayed(n - 1))
            } else {
                let mut m = owned("retained attempt ordinal `");
                crate::text::push_dec(&mut m, n as u64);
                m.append("` was not found in the current history result for demo `");
                m.append(demo_id);
                m.append("`");
                Err(m)
            }
        },
    }
}

/// What a history query asked for.
#[derive(Debug)]
pub struct DemoHistoryQuery {
    pub limit: Option<usize>,
    pub outcome: Option<String>,
    pub attempt_id: Option<String>,
    pub ordinal: Option<usize>,
}

pub open spec fn opt_dec(n: Option<usize>, fallback: Seq<char>) -> Seq<char> {
    match n {
        Some(v) => dec(v as nat),
        None => fallback,
    }
}

fn opt_dec_string(n: Option<usize>, fallback: &str) -> (r: String)
    ensures
        r@ == opt_dec(n, fallback@),
{
    match n {
        Some(v) => crate::text::dec_string(v as u64),
        None => owned(fallback),
    }
}

pub open spec fn history_values(
    r: DemoRecordView,
    q: DemoHistoryQuery,
    filtered_count: usize,
    displayed_count: usize,
) -> Seq<(Seq<char>, Seq<char>)> {
    seq![
        ("id"@, r.id@),
        ("title"@, r.title@),
        ("owner"@, r.owner@),
        ("entrypoint"@, r.entrypoint@),
        ("history-path"@, or_text(r.history_path, "<none>"@)),
        ("stored-attempts"@, dec(r.stored_attempts as nat)),
        ("matching-attempts"@, dec(filtered_count as nat)),
        ("showing"@, dec(displayed_count as nat)),
        ("limit"@, opt_dec(q.limit, "all"@)),
        ("outcome"@, or_text(q.outcome, "all"@)),
        ("selected-attempt"@, or_text(q.attempt_id, "none"@)),
        ("selected-ordinal"@, opt_dec(q.ordinal, "none"@)),
    ]
}

pub open spec fn latest_result_values(l: DemoLatestAttempt) -> Seq<(Seq<char>, Seq<char>)> {
    seq![("state"@, l.state_label@)] + opt_kv("outcome"@, l.outcome) + opt_kv("summary"@, l.summary) + opt_kv(
        "receipt"@,
        l.receipt_path,
    )
}

/// Why a history shows no attempts.
pub open spec fn empty_history_message(stored: usize, outcome_filtered: bool) -> Seq<char> {
    if stored == 0 {
        "No retained terminal attempts are recorded for this demo yet."@
    } else if outcome_filtered {
        "No retained terminal attempts matched the current history query."@
    } else {
        "No retained terminal attempts are available in the current history window."@
    }
}

pub open spec fn selected_values(a: DemoHistoricalAttempt) -> Seq<(Seq<char>, Seq<char>)> {
    seq![
        ("attempt-id"@, a.attempt_id@),
        ("recorded-at-epoch-ms"@, dec(a.recorded_at_epoch_ms as nat)),
        ("outcome"@, a.outcome@),
    ] + (match a.exit_code {
        Some(c) => seq![("exit-code"@, idec(c as int))],
        None => Seq::empty(),
    }) + opt_kv("receipt"@, a.receipt_path) + opt_kv("stdout-log"@, a.stdout_log_path) + opt_kv(
        "stderr-log"@,
        a.stderr_log_path,
    )
}

/// The blocks of one selected historical attempt: its values, its summary
/// and its artifacts.
pub open spec fn selected_blocks(a: DemoHistoricalAttempt) -> Seq<BlockView> {
    seq![BlockView::Section("Selected Attempt"@), BlockView::KeyValues(selected_values(a))] + (match a.summary {
        Some(t) => seq![BlockView::Text(Seq::empty()), BlockView::Section("Result Summary"@), BlockView::Text(t@)],
        None => Seq::empty(),
    }) + seq![BlockView::Text(Seq::empty()), BlockView::Section("Artifacts"@)] + if a.artifacts@.len() == 0 {
        seq![BlockView::Notice("No artifacts were recorded for the selected historical attempt."@)]
    } else {
        seq![BlockView::Bullets(Seq::empty(), views(a.artifacts@))]
    }
}

/// The blocks of `demo history`: the query and counts, the latest result,
/// the active attempt, then the recent attempts and the selected one.
pub open spec fn history_blocks(
    r: DemoRecordView,
    q: DemoHistoryQuery,
    filtered_count: usize,
    displayed_count: usize,
    selected: Option<DemoHistoricalAttempt>,
) -> Seq<BlockView> {
    seq![
        BlockView::Section("Demo History"@),
        BlockView::KeyValues(history_values(r, q, filtered_count, displayed_count)),
        BlockView::Text(Seq::empty()),
        BlockView::Section("Latest Result"@),
        BlockView::KeyValues(latest_result_values(r.latest)),
        BlockView::Text(Seq::empty()),
        BlockView::Section("Active Attempt"@),
        BlockView::ActiveAttempt,
        BlockView::Text(Seq::empty()),
        BlockView::Section("Recent Attempts"@),
    ] + (match r.history_parse_error {
        Some(e) => seq![BlockView::KeyValues(seq![("history-parse"@, e@)]), BlockView::Text(Seq::empty())],
        None => Seq::empty(),
    }) + (if displayed_count == 0 {
        seq![BlockView::Notice(empty_history_message(r.stored_attempts, q.outcome is Some))]
    } else {
        seq![BlockView::RecentAttempts]
    }) + (match selected {
        Some(a) => seq![BlockView::Text(Seq::empty())] + selected_blocks(a),
        None => Seq::empty(),
    }) + seq![BlockView::Text(Seq::empty())]
}

fn history_key_values(
    r: &DemoRecordView,
    q: &DemoHistoryQuery,
    filtered_count: usize,
    displayed_count: usize,
) -> (kvs: Vec<DemoKeyValue>)
    ensures
        kv_views(kvs@) == history_values(*r, *q, filtered_count, displayed_count),
{
    let mut kvs: Vec<DemoKeyValue> = Vec::new();
    push_kv(&mut kvs, "id", r.id.as_str());
    push_kv(&mut kvs, "title", r.title.as_str());
    push_kv(&mut kvs, "owner", r.owner.as_str());
    push_kv(&mut kvs, "entrypoint", r.entrypoint.as_str());
    let path = or_owned(&r.history_path, "<none>");
    push_kv(&mut kvs, "history-path", path.as_str());
    let stored = crate::text::dec_string(r.stored_attempts as u64);
    push_kv(&mut kvs, "stored-attempts", stored.as_str());
    let matching = crate::text::dec_string(filtered_count as u64);
    push_kv(&mut kvs, "matching-attempts", matching.as_str());
    let showing = crate::text::dec_string(displayed_count as u64);
    push_kv(&mut kvs, "showing", showing.as_str());
    let limit = opt_dec_string(q.limit, "all");
    push_kv(&mut kvs, "limit", limit.as_str());
    let outcome = or_owned(&q.outcome, "all");
    push_kv(&mut kvs, "outcome", outcome.as_str());
    let attempt = or_owned(&q.attempt_id, "none");
    push_kv(&mut kvs, "selected-attempt", attempt.as_str());
    let ordinal = opt_dec_string(q.ordinal, "none");
    push_kv(&mut kvs, "selected-ordinal", ordinal.as_str());
    assert(kv_views(kvs@) =~= history_values(*r, *q, filtered_count, displayed_count));
    kvs
}

fn selected_key_values(a: &DemoHistoricalAttempt) -> (kvs: Vec<DemoKeyValue>)
    ensures
        kv_views(kvs@) == selected_values(*a),
{
    let mut kvs: Vec<DemoKeyValue> = Vec::new();
    push_kv(&mut kvs, "attempt-id", a.attempt_id.as_str());
    let at = crate::text::dec_string(a.recorded_at_epoch_ms);
    push_kv(&mut kvs, "recorded-at-epoch-ms", at.as_str());
    push_kv(&mut kvs, "outcome", a.outcome.as_str());
    let ghost head = kv_views(kvs@);
    if let Some(c) = a.exit_code {
        let code = idec_string(c);
        push_kv(&mut kvs, "exit-code", code.as_str());
    }
    assert(kv_views(kvs@) =~= head + match a.exit_code {
        Some(c) => seq![("exit-code"@, idec(c as int))],
        None => Seq::empty(),
    });
    push_opt_kv(&mut kvs, "receipt", &a.receipt_path);
    push_opt_kv(&mut kvs, "stdout-log", &a.stdout_log_path);
    push_opt_kv(&mut kvs, "stderr-log", &a.stderr_log_path);
    assert(kv_views(kvs@) =~= selected_values(*a));
    kvs
}

/// Appends the blocks of a selected historical attempt.
pub fn render_selected_historical_attempt(out: &mut Vec<DemoBlock>, a: &DemoHistoricalAttempt)
    ensures
        block_views(final(out)@) == block_views(old(out)@) + selected_blocks(*a),
{
    let ghost before = block_views(out@);
    push_block(out, section("Selected Attempt"));
    push_block(out, DemoBlock::KeyValues(selected_key_values(a)));
    if let Some(t) = &a.summary {
        push_block(out, blank());
        push_block(out, section("Result Summary"));
        push_block(out, DemoBlock::Text(owned(t.as_str())));
    }
    push_block(out, blank());
    push_block(out, section("Artifacts"));
    if a.artifacts.len() == 0 {
        push_block(out, DemoBlock::Notice(owned("No artifacts were recorded for the selected historical attempt.")));
    } else {
        push_block(out, DemoBlock::Bullets(String::new(), copy_all(&a.artifacts)));
    }
    assert(block_views(out@) =~= before + selected_blocks(*a));
}

fn latest_result_key_values(l: &DemoLatestAttempt) -> (kvs: Vec<DemoKeyValue>)
    ensures
        kv_views(kvs@) == latest_result_values(*l),
{
    let mut kvs: Vec<DemoKeyValue> = Vec::new();
    push_kv(&mut kvs, "state", l.state_label.as_str());
    push_opt_kv(&mut kvs, "outcome", &l.outcome);
    push_opt_kv(&mut kvs, "summary", &l.summary);
    push_opt_kv(&mut kvs, "receipt", &l.receipt_path);
    assert(kv_views(kvs@) =~= latest_result_values(*l));
    kvs
}

/// The blocks of `demo history` for a demo, the counts of attempts that
/// matched the query and that are shown, and the selected attempt.
pub fn render_demo_history(
    r: &DemoRecordView,
    q: &DemoHistoryQuery,
    filtered_count: usize,
    displayed_count: usize,
    selected: Option<&DemoHistoricalAttempt>,
) -> (out: Vec<DemoBlock>)
    ensures
        block_views(out@) == history_blocks(
            *r,
            *q,
            filtered_count,
            displayed_count,
            match selected {
                Some(a) => Some(*a),
                None => None,
            },
        ),
{
    let mut out: Vec<DemoBlock> = Vec::new();
    push_block(&mut out, section("Demo History"));
    push_block(&mut out, DemoBlock::KeyValues(history_key_values(r, q, filtered_count, displayed_count)));
    push_block(&mut out, blank());
    push_block(&mut out, section("Latest Result"));
    push_block(&mut out, DemoBlock::KeyValues(latest_result_key_values(&r.latest)));
    push_block(&mut out, blank());
    push_block(&mut out, section("Active Attempt"));
    push_block(&mut out, DemoBlock::ActiveAttempt);
    push_block(&mut out, blank());
    push_block(&mut out, section("Recent Attempts"));
    let ghost e0 = block_views(out@);
    if let Some(e) = &r.history_parse_error {
        let mut kvs: Vec<DemoKeyValue> = Vec::new();
        push_kv(&mut kvs, "history-parse", e.as_str());
        assert(kv_views(kvs@) =~= seq![("history-parse"@, e@)]);
        push_block(&mut out, DemoBlock::KeyValues(kvs));
        push_block(&mut out, blank());
    }
    let ghost e1 = block_views(out@);
    assert(e1 =~= e0 + match r.history_parse_error {
        Some(e) => seq![BlockView::KeyValues(seq![("history-parse"@, e@)]), BlockView::Text(Seq::empty())],
        None => Seq::<BlockView>::empty(),
    });
    if displayed_count == 0 {
        let message = if r.stored_attempts == 0 {
            "No retained terminal attempts are recorded for this demo yet."
        } else if q.outcome.is_some() {
            "No retained terminal attempts matched the current history query."
        } else {
            "No retained terminal attempts are available in the current history window."
        };
        push_block(&mut out, DemoBlock::Notice(owned(message)));
    } else {
        push_block(&mut out, DemoBlock::RecentAttempts);
    }
    let ghost e2 = block_views(out@);
    if let Some(a) = selected {
        push_block(&mut out, blank());
        render_selected_historical_attempt(&mut out, a);
    }
    push_block(&mut out, blank());
    assert(block_views(out@) =~= history_blocks(
        *r,
        *q,
        filtered_count,
        displayed_count,
        match selected {
            Some(a) => Some(*a),
            None => None,
        },
    ));
    out
}

/// A demo command's failure: in JSON mode the rendered error payload, else
/// the message.
pub fn demo_error(output_json: bool, message: String, rendered_payload: String) -> (r: Result<String, RunnerError>)
    ensures
        output_json ==> r == Err::<String, RunnerError>(RunnerError::CommandJsonFailure { rendered: rendered_payload }),
        !output_json ==> r == Err::<String, RunnerError>(RunnerError::TaskInvocation { message }),
{
    if output_json {
        return Err(RunnerError::CommandJsonFailure { rendered: rendered_payload });
    }
    Err(RunnerError::TaskInvocation { message })
}

pub open spec fn not_found_message(demo_id: Seq<char>) -> Seq<char> {
    "demo `"@ + demo_id + "` was not found"@
}

/// The message of a demo id the manifest does not declare.
pub fn demo_not_found_message(demo_id: &str) -> (m: String)
    ensures
        m@ == not_found_message(demo_id@),
{
    crate::text::cat3("demo `", demo_id, "` was not found")
}

/// The message `demo `{id}` {rest}`.
pub open spec fn demo_message(demo_id: Seq<char>, rest: Seq<char>) -> Seq<char> {
    "demo `"@ + demo_id + "` "@ + rest
}

fn demo_message_string(demo_id: &str, rest: &str) -> (m: String)
    ensures
        m@ == demo_message(demo_id@, rest@),
{
    let mut m = crate::text::cat3("demo `", demo_id, "` ");
    m.append(rest);
    m
}

/// The width in bytes of a character encoded as UTF-8.
pub open spec fn utf8_width(c: char) -> nat {
    if (c as u32) < 0x80 {
        1
    } else if (c as u32) < 0x800 {
        2
    } else if (c as u32) < 0x10000 {
        3
    } else {
        4
    }
}

/// The length in bytes of a text encoded as UTF-8.
pub open spec fn utf8_len(s: Seq<char>) -> nat
    decreases s.len(),
{
    if s.len() == 0 {
        0
    } else {
        utf8_len(s.drop_last()) + utf8_width(s.last())
    }
}

/// `str::len`: the number of bytes of the UTF-8 encoding of `s`.
#[verifier::external_body]
fn byte_len(s: &str) -> (n: usize)
    ensures
        n == utf8_len(s@),
{
    s.len()
}

/// Appending the newline to forwarded input adds exactly one byte.
pub proof fn lemma_forwarded_newline_adds_one_byte(text: Seq<char>)
    ensures
        utf8_len(forwarded(text, true)) == utf8_len(text) + 1,
        utf8_len(forwarded(text, false)) == utf8_len(text),
{
    reveal_strlit("\n");
    let s = text + "\n"@;
    assert(s.drop_last() =~= text);
    assert(s.last() == '\n');
}

/// What input to forward to a running demo, and where.
#[derive(Debug)]
pub struct DemoInputPlan {
    pub input_path: String,
    pub forwarded_text: String,
    pub forwarded_bytes: usize,
}

pub open spec fn forwarded(text: Seq<char>, append_newline: bool) -> Seq<char> {
    if append_newline {
        text + "\n"@
    } else {
        text
    }
}

pub open spec fn input_blocks(demo_id: Seq<char>, append_newline: bool, forwarded_bytes: nat) -> Seq<BlockView> {
    seq![
        BlockView::Section("Demo Terminal Input"@),
        BlockView::KeyValues(
            seq![
                ("demo"@, demo_id),
                (
                    "append-newline"@,
                    if append_newline {
                        "yes"@
                    } else {
                        "no"@
                    },
                ),
                ("forwarded-bytes"@, dec(forwarded_bytes)),
            ],
        ),
    ]
}

/// `demo input`: the text to forward (with a newline appended when asked)
/// and the handoff to write it to, with the report to show once written;
/// the message of the failure when the demo has no active terminal
/// session, does not forward input, or exposes no input handoff.
pub fn render_demo_input(
    demo_id: &str,
    text: &str,
    append_newline: bool,
    active: bool,
    supports_input_forwarding: bool,
    input_path: Option<&str>,
) -> (r: Result<(DemoInputPlan, Vec<DemoBlock>), String>)
    ensures
        !active ==> (r matches Err(m) && m@ == demo_message(
            demo_id@,
            "has no active terminal session to receive input"@,
        )),
        active && !supports_input_forwarding ==> (r matches Err(m) && m@ == demo_message(
            demo_id@,
            "does not expose terminal input forwarding in the current runtime"@,
        )),
        active && supports_input_forwarding && input_path is None ==> (r matches Err(m) && m@ == demo_message(
            demo_id@,
            "does not expose a writable terminal input handoff"@,
        )),
        active && supports_input_forwarding && input_path is Some ==> (r matches Ok((plan, blocks)) && plan.input_path@
            == input_path->0@ && plan.forwarded_text@ == forwarded(text@, append_newline) && plan.forwarded_bytes
            == utf8_len(forwarded(text@, append_newline)) && block_views(blocks@) == input_blocks(
            demo_id@,
            append_newline,
            utf8_len(forwarded(text@, append_newline)),
        )),
{
    if !active {
        return Err(demo_message_string(demo_id, "has no active terminal session to receive input"));
    }
    if !supports_input_forwarding {
        return Err(demo_message_string(demo_id, "does not expose terminal input forwarding in the current runtime"));
    }
    let path = match input_path {
        Some(p) => p,
        None => {
            return Err(demo_message_string(demo_id, "does not expose a writable terminal input handoff"));
        },
    };
    let mut forwarded_text = owned(text);
    if append_newline {
        forwarded_text.append("\n");
    }
    let bytes = byte_len(forwarded_text.as_str());
    let mut out: Vec<DemoBlock> = Vec::new();
    push_block(&mut out, section("Demo Terminal Input"));
    let mut kvs: Vec<DemoKeyValue> = Vec::new();
    push_kv(&mut kvs, "demo", demo_id);
    push_kv(&mut kvs, "append-newline", if append_newline { "yes" } else { "no" });
    let b = crate::text::dec_string(bytes as u64);
    push_kv(&mut kvs, "forwarded-bytes", b.as_str());
    assert(kv_views(kvs@) =~= seq![
        ("demo"@, demo_id@),
        (
            "append-newline"@,
            if append_newline {
                "yes"@
            } else {
                "no"@
            },
        ),
        ("forwarded-bytes"@, dec(bytes as nat)),
    ]);
    push_block(&mut out, DemoBlock::KeyValues(kvs));
    assert(block_views(out@) =~= input_blocks(demo_id@, append_newline, bytes as nat));
    Ok((DemoInputPlan { input_path: owned(path), forwarded_text, forwarded_bytes: bytes }, out))
}

pub open spec fn resize_blocks(demo_id: Seq<char>, cols: u16, rows: u16) -> Seq<BlockView> {
    seq![
        BlockView::Section("Demo Terminal Resize"@),
        BlockView::KeyValues(
            seq![("demo"@, demo_id), ("cols"@, dec(cols as nat)), ("rows"@, dec(rows as nat))],
        ),
    ]
}

/// `demo resize`: the resize handoff to write the new size to, with the
/// report to show once written; the message of the failure when the demo
/// has no active terminal session, does not take resizes, or exposes no
/// resize handoff.
pub fn render_demo_resize(
    demo_id: &str,
    cols: u16,
    rows: u16,
    active: bool,
    resize_available: bool,
    resize_path: Option<&str>,
) -> (r: Result<(String, Vec<DemoBlock>), String>)
    ensures
        !active ==> (r matches Err(m) && m@ == demo_message(demo_id@, "has no active terminal session to resize"@)),
        active && !resize_available ==> (r matches Err(m) && m@ == demo_message(
            demo_id@,
            "does not expose terminal resize handoff in the current runtime"@,
        )),
        active && resize_available && resize_path is None ==> (r matches Err(m) && m@ == demo_message(
            demo_id@,
            "does not expose a writable terminal resize handoff"@,
        )),
        active && resize_available && resize_path is Some ==> (r matches Ok((path, blocks)) && path@
            == resize_path->0@ && block_views(blocks@) == resize_blocks(demo_id@, cols, rows)),
{
    if !active {
        return Err(demo_message_string(demo_id, "has no active terminal session to resize"));
    }
    if !resize_available {
        return Err(demo_message_string(demo_id, "does not expose terminal resize handoff in the current runtime"));
    }
    let path = match resize_path {
        Some(p) => p,
        None => {
            return Err(demo_message_string(demo_id, "does not expose a writable terminal resize handoff"));
        },
    };
    let mut out: Vec<DemoBlock> = Vec::new();
    push_block(&mut out, section("Demo Terminal Resize"));
    let mut kvs: Vec<DemoKeyValue> = Vec::new();
    push_kv(&mut kvs, "demo", demo_id);
    let c = crate::text::dec_string(cols as u64);
    push_kv(&mut kvs, "cols", c.as_str());
    let w = crate::text::dec_string(rows as u64);
    push_kv(&mut kvs, "rows", w.as_str());
    assert(kv_views(kvs@) =~= seq![("demo"@, demo_id@), ("cols"@, dec(cols as nat)), ("rows"@, dec(rows as nat))]);
    push_block(&mut out, DemoBlock::KeyValues(kvs));
    assert(block_views(out@) =~= resize_blocks(demo_id@, cols, rows));
    Ok((owned(path), out))
}

/// How a stop request stands against a demo's entrypoint, active attempt
/// and process.
#[derive(Debug)]
pub enum DemoStopDecision {
    TaskEntrypointNotStoppable { task_name: String },
    NoActiveAttempt,
    NotStoppable,
    AlreadyRequested,
    TransitionOnly,
    NoStoppableHandle,
    ProcessNotRunning,
    SignalPid { target_pid: u32 },
}

/// What `demo stop` does next.
#[derive(Debug)]
pub enum DemoStopStep {
    /// Fail with this message.
    Fail(String),
    /// Clear the active attempt's state, then fail with this message.
    ClearThenFail(String),
    /// Report the attempt with this summary.
    Report(String),
    /// Mark the attempt stop-requested, then report it with this summary.
    MarkThenReport(String),
    /// Mark the attempt stop-requested, signal the process group, then
    /// report it with this summary.
    SignalThenReport { target_pid: u32, summary: String },
}

/// What `demo stop` does for each decision about the demo `demo_id`.
pub fn demo_stop_step(demo_id: &str, decision: DemoStopDecision) -> (r: DemoStopStep)
    ensures
        match decision {
            DemoStopDecision::TaskEntrypointNotStoppable { task_name } => r matches DemoStopStep::Fail(m) && m@
                == demo_message(
                demo_id@,
                "uses task entrypoint `"@ + task_name@
                    + "`; stop is not supported until task execution exposes cancellable handles"@,
            ),
            DemoStopDecision::NoActiveAttempt => r matches DemoStopStep::Fail(m) && m@ == demo_message(
                demo_id@,
                "has no active attempt to stop"@,
            ),
            DemoStopDecision::NotStoppable => r matches DemoStopStep::Fail(m) && m@ == demo_message(
                demo_id@,
                "is active but not stoppable through the current runtime"@,
            ),
            DemoStopDecision::AlreadyRequested => r matches DemoStopStep::Report(s) && s@
                == "stop already requested"@,
            DemoStopDecision::TransitionOnly => r matches DemoStopStep::MarkThenReport(s) && s@
                == "stop requested"@,
            DemoStopDecision::NoStoppableHandle => r matches DemoStopStep::Fail(m) && m@ == demo_message(
                demo_id@,
                "is active but has no stoppable process handle"@,
            ),
            DemoStopDecision::ProcessNotRunning => r matches DemoStopStep::ClearThenFail(m) && m@
                == demo_message(demo_id@, "is no longer running"@),
            DemoStopDecision::SignalPid { target_pid } => r matches DemoStopStep::SignalThenReport {
                target_pid: p,
                summary: s,
            } && p == target_pid && s@ == "stop requested"@,
        },
{
    match decision {
        DemoStopDecision::TaskEntrypointNotStoppable { task_name } => {
            let mut rest = crate::text::cat3(
                "uses task entrypoint `",
                task_name.as_str(),
                "`; stop is not supported until task execution exposes cancellable handles",
            );
            DemoStopStep::Fail(demo_message_string(demo_id, rest.as_str()))
        },
        DemoStopDecision::NoActiveAttempt => DemoStopStep::Fail(
            demo_message_string(demo_id, "has no active attempt to stop"),
        ),
        DemoStopDecision::NotStoppable => DemoStopStep::Fail(
            demo_message_string(demo_id, "is active but not stoppable through the current runtime"),
        ),
        DemoStopDecision::AlreadyRequested => DemoStopStep::Report(owned("stop already requested")),
        DemoStopDecision::TransitionOnly => DemoStopStep::MarkThenReport(owned("stop requested")),
        DemoStopDecision::NoStoppableHandle => DemoStopStep::Fail(
            demo_message_string(demo_id, "is active but has no stoppable process handle"),
        ),
        DemoStopDecision::ProcessNotRunning => DemoStopStep::ClearThenFail(
            demo_message_string(demo_id, "is no longer running"),
        ),
        DemoStopDecision::SignalPid { target_pid } => DemoStopStep::SignalThenReport {
            target_pid,
            summary: owned("stop requested"),
        },
    }
}

pub open spec fn stop_result_blocks(
    r: DemoRecordView,
    state_label: Seq<char>,
    stoppable: bool,
    summary: Seq<char>,
) -> Seq<BlockView> {
    seq![
        BlockView::Section("Demo Stop"@),
        BlockView::KeyValues(
            seq![
                ("id"@, r.id@),
                ("title"@, r.title@),
                ("owner"@, r.owner@),
                ("state"@, state_label),
                (
                    "stoppable"@,
                    if stoppable {
                        "yes"@
                    } else {
                        "no"@
                    },
                ),
            ],
        ),
        BlockView::Text(Seq::empty()),
        BlockView::Notice(demo_message(r.id@, summary)),
        BlockView::Text(Seq::empty()),
    ]
}

/// The report of a stop request: the demo, the reported attempt's state and
/// whether it can be stopped, then `demo `{id}` {summary}`.
pub fn render_demo_stop_result(r: &DemoRecordView, state_label: &str, stoppable: bool, summary: &str) -> (out: Vec<DemoBlock>)
    ensures
        block_views(out@) == stop_result_blocks(*r, state_label@, stoppable, summary@),
{
    let mut out: Vec<DemoBlock> = Vec::new();
    push_block(&mut out, section("Demo Stop"));
    let mut kvs: Vec<DemoKeyValue> = Vec::new();
    push_kv(&mut kvs, "id", r.id.as_str());
    push_kv(&mut kvs, "title", r.title.as_str());
    push_kv(&mut kvs, "owner", r.owner.as_str());
    push_kv(&mut kvs, "state", state_label);
    push_kv(&mut kvs, "stoppable", if stoppable { "yes" } else { "no" });
    assert(kv_views(kvs@) =~= seq![
        ("id"@, r.id@),
        ("title"@, r.title@),
        ("owner"@, r.owner@),
        ("state"@, state_label@),
        (
            "stoppable"@,
            if stoppable {
                "yes"@
            } else {
                "no"@
            },
        ),
    ]);
    push_block(&mut out, DemoBlock::KeyValues(kvs));
    push_block(&mut out, blank());
    push_block(&mut out, DemoBlock::Notice(demo_message_string(r.id.as_str(), summary)));
    push_block(&mut out, blank());
    assert(block_views(out@) =~= stop_result_blocks(*r, state_label@, stoppable, summary@));
    out
}

/// How a demo attempt ended.
#[derive(Debug, Clone, Copy, PartialEq, Eq)]
pub enum DemoAttemptKind {
    Terminated,
    Failed,
    Succeeded,
}

/// The command a managed concurrent demo records:
/// `<managed:{task} profile:{profile}>`.
pub open spec fn managed_command(task_name: Seq<char>, profile: Seq<char>) -> Seq<char> {
    "<managed:"@ + task_name + " profile:"@ + profile + ">"@
}

/// The label that stands for a managed task's command.
pub fn managed_command_label(task_name: &str, profile: &str) -> (r: String)
    ensures
        r@ == managed_command(task_name@, profile@),
{
    let mut r = crate::text::cat3("<managed:", task_name, " profile:");
    r.append(profile);
    r.append(">");
    r
}

/// Whether a managed concurrent demo keeps polling its processes: while
/// some have not exited, or the streams have not been drained for
/// `drain_polls` polls after the last exit.
pub fn concurrent_runtime_continues(exit_count: usize, expected: usize, drained_after_exit: usize, drain_polls: usize) -> (r: bool)
    ensures
        r == (exit_count < expected || drained_after_exit < drain_polls),
{
    exit_count < expected || drained_after_exit < drain_polls
}

/// Whether a poll turns a stop request into terminating every process:
/// only the first time the active attempt reads as stop-requested.
pub fn concurrent_runtime_stop_now(already_requested: bool, attempt_stop_requested: bool) -> (r: bool)
    ensures
        r == (!already_requested && attempt_stop_requested),
{
    !already_requested && attempt_stop_requested
}

pub open spec fn concurrent_summary(
    demo_id: Seq<char>,
    task_name: Seq<char>,
    profile: Seq<char>,
    stop_requested: bool,
    fail_on_non_zero: bool,
    non_zero_exits: Option<Seq<char>>,
) -> Seq<char> {
    if stop_requested {
        "Demo `"@ + demo_id + "` terminated after stop request while projecting managed task `"@ + task_name
            + "`."@
    } else if fail_on_non_zero && non_zero_exits is Some {
        "Demo `"@ + demo_id + "` failed via managed task `"@ + task_name + "`: "@ + non_zero_exits->0
    } else {
        "Demo `"@ + demo_id + "` completed via managed task `"@ + task_name + "` profile `"@ + profile + "`."@
    }
}

/// How a managed concurrent demo ended, and its summary: terminated when a
/// stop was requested; failed when the task fails on non-zero exits and
/// some process exited so (`non_zero_exits` holds their rendering); else
/// completed.
pub fn run_concurrent_runner_demo_runtime(
    demo_id: &str,
    task_name: &str,
    profile: &str,
    stop_requested: bool,
    fail_on_non_zero: bool,
    non_zero_exits: Option<&str>,
) -> (r: (DemoAttemptKind, String))
    ensures
        r.0 == (if stop_requested {
            DemoAttemptKind::Terminated
        } else if fail_on_non_zero && non_zero_exits is Some {
            DemoAttemptKind::Failed
        } else {
            DemoAttemptKind::Succeeded
        }),
        r.1@ == concurrent_summary(
            demo_id@,
            task_name@,
            profile@,
            stop_requested,
            fail_on_non_zero,
            match non_zero_exits {
                Some(e) => Some(e@),
                None => None,
            },
        ),
{
    if stop_requested {
        let mut s = crate::text::cat3("Demo `", demo_id, "` terminated after stop request while projecting managed task `");
        s.append(task_name);
        s.append("`.");
        return (DemoAttemptKind::Terminated, s);
    }
    if fail_on_non_zero {
        if let Some(e) = non_zero_exits {
            let mut s = crate::text::cat3("Demo `", demo_id, "` failed via managed task `");
            s.append(task_name);
            s.append("`: ");
            s.append(e);
            return (DemoAttemptKind::Failed, s);
        }
    }
    let mut s = crate::text::cat3("Demo `", demo_id, "` completed via managed task `");
    s.append(task_name);
    s.append("` profile `");
    s.append(profile);
    s.append("`.");
    (DemoAttemptKind::Succeeded, s)
}

/// How a run-backed demo is launched.
#[derive(Debug, Clone, Copy, PartialEq, Eq, Structural)]
pub enum DemoLaunchMode {
    AttachedPty,
    DetachedJson,
    AttachedStream,
}

/// How a demo's output logs are laid out.
#[derive(Debug, Clone, Copy, PartialEq, Eq)]
pub enum DemoLogLayout {
    /// One transcript of the pseudo-terminal.
    Pty,
    /// Separate stdout and stderr logs.
    Split,
}

/// The log layout of a launch mode: a pseudo-terminal transcript for an
/// attached pseudo-terminal, split logs otherwise.
pub fn demo_log_paths_for_launch_mode(mode: DemoLaunchMode) -> (r: DemoLogLayout)
    ensures
        r == (if mode == DemoLaunchMode::AttachedPty {
            DemoLogLayout::Pty
        } else {
            DemoLogLayout::Split
        }),
{
    match mode {
        DemoLaunchMode::AttachedPty => DemoLogLayout::Pty,
        DemoLaunchMode::DetachedJson | DemoLaunchMode::AttachedStream => DemoLogLayout::Split,
    }
}

/// A process to spawn: its program, arguments and working directory.
#[derive(Debug)]
pub struct DemoProcessSpec {
    pub program: String,
    pub args: Vec<String>,
    pub cwd: String,
}

/// The process of a run-backed demo on a pseudo-terminal: the run command
/// through `sh -c`, in the repository.
pub fn build_run_backed_pty_process(repo_root: &str, run_command: &str) -> (r: DemoProcessSpec)
    ensures
        r.program@ == "sh"@,
        views(r.args@) == seq!["-c"@, run_command@],
        r.cwd@ == repo_root@,
{
    let args = vec![owned("-c"), owned(run_command)];
    assert(views(args@) =~= seq!["-c"@, run_command@]);
    DemoProcessSpec { program: owned("sh"), args, cwd: owned(repo_root) }
}

/// Whether a run-backed demo's output is captured (and its pipes read):
/// in JSON mode, or on an attached terminal.
pub fn run_backed_captures_output(output_json: bool, attached_terminal: bool) -> (r: bool)
    ensures
        r == (output_json || attached_terminal),
{
    output_json || attached_terminal
}

pub open spec fn launch_failure_message(demo_id: Seq<char>, error: Seq<char>) -> Seq<char> {
    "Demo `"@ + demo_id + "` failed to launch run entrypoint: "@ + error
}

pub open spec fn wait_failure_message(demo_id: Seq<char>, error: Seq<char>) -> Seq<char> {
    "Demo `"@ + demo_id + "` failed to wait for run entrypoint: "@ + error
}

pub open spec fn missing_pipe_message(demo_id: Seq<char>, stream: Seq<char>) -> Seq<char> {
    "Demo `"@ + demo_id + "` launched without a "@ + stream + " capture pipe."@
}

/// The failure of a run-backed demo whose process could not be spawned.
pub fn launch_failure(demo_id: &str, error: &str) -> (e: RunnerError)
    ensures
        crate::error::is_invocation(e, launch_failure_message(demo_id@, error@)),
{
    let mut m = crate::text::cat3("Demo `", demo_id, "` failed to launch run entrypoint: ");
    m.append(error);
    RunnerError::TaskInvocation { message: m }
}

/// The failure of a run-backed demo whose process could not be waited for.
pub fn wait_failure(demo_id: &str, error: &str) -> (e: RunnerError)
    ensures
        crate::error::is_invocation(e, wait_failure_message(demo_id@, error@)),
{
    let mut m = crate::text::cat3("Demo `", demo_id, "` failed to wait for run entrypoint: ");
    m.append(error);
    RunnerError::TaskInvocation { message: m }
}

/// The failure of a run-backed demo launched without the capture pipe of
/// `stream` (`stdout` or `stderr`).
pub fn missing_pipe(demo_id: &str, stream: &str) -> (e: RunnerError)
    ensures
        crate::error::is_invocation(e, missing_pipe_message(demo_id@, stream@)),
{
    let mut m = crate::text::cat3("Demo `", demo_id, "` launched without a ");
    m.append(stream);
    m.append(" capture pipe.");
    RunnerError::TaskInvocation { message: m }
}

/// What probing a process with signal 0 answered.
#[derive(Debug, Clone, Copy, PartialEq, Eq)]
pub enum KillProbe {
    Delivered,
    PermissionDenied,
    NoSuchProcess,
    OtherError,
}

/// Whether process `pid` is alive: never for pid 0; else unless the probe
/// says there is no such process (a refused probe means it exists).
pub fn pid_is_alive<F: Fn(u32) -> KillProbe>(pid: u32, probe: F) -> (r: bool)
    requires
        pid != 0 ==> probe.requires((pid,)),
    ensures
        pid == 0 ==> !r,
        pid != 0 ==> exists|k: KillProbe| probe.ensures((pid,), k) && r == (k != KillProbe::NoSuchProcess),
{
    if pid == 0 {
        return false;
    }
    let k = probe(pid);
    match k {
        KillProbe::Delivered => true,
        KillProbe::PermissionDenied => true,
        KillProbe::NoSuchProcess => false,
        KillProbe::OtherError => true,
    }
}

/// What runs a demo and how its live state is projected.
#[derive(Debug)]
pub enum DemoRuntimeBackend {
    Task,
    Run,
    /// A managed concurrent runner with these processes.
    ConcurrentRunner { process_names: Vec<String> },
}

/// A demo's runtime backend: that of its active attempt while one runs,
/// else the one its entrypoint implies.
pub fn demo_runtime_backend(active: bool, active_backend: DemoRuntimeBackend, from_entrypoint: DemoRuntimeBackend) -> (r: DemoRuntimeBackend)
    ensures
        r == (if active {
            active_backend
        } else {
            from_entrypoint
        }),
{
    if active {
        active_backend
    } else {
        from_entrypoint
    }
}

/// The runtime backend a demo's entrypoint implies: a run entrypoint runs a
/// command; a task one that a managed concurrent runner backs projects its
/// processes; any other task runs as a task.
pub fn demo_runtime_backend_from_entrypoint(
    task_entrypoint: bool,
    concurrent_runner_backed: bool,
    process_names: Vec<String>,
) -> (r: DemoRuntimeBackend)
    ensures
        !task_entrypoint ==> r == DemoRuntimeBackend::Run,
        task_entrypoint && concurrent_runner_backed ==> r == (DemoRuntimeBackend::ConcurrentRunner { process_names }),
        task_entrypoint && !concurrent_runner_backed ==> r == DemoRuntimeBackend::Task,
{
    if !task_entrypoint {
        return DemoRuntimeBackend::Run;
    }
    if concurrent_runner_backed {
        DemoRuntimeBackend::ConcurrentRunner { process_names }
    } else {
        DemoRuntimeBackend::Task
    }
}

/// How `demo list` groups demos.
#[derive(Debug, Clone, Copy, PartialEq, Eq)]
pub enum DemoListGroupBy {
    Owner,
    Tag,
    Mode,
    Cover,
    Status,
    Gap,
}

/// The record field demos are grouped by.
#[derive(Debug, Clone, Copy, PartialEq, Eq)]
pub enum DemoRecordGroupBy {
    Owner,
    Tag,
    Mode,
    Cover,
    Status,
    Gap,
}

/// The record field of a `--group-by` choice: the field of the same name.
pub fn demo_record_group_by(group_by: DemoListGroupBy) -> (r: DemoRecordGroupBy)
    ensures
        group_by == DemoListGroupBy::Owner <==> r == DemoRecordGroupBy::Owner,
        group_by == DemoListGroupBy::Tag <==> r == DemoRecordGroupBy::Tag,
        group_by == DemoListGroupBy::Mode <==> r == DemoRecordGroupBy::Mode,
        group_by == DemoListGroupBy::Cover <==> r == DemoRecordGroupBy::Cover,
        group_by == DemoListGroupBy::Status <==> r == DemoRecordGroupBy::Status,
        group_by == DemoListGroupBy::Gap <==> r == DemoRecordGroupBy::Gap,
{
    match group_by {
        DemoListGroupBy::Owner => DemoRecordGroupBy::Owner,
        DemoListGroupBy::Tag => DemoRecordGroupBy::Tag,
        DemoListGroupBy::Mode => DemoRecordGroupBy::Mode,
        DemoListGroupBy::Cover => DemoRecordGroupBy::Cover,
        DemoListGroupBy::Status => DemoRecordGroupBy::Status,
        DemoListGroupBy::Gap => DemoRecordGroupBy::Gap,
    }
}

/// A `demo list` discovery query, each filter in its text form.
#[derive(Debug)]
pub struct DemoListQuery {
    pub search: Option<String>,
    pub owner: Option<String>,
    pub tag: Option<String>,
    pub mode: Option<String>,
    pub cover: Option<String>,
    pub status: Option<String>,
    pub gap: Option<String>,
    pub stale_only: bool,
    pub group_by: Option<String>,
}

/// Whether a query filters nothing (grouping is no filter).
pub open spec fn query_empty(q: DemoListQuery) -> bool {
    q.search is None && q.owner is None && q.tag is None && q.mode is None && q.cover is None && q.status is None
        && q.gap is None && !q.stale_only
}

/// Whether a demo list query sets no filter.
pub fn query_is_empty(q: &DemoListQuery) -> (r: bool)
    ensures
        r == query_empty(*q),
{
    q.search.is_none() && q.owner.is_none() && q.tag.is_none() && q.mode.is_none() && q.cover.is_none()
        && q.status.is_none() && q.gap.is_none() && !q.stale_only
}

/// The values a query shows: each filter that is set, in order.
pub open spec fn query_values(q: DemoListQuery) -> Seq<(Seq<char>, Seq<char>)> {
    opt_kv("search"@, q.search) + opt_kv("owner"@, q.owner) + opt_kv("tag"@, q.tag) + opt_kv("mode"@, q.mode)
        + opt_kv("cover"@, q.cover) + opt_kv("status"@, q.status) + opt_kv("gap"@, q.gap) + (if q.stale_only {
        seq![("stale-only"@, "yes"@)]
    } else {
        Seq::empty()
    }) + opt_kv("group-by"@, q.group_by)
}

/// The filters a demo list query sets, as key/value pairs.
pub fn demo_list_query_to_key_values(q: &DemoListQuery) -> (kvs: Vec<DemoKeyValue>)
    ensures
        kv_views(kvs@) == query_values(*q),
{
    let mut kvs: Vec<DemoKeyValue> = Vec::new();
    push_opt_kv(&mut kvs, "search", &q.search);
    push_opt_kv(&mut kvs, "owner", &q.owner);
    push_opt_kv(&mut kvs, "tag", &q.tag);
    push_opt_kv(&mut kvs, "mode", &q.mode);
    push_opt_kv(&mut kvs, "cover", &q.cover);
    push_opt_kv(&mut kvs, "status", &q.status);
    push_opt_kv(&mut kvs, "gap", &q.gap);
    let ghost before = kv_views(kvs@);
    if q.stale_only {
        push_kv(&mut kvs, "stale-only", "yes");
    }
    assert(kv_views(kvs@) =~= before + if q.stale_only {
        seq![("stale-only"@, "yes"@)]
    } else {
        Seq::empty()
    });
    push_opt_kv(&mut kvs, "group-by", &q.group_by);
    assert(kv_views(kvs@) =~= query_values(*q));
    kvs
}

/// Any filter of a `demo list` query counts, `search` included: a query is
/// empty exactly when the values it shows hold nothing beyond its grouping;
/// when no demo is listed, a query that sets a filter gets the "No demos
/// matched" notice; when demos are listed, its values are shown, and a
/// `search` comes first among them.
pub proof fn lemma_query_filters_are_shown(
    q: DemoListQuery,
    listed: nat,
    group_labels: Option<Seq<Seq<char>>>,
)
    ensures
        query_empty(q) <==> query_values(q).len() == opt_kv("group-by"@, q.group_by).len(),
        (q.search is Some || q.owner is Some || q.tag is Some || q.mode is Some || q.cover is Some
            || q.status is Some || q.gap is Some || q.stale_only) ==> !query_empty(q),
        (!query_empty(q) && listed == 0) ==> list_blocks(q, listed, group_labels)[1]
            == BlockView::Notice("No demos matched the current discovery query."@),
        (!query_empty(q) && listed > 0) ==> list_blocks(q, listed, group_labels)[1]
            == BlockView::KeyValues(query_values(q)),
        q.search is Some ==> query_values(q)[0] == ("search"@, q.search.unwrap()@),
{
    let qv = query_values(q);
    if listed > 0 && !query_empty(q) {
        let tail = (match group_labels {
            Some(ls) => group_blocks(ls),
            None => seq![BlockView::DemosTable(None)],
        }) + seq![
            BlockView::Text(Seq::empty()),
            BlockView::Notice(
                "Use `effigy demo inspect <DEMO_ID>` to inspect proof intent, coverage, action availability, active state, and latest attempt details."@,
            ),
            BlockView::Text(Seq::empty()),
        ];
        let head = seq![BlockView::KeyValues(qv), BlockView::Text(Seq::empty())];
        assert(list_blocks(q, listed, group_labels) == seq![BlockView::Section("Demo Registry"@)]
            + (head + tail));
        assert((seq![BlockView::Section("Demo Registry"@)] + (head + tail))[1] == head[0]);
    }
    if q.search is Some {
        assert(qv[0] == opt_kv("search"@, q.search)[0]);
    }
}

pub open spec fn group_blocks(labels: Seq<Seq<char>>) -> Seq<BlockView>
    decreases labels.len(),
{
    if labels.len() == 0 {
        Seq::empty()
    } else {
        group_blocks(labels.drop_last()) + seq![
            BlockView::Section("Group: "@ + labels.last()),
            BlockView::DemosTable(Some((labels.len() - 1) as usize)),
            BlockView::Text(Seq::empty()),
        ]
    }
}

/// The blocks of `demo list`: a notice when no demo is listed (why depends
/// on whether the query filters), else the query, the demos (a table per
/// group when grouped), and a pointer to `demo inspect`.
pub open spec fn list_blocks(q: DemoListQuery, listed: nat, group_labels: Option<Seq<Seq<char>>>) -> Seq<BlockView> {
    seq![BlockView::Section("Demo Registry"@)] + if listed == 0 {
        seq![
            BlockView::Notice(
                if query_empty(q) {
                    "No demos are declared in the current effigy.toml manifest."@
                } else {
                    "No demos matched the current discovery query."@
                },
            ),
            BlockView::Text(Seq::empty()),
        ]
    } else {
        (if !query_empty(q) {
            seq![BlockView::KeyValues(query_values(q)), BlockView::Text(Seq::empty())]
        } else {
            Seq::empty()
        }) + (match group_labels {
            Some(ls) => group_blocks(ls),
            None => seq![BlockView::DemosTable(None)],
        }) + seq![
            BlockView::Text(Seq::empty()),
            BlockView::Notice(
                "Use `effigy demo inspect <DEMO_ID>` to inspect proof intent, coverage, action availability, active state, and latest attempt details."@,
            ),
            BlockView::Text(Seq::empty()),
        ]
    }
}

/// The blocks of `demo list` for a query, the number of demos it lists and
/// the labels of their groups when grouped.
pub fn render_demo_list(q: &DemoListQuery, listed: usize, group_labels: Option<&Vec<String>>) -> (out: Vec<DemoBlock>)
    ensures
        block_views(out@) == list_blocks(
            *q,
            listed as nat,
            match group_labels {
                Some(ls) => Some(views(ls@)),
                None => None,
            },
        ),
{
    let mut out: Vec<DemoBlock> = Vec::new();
    push_block(&mut out, section("Demo Registry"));
    let empty = query_is_empty(q);
    if listed == 0 {
        let message = if empty {
            "No demos are declared in the current effigy.toml manifest."
        } else {
            "No demos matched the current discovery query."
        };
        push_block(&mut out, DemoBlock::Notice(owned(message)));
        push_block(&mut out, blank());
        return out;
    }
    if !empty {
        push_block(&mut out, DemoBlock::KeyValues(demo_list_query_to_key_values(q)));
        push_block(&mut out, blank());
    }
    let ghost e0 = block_views(out@);
    match group_labels {
        Some(ls) => {
            let mut i: usize = 0;
            while i < ls.len()
                invariant
                    i <= ls.len(),
                    block_views(out@) == e0 + group_blocks(views(ls@).take(i as int)),
                decreases ls.len() - i,
            {
                assert(views(ls@).take(i + 1).drop_last() =~= views(ls@).take(i as int));
                push_block(&mut out, DemoBlock::Section(crate::text::cat("Group: ", ls[i].as_str())));
                push_block(&mut out, DemoBlock::DemosTable(Some(i)));
                push_block(&mut out, blank());
                assert(block_views(out@) =~= e0 + group_blocks(views(ls@).take(i + 1)));
                i = i + 1;
            }
            assert(views(ls@).take(ls.len() as int) =~= views(ls@));
        },
        None => {
            push_block(&mut out, DemoBlock::DemosTable(None));
        },
    }
    push_block(&mut out, blank());
    push_block(
        &mut out,
        DemoBlock::Notice(
            owned(
                "Use `effigy demo inspect <DEMO_ID>` to inspect proof intent, coverage, action availability, active state, and latest attempt details.",
            ),
        ),
    );
    push_block(&mut out, blank());
    assert(block_views(out@) =~= list_blocks(
        *q,
        listed as nat,
        match group_labels {
            Some(ls) => Some(views(ls@)),
            None => None,
        },
    ));
    out
}

pub open spec fn execute_values(r: DemoRecordView, outcome: Seq<char>) -> Seq<(Seq<char>, Seq<char>)> {
    seq![
        ("id"@, r.id@),
        ("title"@, r.title@),
        ("owner"@, r.owner@),
        ("entrypoint"@, r.entrypoint@),
        ("outcome"@, outcome),
        ("receipt"@, or_text(r.latest.receipt_path, "<none>"@)),
    ]
}

/// The blocks of a run or rerun: the demo and the attempt's outcome, its
/// summary, and a pointer to `demo inspect`.
pub open spec fn execute_blocks(r: DemoRecordView, title: Seq<char>, outcome: Seq<char>, summary: Option<Seq<char>>) -> Seq<BlockView> {
    seq![BlockView::Section(title), BlockView::KeyValues(execute_values(r, outcome))] + (match summary {
        Some(t) => seq![BlockView::Text(Seq::empty()), BlockView::Notice(t)],
        None => Seq::empty(),
    }) + seq![
        BlockView::Text(Seq::empty()),
        BlockView::Notice(
            "Use `effigy demo inspect <DEMO_ID>` to review the recorded latest attempt, recent attempt history, and any active state."@,
        ),
        BlockView::Text(Seq::empty()),
    ]
}

/// The blocks that report a demo run or rerun (`execute_blocks`).
pub fn render_demo_execute_text(r: &DemoRecordView, title: &str, outcome: &str, summary: Option<&str>) -> (out: Vec<DemoBlock>)
    ensures
        block_views(out@) == execute_blocks(
            *r,
            title@,
            outcome@,
            match summary {
                Some(t) => Some(t@),
                None => None,
            },
        ),
{
    let mut out: Vec<DemoBlock> = Vec::new();
    push_block(&mut out, section(title));
    let mut kvs: Vec<DemoKeyValue> = Vec::new();
    push_kv(&mut kvs, "id", r.id.as_str());
    push_kv(&mut kvs, "title", r.title.as_str());
    push_kv(&mut kvs, "owner", r.owner.as_str());
    push_kv(&mut kvs, "entrypoint", r.entrypoint.as_str());
    push_kv(&mut kvs, "outcome", outcome);
    let receipt = or_owned(&r.latest.receipt_path, "<none>");
    push_kv(&mut kvs, "receipt", receipt.as_str());
    assert(kv_views(kvs@) =~= execute_values(*r, outcome@));
    push_block(&mut out, DemoBlock::KeyValues(kvs));
    if let Some(t) = summary {
        push_block(&mut out, blank());
        push_block(&mut out, DemoBlock::Notice(owned(t)));
    }
    push_block(&mut out, blank());
    push_block(
        &mut out,
        DemoBlock::Notice(
            owned(
                "Use `effigy demo inspect <DEMO_ID>` to review the recorded latest attempt, recent attempt history, and any active state.",
            ),
        ),
    );
    push_block(&mut out, blank());
    assert(block_views(out@) =~= execute_blocks(
        *r,
        title@,
        outcome@,
        match summary {
            Some(t) => Some(t@),
            None => None,
        },
    ));
    out
}

/// The shell command a run-backed demo runs on a pseudo-terminal. On this
/// platform the pseudo-terminal carries the terminal size itself, so the
/// command runs as given whatever size is known.
pub fn wrap_pty_shell_command(run_command: &str, terminal_size: Option<(u16, u16)>) -> (r: String)
    ensures
        r@ == run_command@,
{
    owned(run_command)
}

/// The role of a process of a managed concurrent task.
#[derive(Debug, Clone, Copy, PartialEq, Eq, Structural)]
pub enum ManagedProcessRole {
    Lifecycle,
    Shell,
    Standard,
}

/// A process of a managed concurrent task, as a demo projects it.
#[derive(Debug)]
pub struct ManagedProcess {
    pub name: String,
    pub role: ManagedProcessRole,
    pub run_on_host: bool,
    pub setup: Option<String>,
    pub run: String,
}

/// How a demo renders the command of a managed process.
#[derive(Debug, Clone, Copy, PartialEq, Eq)]
pub enum ProcessRendering {
    InlineLifecycle,
    Lifecycle,
    InlineShell,
    Shell,
    InlineStandardExec,
    StandardExec,
}

/// The rendering a process gets: lifecycle and shell processes always
/// (inline when the task binds an inline container); a standard process
/// that runs in the container is wrapped to exec there (inline, or through
/// a named container binding); none otherwise.
pub open spec fn process_rendering(
    role: ManagedProcessRole,
    run_on_host: bool,
    inline_policy: bool,
    container_binding: bool,
) -> Option<ProcessRendering> {
    match role {
        ManagedProcessRole::Lifecycle => Some(
            if inline_policy {
                ProcessRendering::InlineLifecycle
            } else {
                ProcessRendering::Lifecycle
            },
        ),
        ManagedProcessRole::Shell => Some(
            if inline_policy {
                ProcessRendering::InlineShell
            } else {
                ProcessRendering::Shell
            },
        ),
        ManagedProcessRole::Standard => if run_on_host {
            None
        } else if inline_policy {
            Some(ProcessRendering::InlineStandardExec)
        } else if container_binding {
            Some(ProcessRendering::StandardExec)
        } else {
            None
        },
    }
}

/// The command of a process that keeps its own: a host process with a
/// setup step runs the setup first, on its own line.
pub open spec fn kept_command(p: ManagedProcess) -> Seq<char> {
    if p.role == ManagedProcessRole::Standard && p.run_on_host && p.setup is Some {
        p.setup->0@ + "\n"@ + p.run@
    } else {
        p.run@
    }
}

fn process_rendering_of(p: &ManagedProcess, inline_policy: bool, container_binding: bool) -> (r: Option<ProcessRendering>)
    ensures
        r == process_rendering(p.role, p.run_on_host, inline_policy, container_binding),
{
    match p.role {
        ManagedProcessRole::Lifecycle => Some(
            if inline_policy {
                ProcessRendering::InlineLifecycle
            } else {
                ProcessRendering::Lifecycle
            },
        ),
        ManagedProcessRole::Shell => Some(
            if inline_policy {
                ProcessRendering::InlineShell
            } else {
                ProcessRendering::Shell
            },
        ),
        ManagedProcessRole::Standard => {
            if p.run_on_host {
                None
            } else if inline_policy {
                Some(ProcessRendering::InlineStandardExec)
            } else if container_binding {
                Some(ProcessRendering::StandardExec)
            } else {
                None
            }
        },
    }
}

/// Rewrites the commands of a managed task's processes for a demo: each
/// process that gets a rendering runs what `render` gives for it (the
/// commands that launch or exec through the runner); a host process with a
/// setup step runs the setup first; any other keeps its command. Names,
/// roles and the rest stay.
pub fn materialize_demo_special_managed_processes<R: Fn(&ManagedProcess, ProcessRendering) -> String>(
    processes: &mut Vec<ManagedProcess>,
    inline_policy: bool,
    container_binding: bool,
    render: R,
)
    requires
        forall|p: &ManagedProcess, k: ProcessRendering| render.requires((p, k)),
    ensures
        final(processes)@.len() == old(processes)@.len(),
        forall|i: int|
            0 <= i < old(processes)@.len() ==> {
                let p = #[trigger] old(processes)@[i];
                let q = final(processes)@[i];
                &&& q.name@ == p.name@
                &&& q.role == p.role
                &&& q.run_on_host == p.run_on_host
                &&& opt_same(q.setup, p.setup)
                &&& match process_rendering(p.role, p.run_on_host, inline_policy, container_binding) {
                    Some(k) => render.ensures((&p, k), q.run),
                    None => q.run@ == kept_command(p),
                }
            },
{
    let ghost start = processes@;
    let mut i: usize = 0;
    while i < processes.len()
        invariant
            i <= processes.len(),
            processes@.len() == start.len(),
            forall|p: &ManagedProcess, k: ProcessRendering| render.requires((p, k)),
            forall|j: int| i <= j < start.len() ==> #[trigger] processes@[j] == start[j],
            forall|j: int|
                0 <= j < i ==> {
                    let p = #[trigger] start[j];
                    let q = processes@[j];
                    &&& q.name@ == p.name@
                    &&& q.role == p.role
                    &&& q.run_on_host == p.run_on_host
                    &&& opt_same(q.setup, p.setup)
                    &&& match process_rendering(p.role, p.run_on_host, inline_policy, container_binding) {
                        Some(k) => render.ensures((&p, k), q.run),
                        None => q.run@ == kept_command(p),
                    }
                },
        decreases start.len() - i,
    {
        let p = &processes[i];
        assert(*p == start[i as int]);
        let run = match process_rendering_of(p, inline_policy, container_binding) {
            Some(k) => render(p, k),
            None => {
                if p.run_on_host && p.setup.is_some() && p.role == ManagedProcessRole::Standard {
                    let mut r = owned(p.setup.as_ref().unwrap().as_str());
                    r.append("\n");
                    r.append(p.run.as_str());
                    r
                } else {
                    owned(p.run.as_str())
                }
            },
        };
        let setup = match &p.setup {
            Some(s) => Some(owned(s.as_str())),
            None => None,
        };
        let q = ManagedProcess { name: owned(p.name.as_str()), role: p.role, run_on_host: p.run_on_host, setup, run };
        processes.set(i, q);
        i = i + 1;
    }
}

pub open spec fn opt_same(a: Option<String>, b: Option<String>) -> bool {
    match (a, b) {
        (Some(x), Some(y)) => x@ == y@,
        (None, None) => true,
        _ => false,
    }
}

/// What a task-backed demo run amounts to, from how its task ended.
#[derive(Debug)]
pub enum TaskDemoOutcome {
    /// The task's JSON report, to read as the attempt.
    ParseJson(String),
    /// The attempt succeeded, with this summary.
    Succeeded(String),
    /// The attempt failed, with the exit code when known and this summary.
    Failed { code: Option<i32>, summary: String },
}

/// How a task-backed demo ended: in JSON mode, the task's JSON report
/// whether it passed or failed as a JSON command; a task that exited
/// unsuccessfully (outside JSON mode) failed with its exit code; any other
/// failure failed to run, quoting `error_text` (the failure's message);
/// else it completed.
pub fn execute_task_backed_demo(
    demo_id: &str,
    task_name: &str,
    output_json: bool,
    result: Result<String, RunnerError>,
    error_text: &str,
) -> (r: TaskDemoOutcome)
    ensures
        ({
            let failed_to_run = "Demo `"@ + demo_id@ + "` failed to run task `"@ + task_name@ + "`: "@ + error_text@;
            match result {
                Ok(rendered) => if output_json {
                    r == TaskDemoOutcome::ParseJson(rendered)
                } else {
                    r matches TaskDemoOutcome::Succeeded(s) && s@ == "Demo `"@ + demo_id@
                        + "` completed via task `"@ + task_name@ + "`."@
                },
                Err(RunnerError::CommandJsonFailure { rendered }) => if output_json {
                    r == TaskDemoOutcome::ParseJson(rendered)
                } else {
                    r matches TaskDemoOutcome::Failed { code: None, summary: s } && s@ == failed_to_run
                },
                Err(RunnerError::TaskCommandFailure { code, .. }) => if output_json {
                    r matches TaskDemoOutcome::Failed { code: None, summary: s } && s@ == failed_to_run
                } else {
                    r matches TaskDemoOutcome::Failed { code: c, summary: s } && c == code && s@ == "Demo `"@
                        + demo_id@ + "` failed via task `"@ + task_name@ + "`."@
                },
                Err(_) => r matches TaskDemoOutcome::Failed { code: None, summary: s } && s@ == failed_to_run,
            }
        }),
{
    let mut failed_to_run = crate::text::cat3("Demo `", demo_id, "` failed to run task `");
    failed_to_run.append(task_name);
    failed_to_run.append("`: ");
    failed_to_run.append(error_text);
    match result {
        Ok(rendered) => {
            if output_json {
                TaskDemoOutcome::ParseJson(rendered)
            } else {
                let mut s = crate::text::cat3("Demo `", demo_id, "` completed via task `");
                s.append(task_name);
                s.append("`.");
                TaskDemoOutcome::Succeeded(s)
            }
        },
        Err(RunnerError::CommandJsonFailure { rendered }) => {
            if output_json {
                TaskDemoOutcome::ParseJson(rendered)
            } else {
                TaskDemoOutcome::Failed { code: None, summary: failed_to_run }
            }
        },
        Err(RunnerError::TaskCommandFailure { code, .. }) => {
            if output_json {
                TaskDemoOutcome::Failed { code: None, summary: failed_to_run }
            } else {
                let mut s = crate::text::cat3("Demo `", demo_id, "` failed via task `");
                s.append(task_name);
                s.append("`.");
                TaskDemoOutcome::Failed { code, summary: s }
            }
        },
        Err(_) => TaskDemoOutcome::Failed { code: None, summary: failed_to_run },
    }
}

/// Which handoffs a managed concurrent demo prepares.
#[derive(Debug)]
pub struct ConcurrentDemoHandoffs {
    /// The process that receives forwarded input, if any.
    pub input_target: Option<String>,
    /// Whether a resize handoff is prepared.
    pub resize: bool,
}

/// The handoffs of a managed concurrent demo: input goes to the runner's
/// input target when the run is projected as JSON or a browser can attach
/// live; resizes are handed off only for a JSON projection.
pub fn execute_concurrent_runner_backed_demo(
    output_json: bool,
    browser_live_attach_supported: bool,
    input_target_process: Option<String>,
) -> (r: ConcurrentDemoHandoffs)
    ensures
        r.input_target == (if output_json || browser_live_attach_supported {
            input_target_process
        } else {
            None
        }),
        r.resize == output_json,
{
    let input_target = if output_json || browser_live_attach_supported {
        input_target_process
    } else {
        None
    };
    ConcurrentDemoHandoffs { input_target, resize: output_json }
}

/// The failure of a demo whose task does not resolve to a managed
/// concurrent runtime.
pub fn not_concurrent_runtime_error(demo_id: &str, task_name: &str) -> (e: RunnerError)
    ensures
        crate::error::is_invocation(
            e,
            "demo `"@ + demo_id@ + "` task `"@ + task_name@ + "` does not resolve to a managed concurrent runtime"@,
        ),
{
    let mut m = crate::text::cat3("demo `", demo_id, "` task `");
    m.append(task_name);
    m.append("` does not resolve to a managed concurrent runtime");
    RunnerError::TaskInvocation { message: m }
}

/// Whether a manifest value path belongs to demo `demo_id`: the demo's own
/// table or anything under it.
pub open spec fn demo_path(demo_id: Seq<char>, path: Seq<char>) -> bool {
    path == "demos."@ + demo_id || crate::text::has_prefix(path, "demos."@ + demo_id + "."@)
}

/// The sources of a demo's values, each shown once, in the order first met.
pub open spec fn demo_sources(demo_id: Seq<char>, entries: Seq<(Seq<char>, Seq<char>)>) -> Seq<Seq<char>>
    decreases entries.len(),
{
    if entries.len() == 0 {
        Seq::empty()
    } else {
        let prev = demo_sources(demo_id, entries.drop_last());
        let e = entries.last();
        if demo_path(demo_id, e.0) && !prev.contains(e.1) {
            prev.push(e.1)
        } else {
            prev
        }
    }
}

/// The files that define demo `demo_id`, from the manifest's value sources
/// (each value's path with its source as shown): those of the demo's
/// values, each once, in the order first met.
pub fn demo_sources_for_id(demo_id: &str, entries: &Vec<(String, String)>) -> (r: Vec<String>)
    ensures
        views(r@) == demo_sources(demo_id@, crate::mounts::pair_views(entries@)),
        views(r@).no_duplicates(),
{
    let own = crate::text::cat("demos.", demo_id);
    let under = crate::text::cat3("demos.", demo_id, ".");
    let mut out: Vec<String> = Vec::new();
    let mut i: usize = 0;
    while i < entries.len()
        invariant
            i <= entries.len(),
            own@ == "demos."@ + demo_id@,
            under@ == "demos."@ + demo_id@ + "."@,
            views(out@) == demo_sources(demo_id@, crate::mounts::pair_views(entries@).take(i as int)),
            views(out@).no_duplicates(),
        decreases entries.len() - i,
    {
        let ghost es = crate::mounts::pair_views(entries@);
        assert(es.take(i + 1).drop_last() =~= es.take(i as int));
        assert(es.take(i + 1).last() == es[i as int]);
        let (path, source) = (&entries[i].0, &entries[i].1);
        let belongs = crate::text::str_eq(path.as_str(), own.as_str()) || crate::text::starts_with(path.as_str(), under.as_str());
        if belongs {
            let seen = crate::mounts::contains_name(&out, source);
            if !seen {
                let ghost before = views(out@);
                out.push(owned(source.as_str()));
                assert(views(out@) =~= before.push(source@));
                proof {
                    assert forall|a: int, b: int| 0 <= a < b < views(out@).len() implies views(out@)[a] != views(out@)[b] by {
                        if b == before.len() {
                            assert(before.contains(before[a]));
                        }
                    }
                }
            }
        }
        i = i + 1;
    }
    assert(crate::mounts::pair_views(entries@).take(entries.len() as int) =~= crate::mounts::pair_views(entries@));
    out
}

/// The message of a stop request that is refused.
pub open spec fn stop_refusal(demo_id: Seq<char>, decision: DemoStopDecision) -> Option<Seq<char>> {
    match decision {
        DemoStopDecision::TaskEntrypointNotStoppable { task_name } => Some(
            demo_message(
                demo_id,
                "uses task entrypoint `"@ + task_name@
                    + "`; stop is not supported until task execution exposes cancellable handles"@,
            ),
        ),
        DemoStopDecision::NoActiveAttempt => Some(demo_message(demo_id, "has no active attempt to stop"@)),
        DemoStopDecision::NotStoppable => Some(
            demo_message(demo_id, "is active but not stoppable through the current runtime"@),
        ),
        DemoStopDecision::NoStoppableHandle => Some(
            demo_message(demo_id, "is active but has no stoppable process handle"@),
        ),
        DemoStopDecision::ProcessNotRunning => Some(demo_message(demo_id, "is no longer running"@)),
        _ => None,
    }
}

/// The phase a persisted active attempt records.
#[derive(Debug, Clone, Copy, PartialEq, Eq)]
pub enum PersistedPhase {
    Running,
    StopRequested,
}

/// Why `demo stop` failed: a refusal to report (as text or JSON), or an
/// error of the state or signal it touched.
#[derive(Debug)]
pub enum DemoStopFailure {
    Refused(String),
    Failed(RunnerError),
}

/// `demo stop`: what the decision calls for, done in order. A refusal
/// (after clearing the state of a process that is gone) fails with its
/// message; a stop that was already requested is reported as it is; a
/// transition is recorded as stop-requested, then reported; a signal is
/// preceded by recording stop-requested and, when the signal fails, the
/// record goes back to running and the signal's error is the answer.
/// Answers the summary to report.
pub fn render_demo_stop<W, S, C>(
    demo_id: &str,
    decision: DemoStopDecision,
    write_phase: W,
    signal: S,
    clear: C,
) -> (r: Result<String, DemoStopFailure>) where
    W: Fn(PersistedPhase) -> Result<(), RunnerError>,
    S: FnOnce(u32) -> Result<(), RunnerError>,
    C: FnOnce(),

    requires
        forall|p: PersistedPhase| write_phase.requires((p,)),
        forall|pid: u32| signal.requires((pid,)),
        clear.requires(()),
    ensures
        match decision {
            DemoStopDecision::AlreadyRequested => r matches Ok(s) && s@ == "stop already requested"@,
            DemoStopDecision::TransitionOnly => match r {
                Ok(s) => s@ == "stop requested"@ && write_phase.ensures((PersistedPhase::StopRequested,), Ok(())),
                Err(DemoStopFailure::Failed(e)) => write_phase.ensures((PersistedPhase::StopRequested,), Err(e)),
                Err(DemoStopFailure::Refused(_)) => false,
            },
            DemoStopDecision::SignalPid { target_pid } => match r {
                Ok(s) => s@ == "stop requested"@ && write_phase.ensures((PersistedPhase::StopRequested,), Ok(()))
                    && signal.ensures((target_pid,), Ok(())),
                Err(DemoStopFailure::Failed(e)) => write_phase.ensures((PersistedPhase::StopRequested,), Err(e)) || (
                write_phase.ensures((PersistedPhase::StopRequested,), Ok(())) && exists|se: RunnerError|
                    #[trigger] signal.ensures((target_pid,), Err(se)) && (write_phase.ensures(
                        (PersistedPhase::Running,),
                        Err(e),
                    ) || (write_phase.ensures((PersistedPhase::Running,), Ok(())) && e == se))),
                Err(DemoStopFailure::Refused(_)) => false,
            },
            DemoStopDecision::ProcessNotRunning => r matches Err(DemoStopFailure::Refused(m)) && Some(m@)
                == stop_refusal(demo_id@, decision) && clear.ensures((), ()),
            _ => r matches Err(DemoStopFailure::Refused(m)) && Some(m@) == stop_refusal(demo_id@, decision),
        },
{
    let ghost d = decision;
    match demo_stop_step(demo_id, decision) {
        DemoStopStep::Fail(m) => Err(DemoStopFailure::Refused(m)),
        DemoStopStep::ClearThenFail(m) => {
            clear();
            Err(DemoStopFailure::Refused(m))
        },
        DemoStopStep::Report(s) => Ok(s),
        DemoStopStep::MarkThenReport(s) => match write_phase(PersistedPhase::StopRequested) {
            Ok(u) => {
                proof {
                    crate::error::lemma_unit(u);
                }
                Ok(s)
            },
            Err(e) => Err(DemoStopFailure::Failed(e)),
        },
        DemoStopStep::SignalThenReport { target_pid, summary } => {
            match write_phase(PersistedPhase::StopRequested) {
                Ok(u) => {
                    proof {
                        crate::error::lemma_unit(u);
                    }
                },
                Err(e) => return Err(DemoStopFailure::Failed(e)),
            }
            match signal(target_pid) {
                Ok(u) => {
                    proof {
                        crate::error::lemma_unit(u);
                    }
                    Ok(summary)
                },
                Err(se) => {
                    match write_phase(PersistedPhase::Running) {
                        Ok(u) => {
                            proof {
                                crate::error::lemma_unit(u);
                            }
                        },
                        Err(e) => return Err(DemoStopFailure::Failed(e)),
                    }
                    Err(DemoStopFailure::Failed(se))
                },
            }
        },
    }
}

/// What a demo attempt reports of itself.
#[derive(Debug)]
pub struct DemoAttemptSummary {
    pub ok: bool,
    pub outcome: String,
    pub summary: Option<String>,
}

/// What `demo run` or `demo rerun` shows.
#[derive(Debug)]
pub enum DemoExecuteOutput {
    /// The JSON report of a successful attempt.
    Json(String),
    /// The text report of an attempt that succeeded or was terminated.
    Blocks(Vec<DemoBlock>),
}

pub open spec fn execute_failed_message(demo_id: Seq<char>, receipt: Option<String>) -> Seq<char> {
    demo_message(demo_id, "failed; latest attempt written to "@ + or_text(receipt, "<none>"@))
}

/// What `demo run` and `demo rerun` answer, for each answer of the
/// closures they call (see `render_demo_execute`).
pub open spec fn execute_outcome<X, W, L, J>(
    demo_id: Seq<char>,
    title: Seq<char>,
    output_json: bool,
    active: bool,
    execute: X,
    write_receipt: W,
    load_record: L,
    encode: J,
    r: Result<DemoExecuteOutput, RunnerError>,
) -> bool where
    X: FnOnce() -> Result<DemoAttemptSummary, RunnerError>,
    W: FnOnce(&DemoAttemptSummary) -> Result<(), RunnerError>,
    L: FnOnce() -> Result<DemoRecordView, RunnerError>,
    J: FnOnce(&DemoRecordView, &DemoAttemptSummary) -> Result<String, RunnerError>,
 {
    if active {
        r matches Err(e) && crate::error::is_invocation(
            e,
            demo_message(demo_id, "already has an active attempt; stop it before starting a fresh run"@),
        )
    } else {
        exists|xa: Result<DemoAttemptSummary, RunnerError>|
            #[trigger] execute.ensures((), xa) && match xa {
                Err(e) => r == Err::<DemoExecuteOutput, RunnerError>(e),
                Ok(a) => exists|w: Result<(), RunnerError>|
                    #[trigger] write_receipt.ensures((&a,), w) && match w {
                        Err(e) => r == Err::<DemoExecuteOutput, RunnerError>(e),
                        Ok(_) => exists|lr: Result<DemoRecordView, RunnerError>|
                            #[trigger] load_record.ensures((), lr) && match lr {
                                Err(e) => r == Err::<DemoExecuteOutput, RunnerError>(e),
                                Ok(rec) => if output_json {
                                    exists|en: Result<String, RunnerError>|
                                        #[trigger] encode.ensures((&rec, &a), en) && match en {
                                            Err(e) => r == Err::<DemoExecuteOutput, RunnerError>(e),
                                            Ok(text) => if a.ok {
                                                r == Ok::<DemoExecuteOutput, RunnerError>(DemoExecuteOutput::Json(text))
                                            } else {
                                                r == Err::<DemoExecuteOutput, RunnerError>(
                                                    RunnerError::CommandJsonFailure { rendered: text },
                                                )
                                            },
                                        }
                                } else if a.ok || a.outcome@ == "terminated"@ {
                                    r matches Ok(DemoExecuteOutput::Blocks(blocks)) && block_views(blocks@)
                                        == execute_blocks(rec, title, a.outcome@, opt_view(a.summary))
                                } else {
                                    r matches Err(e) && crate::error::is_invocation(
                                        e,
                                        execute_failed_message(demo_id, rec.latest.receipt_path),
                                    )
                                },
                            },
                    },
            }
    }
}

/// `demo run` and `demo rerun`: refused while an attempt is active;
/// otherwise the attempt runs (`execute`), its receipt is written
/// (`write_receipt`) and the demo is read again (`load_record`). In JSON
/// mode the rendered report (`encode`) is the answer when the attempt is
/// ok, else a JSON failure; as text, an attempt that is ok or was
/// terminated is shown under `title`, and any other failure names the
/// receipt.
pub fn render_demo_execute<X, W, L, J>(
    demo_id: &str,
    title: &str,
    output_json: bool,
    active: bool,
    execute: X,
    write_receipt: W,
    load_record: L,
    encode: J,
) -> (r: Result<DemoExecuteOutput, RunnerError>) where
    X: FnOnce() -> Result<DemoAttemptSummary, RunnerError>,
    W: FnOnce(&DemoAttemptSummary) -> Result<(), RunnerError>,
    L: FnOnce() -> Result<DemoRecordView, RunnerError>,
    J: FnOnce(&DemoRecordView, &DemoAttemptSummary) -> Result<String, RunnerError>,

    requires
        execute.requires(()),
        forall|a: &DemoAttemptSummary| write_receipt.requires((a,)),
        load_record.requires(()),
        forall|rec: &DemoRecordView, a: &DemoAttemptSummary| encode.requires((rec, a)),
    ensures
        execute_outcome(demo_id@, title@, output_json, active, execute, write_receipt, load_record, encode, r),
{
    if active {
        return Err(
            RunnerError::TaskInvocation {
                message: demo_message_string(demo_id, "already has an active attempt; stop it before starting a fresh run"),
            },
        );
    }
    let xa = execute();
    assert(execute.ensures((), xa));
    let attempt = match xa {
        Ok(a) => a,
        Err(e) => return Err(e),
    };
    let w = write_receipt(&attempt);
    assert(write_receipt.ensures((&attempt,), w));
    match w {
        Ok(u) => {
            proof {
                crate::error::lemma_unit(u);
            }
        },
        Err(e) => return Err(e),
    }
    let lr = load_record();
    assert(load_record.ensures((), lr));
    let record = match lr {
        Ok(rec) => rec,
        Err(e) => return Err(e),
    };
    if output_json {
        let en = encode(&record, &attempt);
        assert(encode.ensures((&record, &attempt), en));
        let rendered = match en {
            Ok(t) => t,
            Err(e) => return Err(e),
        };
        if attempt.ok {
            return Ok(DemoExecuteOutput::Json(rendered));
        }
        return Err(RunnerError::CommandJsonFailure { rendered });
    }
    if attempt.ok || str_eq_terminated(attempt.outcome.as_str()) {
        let summary = match &attempt.summary {
            Some(t) => Some(t.as_str()),
            None => None,
        };
        let blocks = render_demo_execute_text(&record, title, attempt.outcome.as_str(), summary);
        assert(opt_view(attempt.summary) == match summary {
            Some(t) => Some(t@),
            None => None,
        });
        return Ok(DemoExecuteOutput::Blocks(blocks));
    }
    let receipt = or_owned(&record.latest.receipt_path, "<none>");
    let rest = crate::text::cat("failed; latest attempt written to ", receipt.as_str());
    Err(RunnerError::TaskInvocation { message: demo_message_string(demo_id, rest.as_str()) })
}

fn str_eq_terminated(outcome: &str) -> (r: bool)
    ensures
        r == (outcome@ == "terminated"@),
{
    crate::text::str_eq(outcome, "terminated")
}

pub open spec fn opt_view(o: Option<String>) -> Option<Seq<char>> {
    match o {
        Some(s) => Some(s@),
        None => None,
    }
}

} // verus!
