//! The `deploy plan`, `apply`, `status`, `history` and `redeploy` commands:
//! what each decides and records, with the reading and writing of report
//! files left to the callbacks the caller hands in.
use vstd::prelude::*;
use crate::deploy::report::{
    active_path, deploy_active_path, deploy_history_dir, deploy_latest_path, deploy_report_paths,
    display_path, fill_unsafe, history_dir, iso_timestamp, latest_path, path_display,
    utc_basic_timestamp,
};
use crate::deploy::render::opt_view;
use crate::deploy::text::{
    apply_text, history_lines, plan_lines, render_deploy_apply_text, render_deploy_history_text,
    render_deploy_plan_text, render_deploy_status_text, status_text, written_or_placeholder,
};
use crate::deploy::transaction::{
    apply_report_ok, build_deploy_apply_report, DeployApplyReport, DeployHistoryItem,
    DeployHistoryReport, DeployPlanReport, DeployRedeployReport, DeployStatusReport,
};
use crate::error::{is_invocation, RunnerError};
use crate::paths::join_path;
use crate::text::{dec, join_seq, owned, views};

verus! {

/// What a deploy command answers: whether it succeeded, its report, and
/// the report's text.
#[derive(Debug)]
pub struct DeployCommandOutput<T> {
    pub ok: bool,
    pub report: T,
    pub text: String,
}

/// Whether `write`, handed the paths `paths` and `report`, may answer `out`.
pub open spec fn wrote<T, W: FnOnce(&Vec<String>, &T) -> Result<(), RunnerError>>(
    write: W,
    paths: Seq<Seq<char>>,
    report: T,
    out: Result<(), RunnerError>,
) -> bool {
    exists|p: &Vec<String>, q: &T|
        views(p@) == paths && *q == report && #[trigger] write.ensures((p, q), out)
}

/// The latest report of `env` and the history entry of `id`.
pub open spec fn report_paths(repo_root: Seq<char>, env: Seq<char>, id: Seq<char>) -> Seq<Seq<char>> {
    seq![
        latest_path(repo_root, env),
        join_path(history_dir(repo_root, env), fill_unsafe(id, '-') + ".json"@),
    ]
}

/// Whether `b` is `a` with the paths a written report records.
pub open spec fn plan_written(a: DeployPlanReport, b: DeployPlanReport, repo_root: Seq<char>, env: Seq<char>) -> bool {
    let paths = report_paths(repo_root, env, a.deployment_id@);
    &&& b == DeployPlanReport {
        written_report_path: b.written_report_path,
        written_history_path: b.written_history_path,
        ..a
    }
    &&& opt_view(b.written_report_path) == Some(display_path(paths[0], repo_root))
    &&& opt_view(b.written_history_path) == Some(display_path(paths[1], repo_root))
}

fn paths_vec(latest: String, history: String) -> (r: Vec<String>)
    ensures
        views(r@) == seq![latest@, history@],
{
    let v = vec![latest, history];
    assert(views(v@) == seq![v@[0]@, v@[1]@]);
    v
}

/// `deploy plan`: the plan, written to the latest and history reports of
/// the environment when asked; it succeeds when nothing blocks it.
pub fn run_deploy_plan<W: FnOnce(&Vec<String>, &DeployPlanReport) -> Result<(), RunnerError>>(
    repo_root: &str,
    env: &str,
    report: DeployPlanReport,
    write_report: bool,
    write: W,
) -> (r: Result<DeployCommandOutput<DeployPlanReport>, RunnerError>)
    requires
        forall|p: &Vec<String>, q: &DeployPlanReport| write.requires((p, q)),
    ensures
        match r {
            Ok(out) => {
                &&& out.ok == (report.blockers@.len() == 0)
                &&& out.text@ == join_seq(plan_lines(out.report), "\n"@)
                &&& if write_report {
                    &&& plan_written(report, out.report, repo_root@, env@)
                    &&& wrote(
                        write,
                        report_paths(repo_root@, env@, report.deployment_id@),
                        out.report,
                        Ok(()),
                    )
                } else {
                    out.report == report
                }
            },
            Err(e) => write_report && exists|b: DeployPlanReport|
                plan_written(report, b, repo_root@, env@) && #[trigger] wrote(
                    write,
                    report_paths(repo_root@, env@, report.deployment_id@),
                    b,
                    Err(e),
                ),
        },
{
    let mut report = report;
    let ghost original = report;
    if write_report {
        let paths = deploy_report_paths(repo_root, env, report.deployment_id.as_str());
        report.written_report_path = Some(path_display(paths.latest_path.as_str(), repo_root));
        report.written_history_path = Some(path_display(paths.history_path.as_str(), repo_root));
        let v = paths_vec(paths.latest_path, paths.history_path);
        assert(views(v@) == report_paths(repo_root@, env@, original.deployment_id@));
        assert(plan_written(original, report, repo_root@, env@));
        match write(&v, &report) {
            Ok(u) => {
                proof {
                    crate::error::lemma_unit(u);
                }
            },
            Err(e) => {
                assert(wrote(write, views(v@), report, Err(e)));
                return Err(e);
            },
        }
        assert(wrote(write, views(v@), report, Ok(())));
    }
    let ok = report.blockers.len() == 0;
    let text = render_deploy_plan_text(&report);
    Ok(DeployCommandOutput { ok, report, text })
}

pub open spec fn apply_refusal_message() -> Seq<char> {
    "`deploy apply` is plan-only unless `--yes` is supplied; run `effigy deploy plan <ENV>` first"@
}

/// What `deploy apply` answers.
#[derive(Debug)]
pub enum DeployApplyOutcome {
    /// The plan had blockers; nothing was applied.
    Blocked(DeployCommandOutput<DeployPlanReport>),
    /// The plan was applied.
    Applied(DeployCommandOutput<DeployApplyReport>),
}

/// Whether `now` may answer `t`.
pub open spec fn clock_gave<N: Fn() -> u64>(now: N, t: u64) -> bool {
    now.ensures((), t)
}

/// `deploy apply`: refuses without `--yes`; otherwise builds the plan
/// (`build_plan`), answers it unapplied when it has blockers, else records
/// it as the environment's active plan (`write_active`), applies it,
/// writes the apply report to the latest and history reports
/// (`write_report`), and clears the active plan (`remove_active`).
pub fn run_deploy_apply<
    B: FnOnce() -> Result<DeployPlanReport, RunnerError>,
    N: Fn() -> u64,
    A: FnOnce(&Vec<String>, &DeployPlanReport) -> Result<(), RunnerError>,
    W: FnOnce(&Vec<String>, &DeployApplyReport) -> Result<(), RunnerError>,
    D: FnOnce(&str),
>(
    repo_root: &str,
    env: &str,
    yes: bool,
    build_plan: B,
    now: &N,
    write_active: A,
    write_report: W,
    remove_active: D,
) -> (r: Result<DeployApplyOutcome, RunnerError>)
    requires
        build_plan.requires(()),
        now.requires(()),
        forall|p: &Vec<String>, q: &DeployPlanReport| write_active.requires((p, q)),
        forall|p: &Vec<String>, q: &DeployApplyReport| write_report.requires((p, q)),
        forall|p: &str| remove_active.requires((p,)),
    ensures
        !yes ==> (r matches Err(e) && is_invocation(e, apply_refusal_message())),
        r matches Ok(DeployApplyOutcome::Blocked(out)) ==> {
            &&& yes && build_plan.ensures((), Ok(out.report))
            &&& out.report.blockers@.len() > 0 && !out.ok
            &&& out.text@ == join_seq(plan_lines(out.report), "\n"@)
        },
        r matches Ok(DeployApplyOutcome::Applied(out)) ==> exists|
            plan: DeployPlanReport,
            started: u64,
            finished: u64,
            unwritten: DeployApplyReport,
        |
            {
                &&& yes && build_plan.ensures((), Ok(plan))
                &&& plan.blockers@.len() == 0
                &&& clock_gave(*now, started) && clock_gave(*now, finished)
                &&& wrote(write_active, seq![active_path(repo_root@, env@)], plan, Ok(()))
                &&& #[trigger] apply_report_ok(
                    env@,
                    plan,
                    dec(started as nat).push('Z'),
                    dec(finished as nat).push('Z'),
                    unwritten,
                )
                &&& out.report == DeployApplyReport {
                    written_report_path: out.report.written_report_path,
                    written_history_path: out.report.written_history_path,
                    ..unwritten
                }
                &&& opt_view(out.report.written_report_path) == Some(
                    display_path(report_paths(repo_root@, env@, plan.deployment_id@)[0], repo_root@),
                )
                &&& opt_view(out.report.written_history_path) == Some(
                    display_path(report_paths(repo_root@, env@, plan.deployment_id@)[1], repo_root@),
                )
                &&& wrote(
                    write_report,
                    report_paths(repo_root@, env@, plan.deployment_id@),
                    out.report,
                    Ok(()),
                )
                &&& out.ok == (out.report.status@ == "succeeded"@)
                &&& out.text@ == apply_text(out.report)
            },
        r matches Err(e) ==> {
            ||| !yes
            ||| build_plan.ensures((), Err(e))
            ||| exists|plan: DeployPlanReport|
                #[trigger] build_plan.ensures((), Ok(plan)) && wrote(
                    write_active,
                    seq![active_path(repo_root@, env@)],
                    plan,
                    Err(e),
                )
            ||| exists|q: DeployApplyReport|
                #[trigger] wrote(
                    write_report,
                    report_paths(repo_root@, env@, q.deployment_id@),
                    q,
                    Err(e),
                )
        },
{
    proof {
        reveal_strlit("succeeded");
    }
    if !yes {
        return Err(
            RunnerError::task_invocation(
                "`deploy apply` is plan-only unless `--yes` is supplied; run `effigy deploy plan <ENV>` first",
            ),
        );
    }
    let plan = match build_plan() {
        Ok(p) => p,
        Err(e) => return Err(e),
    };
    if plan.blockers.len() > 0 {
        let text = render_deploy_plan_text(&plan);
        return Ok(DeployApplyOutcome::Blocked(DeployCommandOutput { ok: false, report: plan, text }));
    }
    let started = now();
    let started_at = iso_timestamp(started);
    let active = deploy_active_path(repo_root, env);
    let active_paths = vec![owned(active.as_str())];
    assert(views(active_paths@) == seq![active@]);
    match write_active(&active_paths, &plan) {
        Ok(u) => {
            proof {
                crate::error::lemma_unit(u);
            }
        },
        Err(e) => {
            assert(wrote(write_active, seq![active_path(repo_root@, env@)], plan, Err(e)));
            return Err(e);
        },
    }
    assert(wrote(write_active, seq![active_path(repo_root@, env@)], plan, Ok(())));
    let finished = now();
    let finished_at = iso_timestamp(finished);
    let mut report = build_deploy_apply_report(env, &plan, started_at, finished_at);
    let ghost unwritten = report;
    let paths = deploy_report_paths(repo_root, env, report.deployment_id.as_str());
    report.written_report_path = Some(path_display(paths.latest_path.as_str(), repo_root));
    report.written_history_path = Some(path_display(paths.history_path.as_str(), repo_root));
    let v = paths_vec(paths.latest_path, paths.history_path);
    assert(views(v@) == report_paths(repo_root@, env@, report.deployment_id@));
    match write_report(&v, &report) {
        Ok(u) => {
            proof {
                crate::error::lemma_unit(u);
            }
        },
        Err(e) => {
            assert(wrote(write_report, views(v@), report, Err(e)));
            return Err(e);
        },
    }
    assert(wrote(write_report, views(v@), report, Ok(())));
    remove_active(active.as_str());
    let ok = crate::text::str_eq(report.status.as_str(), "succeeded");
    let text = render_deploy_apply_text(&report);
    let out = DeployCommandOutput { ok, report, text };
    assert(clock_gave(*now, started) && clock_gave(*now, finished));
    Ok(DeployApplyOutcome::Applied(out))
}

/// The fields a stored deployment report is read for; each is missing
/// when the report lacks it or it is not a string.
#[derive(Debug)]
pub struct DeployReportFields {
    pub deployment_id: Option<String>,
    pub schema: Option<String>,
    pub status: Option<String>,
    pub provider: Option<String>,
}

/// `deploy status`: the environment's in-flight and latest reports, as
/// `read` gives them (`None` when there is none), in that order.
pub fn run_deploy_status<V, R: Fn(&str) -> Result<Option<V>, RunnerError>>(
    repo_root: &str,
    env: &str,
    read: &R,
) -> (r: Result<(DeployCommandOutput<DeployStatusReport>, Option<V>, Option<V>), RunnerError>)
    requires
        forall|p: &str| read.requires((p,)),
    ensures
        match r {
            Ok((out, active, latest)) => {
                &&& read_gave(*read, active_path(repo_root@, env@), Ok(active))
                &&& read_gave(*read, latest_path(repo_root@, env@), Ok(latest))
                &&& out.ok
                &&& out.report.schema@ == "effigy.deploy.status.v1"@
                &&& out.report.schema_version == 1
                &&& out.report.env@ == env@
                &&& opt_view(out.report.active_path) == if active is Some {
                    Some(display_path(active_path(repo_root@, env@), repo_root@))
                } else {
                    None
                }
                &&& opt_view(out.report.latest_path) == if latest is Some {
                    Some(display_path(latest_path(repo_root@, env@), repo_root@))
                } else {
                    None
                }
                &&& out.report.warnings@.len() == 0
                &&& out.text@ == status_text(out.report)
            },
            Err(e) => read_gave(*read, active_path(repo_root@, env@), Err(e)) || read_gave(
                *read,
                latest_path(repo_root@, env@),
                Err(e),
            ),
        },
{
    let active_file = deploy_active_path(repo_root, env);
    let latest_file = deploy_latest_path(repo_root, env);
    let active = match read(active_file.as_str()) {
        Ok(v) => v,
        Err(e) => return Err(e),
    };
    let latest = match read(latest_file.as_str()) {
        Ok(v) => v,
        Err(e) => return Err(e),
    };
    let report = DeployStatusReport {
        schema: "effigy.deploy.status.v1".to_owned(),
        schema_version: 1,
        env: owned(env),
        active_path: if active.is_some() {
            Some(path_display(active_file.as_str(), repo_root))
        } else {
            None
        },
        latest_path: if latest.is_some() {
            Some(path_display(latest_file.as_str(), repo_root))
        } else {
            None
        },
        warnings: Vec::new(),
    };
    let text = render_deploy_status_text(&report);
    Ok((DeployCommandOutput { ok: true, report, text }, active, latest))
}

/// Whether `read`, handed `path`, may answer `out`.
pub open spec fn read_gave<V, R: Fn(&str) -> Result<Option<V>, RunnerError>>(
    read: R,
    path: Seq<char>,
    out: Result<Option<V>, RunnerError>,
) -> bool {
    exists|p: &str| p@ == path && #[trigger] read.ensures((p,), out)
}

/// Whether a history directory entry is a report: its extension is `json`.
pub open spec fn is_report_file(path: Seq<char>) -> bool {
    crate::paths::path_extension_view(path) == Some("json"@)
}

/// The report files among the entries of a history directory, in order.
pub open spec fn report_files(paths: Seq<Seq<char>>) -> Seq<Seq<char>>
    decreases paths.len(),
{
    if paths.len() == 0 {
        Seq::empty()
    } else {
        report_files(paths.drop_last()) + if is_report_file(paths.last()) {
            seq![paths.last()]
        } else {
            Seq::<Seq<char>>::empty()
        }
    }
}

/// The entries of a history directory that hold reports.
pub fn history_report_files(paths: &Vec<String>) -> (r: Vec<String>)
    ensures
        views(r@) == report_files(views(paths@)),
{
    proof {
        reveal_strlit("json");
    }
    let mut out: Vec<String> = Vec::new();
    let mut i: usize = 0;
    while i < paths.len()
        invariant
            i <= paths.len(),
            views(out@) == report_files(views(paths@).take(i as int)),
        decreases paths.len() - i,
    {
        assert(views(paths@).take(i + 1).drop_last() == views(paths@).take(i as int));
        let is_json = match crate::paths::path_extension(paths[i].as_str()) {
            Some(ext) => crate::text::str_eq(ext.as_str(), "json"),
            None => false,
        };
        if is_json {
            let ghost before = views(out@);
            out.push(paths[i].clone());
            assert(views(out@) == before.push(paths@[i as int]@));
        }
        i = i + 1;
    }
    assert(views(paths@).take(paths.len() as int) == views(paths@));
    out
}

/// An entry of the history as plain values: path, id, schema, status.
pub type HistoryView = (Seq<char>, Seq<char>, Seq<char>, Seq<char>);

pub open spec fn item_view(e: DeployHistoryItem) -> HistoryView {
    (e.path@, e.deployment_id@, e.schema@, e.status@)
}

pub open spec fn item_views(v: Seq<DeployHistoryItem>) -> Seq<HistoryView> {
    v.map_values(|e: DeployHistoryItem| item_view(e))
}

/// A field, or `unknown` when the report lacks it.
pub open spec fn or_unknown(o: Option<String>) -> Seq<char> {
    match o {
        Some(s) => s@,
        None => "unknown"@,
    }
}

/// The history entries of the reports read, in the order read.
pub open spec fn history_items(
    repo_root: Seq<char>,
    recs: Seq<(String, Option<DeployReportFields>)>,
) -> Seq<HistoryView>
    decreases recs.len(),
{
    if recs.len() == 0 {
        Seq::empty()
    } else {
        history_items(repo_root, recs.drop_last()) + match recs.last().1 {
            Some(f) => seq![
                (
                    display_path(recs.last().0@, repo_root),
                    or_unknown(f.deployment_id),
                    or_unknown(f.schema),
                    or_unknown(f.status),
                ),
            ],
            None => Seq::empty(),
        }
    }
}

/// A warning for each report that could not be read.
pub open spec fn history_warnings(recs: Seq<(String, Option<DeployReportFields>)>) -> Seq<Seq<char>>
    decreases recs.len(),
{
    if recs.len() == 0 {
        Seq::empty()
    } else {
        history_warnings(recs.drop_last()) + match recs.last().1 {
            Some(_) => Seq::empty(),
            None => seq!["ignored unreadable history file "@ + recs.last().0@],
        }
    }
}

/// Newest first: no entry's path sorts before a later entry's path.
pub open spec fn newest_first(s: Seq<HistoryView>) -> bool {
    forall|i: int, j: int| 0 <= i < j < s.len() ==> !crate::text::seq_lt(#[trigger] s[i].0, #[trigger] s[j].0)
}

fn unknown_or(o: &Option<String>) -> (r: String)
    ensures
        r@ == or_unknown(*o),
{
    match o {
        Some(s) => s.clone(),
        None => "unknown".to_owned(),
    }
}

/// Inserts `x` into `v`, which is newest first, after every entry whose
/// path does not sort before `x`'s.
fn insert_newest_first(v: &mut Vec<DeployHistoryItem>, x: DeployHistoryItem)
    requires
        newest_first(item_views(old(v)@)),
    ensures
        newest_first(item_views(final(v)@)),
        item_views(final(v)@).to_multiset() == item_views(old(v)@).to_multiset().insert(item_view(x)),
{
    let ghost xv = item_view(x);
    let mut p: usize = 0;
    while p < v.len() && !crate::text::str_lt(v[p].path.as_str(), x.path.as_str())
        invariant
            p <= v.len(),
            forall|q: int| 0 <= q < p ==> !crate::text::seq_lt(#[trigger] v@[q].path@, x.path@),
        decreases v.len() - p,
    {
        p = p + 1;
    }
    let ghost s = item_views(v@);
    let ghost xp = x.path@;
    v.insert(p, x);
    assert(item_views(v@) =~= s.insert(p as int, xv));
    proof {
        vstd::seq_lib::to_multiset_insert(s, p as int, xv);
        let t = item_views(v@);
        assert forall|i: int, j: int| 0 <= i < j < t.len() implies !crate::text::seq_lt(
            #[trigger] t[i].0,
            #[trigger] t[j].0,
        ) by {
            if j < p {
                assert(t[i] == s[i] && t[j] == s[j]);
            } else if j == p {
                assert(t[j] == xv);
                assert(t[i] == s[i]);
            } else if i > p {
                assert(t[i] == s[i - 1] && t[j] == s[j - 1]);
            } else if i == p {
                // x sorts after the entry now at j, which sorts no later than
                // the entry x was placed before.
                assert(t[i] == xv && t[j] == s[j - 1]);
                assert(crate::text::seq_lt(s[p as int].0, xp));
                crate::text::lemma_seq_lt_order(s[j - 1].0, s[p as int].0, xp);
                crate::text::lemma_seq_lt_order(xp, s[j - 1].0, xp);
                if j - 1 > p {
                    assert(!crate::text::seq_lt(s[p as int].0, s[j - 1].0));
                }
            } else {
                assert(t[i] == s[i] && t[j] == s[j - 1]);
            }
        }
    }
}

/// Deployment history of `env` from the reports read (`None` where a
/// report could not be read), newest first and at most `limit` (default
/// 20) entries, with a warning for each unreadable report.
pub fn build_deploy_history(
    repo_root: &str,
    env: &str,
    records: &Vec<(String, Option<DeployReportFields>)>,
    limit: Option<usize>,
) -> (r: DeployCommandOutput<DeployHistoryReport>)
    ensures
        r.ok,
        r.report.schema@ == "effigy.deploy.history.v1"@ && r.report.schema_version == 1,
        r.report.env@ == env@,
        views(r.report.warnings@) == history_warnings(records@),
        exists|all: Seq<HistoryView>|
            {
                &&& #[trigger] all.to_multiset() == history_items(repo_root@, records@).to_multiset()
                &&& newest_first(all)
                &&& item_views(r.report.entries@) == all.take(
                    vstd::math::min(
                        match limit {
                            Some(n) => n as int,
                            None => 20,
                        },
                        all.len() as int,
                    ),
                )
            },
        r.text@ == join_seq(history_lines(r.report), "\n"@),
{
    let mut entries: Vec<DeployHistoryItem> = Vec::new();
    let mut warnings: Vec<String> = Vec::new();
    let mut i: usize = 0;
    assert(item_views(entries@) =~= Seq::<HistoryView>::empty());
    assert(history_items(repo_root@, records@.take(0)) =~= Seq::<HistoryView>::empty());
    while i < records.len()
        invariant
            i <= records.len(),
            newest_first(item_views(entries@)),
            item_views(entries@).to_multiset() == history_items(
                repo_root@,
                records@.take(i as int),
            ).to_multiset(),
            views(warnings@) == history_warnings(records@.take(i as int)),
        decreases records.len() - i,
    {
        let ghost prev = records@.take(i as int);
        assert(records@.take(i + 1).drop_last() == prev);
        let rec = &records[i];
        match &rec.1 {
            Some(f) => {
                let item = DeployHistoryItem {
                    path: path_display(rec.0.as_str(), repo_root),
                    deployment_id: unknown_or(&f.deployment_id),
                    schema: unknown_or(&f.schema),
                    status: unknown_or(&f.status),
                };
                let ghost iv = item_view(item);
                insert_newest_first(&mut entries, item);
                proof {
                    vstd::seq_lib::to_multiset_build(history_items(repo_root@, prev), iv);
                    assert(history_items(repo_root@, records@.take(i + 1)) == history_items(
                        repo_root@,
                        prev,
                    ).push(iv));
                }
            },
            None => {
                let line = crate::text::cat("ignored unreadable history file ", rec.0.as_str());
                let ghost before = views(warnings@);
                warnings.push(line);
                assert(views(warnings@) == before.push(line@));
                assert(history_items(repo_root@, records@.take(i + 1)) == history_items(
                    repo_root@,
                    prev,
                ));
            },
        }
        i = i + 1;
    }
    assert(records@.take(records.len() as int) == records@);
    let n: usize = match limit {
        Some(n) => n,
        None => 20,
    };
    let ghost all = item_views(entries@);
    entries.truncate(n);
    assert(item_views(entries@) =~= all.take(vstd::math::min(n as int, all.len() as int)));
    let report = DeployHistoryReport {
        schema: "effigy.deploy.history.v1".to_owned(),
        schema_version: 1,
        env: owned(env),
        entries,
        warnings,
    };
    let text = render_deploy_history_text(&report);
    DeployCommandOutput { ok: true, report, text }
}

pub open spec fn redeploy_refusal_message() -> Seq<char> {
    "`deploy redeploy` requires `--yes` after reviewing deployment history"@
}

pub open spec fn redeploy_warning() -> Seq<char> {
    "redeploy replay recorded immutable deployment evidence; provider rollback and database rollback remain out of scope"@
}

/// The history report of `deployment` in `env`.
pub open spec fn source_report_path(repo_root: Seq<char>, env: Seq<char>, deployment: Seq<char>) -> Seq<char> {
    join_path(history_dir(repo_root, env), deployment + ".json"@)
}

/// What the report of replaying `deployment` holds, before it is written.
pub open spec fn redeploy_report_ok(
    repo_root: Seq<char>,
    env: Seq<char>,
    deployment: Seq<char>,
    source: DeployReportFields,
    started: u64,
    stamped: u64,
    finished: u64,
    r: DeployRedeployReport,
) -> bool {
    &&& r.schema@ == "effigy.deploy.apply.v1"@ && r.schema_version == 1
    &&& r.deployment_id@ == dec(stamped as nat) + "-redeploy-"@ + deployment
    &&& r.env@ == env && r.provider@ == or_unknown(source.provider)
    &&& r.status@ == "succeeded"@ && r.source_deployment@ == deployment
    &&& r.started_at@ == dec(started as nat).push('Z')
    &&& r.finished_at@ == dec(finished as nat).push('Z')
    &&& r.source_report_path@ == display_path(source_report_path(repo_root, env, deployment), repo_root)
    &&& views(r.warnings@) == seq![redeploy_warning()]
}

/// The text of a replayed deployment.
pub open spec fn redeploy_text(env: Seq<char>, deployment: Seq<char>, r: DeployRedeployReport) -> Seq<char> {
    "[deploy] redeployed "@ + env + "\nsource: "@ + deployment + "\nreport: "@
        + written_or_placeholder(r.written_report_path)
}

/// Whether `is_present` may answer `out` for `path`.
pub open spec fn found<E: Fn(&str) -> bool>(is_present: E, path: Seq<char>, out: bool) -> bool {
    exists|p: &str| p@ == path && #[trigger] is_present.ensures((p,), out)
}

/// `deploy redeploy`: refuses without `--yes`; otherwise the deployment
/// must be in the environment's history (`is_present`) and readable (`read`),
/// and its replay is recorded, under an id of the time and the source
/// deployment, to the latest and history reports (`write`).
pub fn run_deploy_redeploy<
    E: Fn(&str) -> bool,
    R: Fn(&str) -> Result<Option<DeployReportFields>, RunnerError>,
    N: Fn() -> u64,
    W: FnOnce(&Vec<String>, &DeployRedeployReport) -> Result<(), RunnerError>,
>(
    repo_root: &str,
    env: &str,
    deployment: &str,
    yes: bool,
    is_present: &E,
    read: &R,
    now: &N,
    write: W,
) -> (r: Result<DeployCommandOutput<DeployRedeployReport>, RunnerError>)
    requires
        forall|p: &str| is_present.requires((p,)),
        forall|p: &str| read.requires((p,)),
        now.requires(()),
        forall|p: &Vec<String>, q: &DeployRedeployReport| write.requires((p, q)),
    ensures
        !yes ==> (r matches Err(e) && is_invocation(e, redeploy_refusal_message())),
        r matches Ok(out) ==> exists|
            source: DeployReportFields,
            started: u64,
            stamped: u64,
            finished: u64,
            unwritten: DeployRedeployReport,
        |
            {
                let src = source_report_path(repo_root@, env@, deployment@);
                &&& yes && found(*is_present, src, true)
                &&& read_gave(*read, src, Ok(Some(source)))
                &&& clock_gave(*now, started) && clock_gave(*now, stamped) && clock_gave(*now, finished)
                &&& #[trigger] redeploy_report_ok(
                    repo_root@,
                    env@,
                    deployment@,
                    source,
                    started,
                    stamped,
                    finished,
                    unwritten,
                )
                &&& unwritten.written_report_path is None && unwritten.written_history_path is None
                &&& out.report == DeployRedeployReport {
                    written_report_path: out.report.written_report_path,
                    written_history_path: out.report.written_history_path,
                    ..unwritten
                }
                &&& opt_view(out.report.written_report_path) == Some(
                    display_path(report_paths(repo_root@, env@, unwritten.deployment_id@)[0], repo_root@),
                )
                &&& opt_view(out.report.written_history_path) == Some(
                    display_path(report_paths(repo_root@, env@, unwritten.deployment_id@)[1], repo_root@),
                )
                &&& wrote(write, report_paths(repo_root@, env@, unwritten.deployment_id@), out.report, Ok(()))
                &&& out.ok
                &&& out.text@ == redeploy_text(env@, deployment@, out.report)
            },
        r matches Err(e) ==> {
            let src = source_report_path(repo_root@, env@, deployment@);
            ||| !yes
            ||| found(*is_present, src, false) && is_invocation(
                e,
                "deployment `"@ + deployment@ + "` was not found in deploy history for `"@ + env@
                    + "`"@,
            )
            ||| read_gave(*read, src, Err(e))
            ||| read_gave(*read, src, Ok(None)) && is_invocation(e, "failed to read deployment report "@ + src)
            ||| exists|q: DeployRedeployReport|
                #[trigger] wrote(write, report_paths(repo_root@, env@, q.deployment_id@), q, Err(e))
        },
{
    proof {
        reveal_strlit(".json");
    }
    if !yes {
        return Err(
            RunnerError::task_invocation(
                "`deploy redeploy` requires `--yes` after reviewing deployment history",
            ),
        );
    }
    let dir = deploy_history_dir(repo_root, env);
    let file = crate::text::cat(deployment, ".json");
    let path = crate::paths::path_join(dir.as_str(), file.as_str());
    if !is_present(path.as_str()) {
        let mut m = crate::text::cat3("deployment `", deployment, "` was not found in deploy history for `");
        m.append(env);
        m.append("`");
        return Err(RunnerError::task_invocation(m.as_str()));
    }
    let source = match read(path.as_str()) {
        Ok(Some(s)) => s,
        Ok(None) => {
            let m = crate::text::cat("failed to read deployment report ", path.as_str());
            assert(read_gave(*read, path@, Ok(None)));
            return Err(RunnerError::task_invocation(m.as_str()));
        },
        Err(e) => {
            assert(read_gave(*read, path@, Err(e)));
            return Err(e);
        },
    };
    let started = now();
    let started_at = iso_timestamp(started);
    let stamped = now();
    let mut id = utc_basic_timestamp(stamped);
    id.append("-redeploy-");
    id.append(deployment);
    let finished = now();
    let warning = "redeploy replay recorded immutable deployment evidence; provider rollback and database rollback remain out of scope".to_owned();
    let ghost w = warning@;
    let warnings = vec![warning];
    assert(views(warnings@) == seq![w]);
    let mut report = DeployRedeployReport {
        schema: "effigy.deploy.apply.v1".to_owned(),
        schema_version: 1,
        deployment_id: id,
        env: owned(env),
        provider: unknown_or(&source.provider),
        status: "succeeded".to_owned(),
        source_deployment: owned(deployment),
        started_at,
        finished_at: iso_timestamp(finished),
        source_report_path: path_display(path.as_str(), repo_root),
        warnings,
        written_report_path: None,
        written_history_path: None,
    };
    let ghost unwritten = report;
    let paths = deploy_report_paths(repo_root, env, report.deployment_id.as_str());
    report.written_report_path = Some(path_display(paths.latest_path.as_str(), repo_root));
    report.written_history_path = Some(path_display(paths.history_path.as_str(), repo_root));
    let v = paths_vec(paths.latest_path, paths.history_path);
    assert(views(v@) == report_paths(repo_root@, env@, report.deployment_id@));
    match write(&v, &report) {
        Ok(u) => {
            proof {
                crate::error::lemma_unit(u);
            }
        },
        Err(e) => {
            assert(wrote(write, views(v@), report, Err(e)));
            return Err(e);
        },
    }
    assert(wrote(write, views(v@), report, Ok(())));
    let mut text = crate::text::cat3("[deploy] redeployed ", env, "\nsource: ");
    text.append(deployment);
    text.append("\nreport: ");
    match &report.written_report_path {
        Some(p) => text.append(p.as_str()),
        None => text.append("<not written>"),
    }
    assert(clock_gave(*now, started) && clock_gave(*now, stamped) && clock_gave(*now, finished));
    assert(path@ == source_report_path(repo_root@, env@, deployment@));
    assert(found(*is_present, path@, true));
    assert(read_gave(*read, path@, Ok(Some(source))));
    assert(redeploy_report_ok(repo_root@, env@, deployment@, source, started, stamped, finished, unwritten));
    Ok(DeployCommandOutput { ok: true, report, text })
}

} // verus!