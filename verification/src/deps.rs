//! `effigy deps`: the text reports of linking a local library into a
//! repository's dependencies, and the exit behaviour of those operations.
//! Reports are held as the values their text shows.
use vstd::prelude::*;
use crate::deploy::text::{bullets, section};
use crate::docs::{indented, line_if, text_lines};
use crate::error::{is_invocation, RunnerError};
use crate::paths::{join_path, path_join};
use crate::text::{dec, join, join_seq, owned, str_eq, views};

verus! {

/// A deps operation's answer: its rendering when it succeeded without
/// errors, else a failure that carries the command, outcome, error count
/// and rendering.
pub fn finish_deps_operation(
    command: &str,
    outcome: &str,
    outcome_succeeded: bool,
    errors: &Vec<String>,
    rendered: String,
) -> (r: Result<String, RunnerError>)
    ensures
        outcome_succeeded && errors@.len() == 0 ==> r == Ok::<String, RunnerError>(rendered),
        !(outcome_succeeded && errors@.len() == 0) ==> (r matches Err(
            RunnerError::DepsOperationNonZero { command: c, outcome: o, error_count: n, rendered: t },
        ) && c@ == command@ && o@ == outcome@ && n == errors@.len() && t == rendered),
{
    if outcome_succeeded && errors.len() == 0 {
        return Ok(rendered);
    }
    Err(
        RunnerError::DepsOperationNonZero {
            command: owned(command),
            outcome: owned(outcome),
            error_count: errors.len(),
            rendered,
        },
    )
}

/// The failure of `deps pin cargo` or `deps unpin cargo`: committed
/// pinning exists only for Bun overrides.
pub open spec fn cargo_pin_message(unpin: bool) -> Seq<char> {
    if unpin {
        "`effigy deps unpin cargo` is unsupported; committed pinning is available only for Bun overrides"@
    } else {
        "`effigy deps pin cargo` is unsupported; committed pinning is available only for Bun overrides"@
    }
}

/// The refusal of committed pinning for Cargo.
pub fn cargo_pin_unsupported(unpin: bool) -> (r: RunnerError)
    ensures
        is_invocation(r, cargo_pin_message(unpin)),
{
    if unpin {
        RunnerError::task_invocation(
            "`effigy deps unpin cargo` is unsupported; committed pinning is available only for Bun overrides",
        )
    } else {
        RunnerError::task_invocation(
            "`effigy deps pin cargo` is unsupported; committed pinning is available only for Bun overrides",
        )
    }
}

/// The package manager a `deps` command acts on.
#[derive(Debug, Clone, Copy, PartialEq, Eq, Structural)]
pub enum DepsManager {
    Cargo,
    Bun,
}

/// A `deps` subcommand with the manager it names.
#[derive(Debug, Clone, Copy, PartialEq, Eq, Structural)]
pub enum DepsCommand {
    Status,
    Link(DepsManager),
    Unlink(DepsManager),
    Pin(DepsManager),
    Unpin(DepsManager),
}

/// Runs a `deps` subcommand: each operation is its closure, which does the
/// work; committed pinning and unpinning are refused for Cargo, which has
/// no overrides to pin.
pub fn run_deps_with_home_and_process<S, CL, BL, CU, BU, BP, BN>(
    command: DepsCommand,
    status: S,
    cargo_link: CL,
    bun_link: BL,
    cargo_unlink: CU,
    bun_unlink: BU,
    bun_pin: BP,
    bun_unpin: BN,
) -> (r: Result<String, RunnerError>) where
    S: FnOnce() -> Result<String, RunnerError>,
    CL: FnOnce() -> Result<String, RunnerError>,
    BL: FnOnce() -> Result<String, RunnerError>,
    CU: FnOnce() -> Result<String, RunnerError>,
    BU: FnOnce() -> Result<String, RunnerError>,
    BP: FnOnce() -> Result<String, RunnerError>,
    BN: FnOnce() -> Result<String, RunnerError>,

    requires
        status.requires(()),
        cargo_link.requires(()),
        bun_link.requires(()),
        cargo_unlink.requires(()),
        bun_unlink.requires(()),
        bun_pin.requires(()),
        bun_unpin.requires(()),
    ensures
        match command {
            DepsCommand::Status => status.ensures((), r),
            DepsCommand::Link(DepsManager::Cargo) => cargo_link.ensures((), r),
            DepsCommand::Link(DepsManager::Bun) => bun_link.ensures((), r),
            DepsCommand::Unlink(DepsManager::Cargo) => cargo_unlink.ensures((), r),
            DepsCommand::Unlink(DepsManager::Bun) => bun_unlink.ensures((), r),
            DepsCommand::Pin(DepsManager::Cargo) => r matches Err(e) && is_invocation(e, cargo_pin_message(false)),
            DepsCommand::Pin(DepsManager::Bun) => bun_pin.ensures((), r),
            DepsCommand::Unpin(DepsManager::Cargo) => r matches Err(e) && is_invocation(e, cargo_pin_message(true)),
            DepsCommand::Unpin(DepsManager::Bun) => bun_unpin.ensures((), r),
        },
{
    match command {
        DepsCommand::Status => status(),
        DepsCommand::Link(DepsManager::Cargo) => cargo_link(),
        DepsCommand::Link(DepsManager::Bun) => bun_link(),
        DepsCommand::Unlink(DepsManager::Cargo) => cargo_unlink(),
        DepsCommand::Unlink(DepsManager::Bun) => bun_unlink(),
        DepsCommand::Pin(DepsManager::Cargo) => Err(cargo_pin_unsupported(false)),
        DepsCommand::Pin(DepsManager::Bun) => bun_pin(),
        DepsCommand::Unpin(DepsManager::Cargo) => Err(cargo_pin_unsupported(true)),
        DepsCommand::Unpin(DepsManager::Bun) => bun_unpin(),
    }
}

/// The library to link: as given when absolute, else under the repository.
pub fn resolve_link_library_path(repo_root: &str, library_path: &str) -> (r: String)
    ensures
        r@ == join_path(repo_root@, library_path@),
{
    path_join(repo_root, library_path)
}

/// The lines that show a file's content before or after a change.
pub open spec fn snapshot_lines(label: Seq<char>, snapshot: Option<Seq<char>>) -> Seq<Seq<char>> {
    seq!["  "@ + label + ":"@] + match snapshot {
        None => seq!["    <absent>"@],
        Some(s) => if s.len() == 0 {
            seq!["    <empty>"@]
        } else {
            text_lines(s).map_values(|l: Seq<char>| "    "@ + l)
        },
    }
}

fn append_all(lines: &mut Vec<String>, more: Vec<String>)
    ensures
        views(final(lines)@) == views(old(lines)@) + views(more@),
{
    let mut rest = more;
    let ghost target = views(lines@) + views(rest@);
    while rest.len() > 0
        invariant
            views(lines@) + views(rest@) == target,
        decreases rest.len(),
    {
        let x = rest.remove(0);
        let ghost b = views(lines@);
        lines.push(x);
        assert(views(lines@) == b.push(x@));
    }
}

fn prefixed(items: &Vec<String>, prefix: &str) -> (r: Vec<String>)
    ensures
        views(r@) == views(items@).map_values(|l: Seq<char>| prefix@ + l),
{
    let mut out: Vec<String> = Vec::new();
    let mut i: usize = 0;
    while i < items.len()
        invariant
            i <= items.len(),
            views(out@) == views(items@).take(i as int).map_values(|l: Seq<char>| prefix@ + l),
        decreases items.len() - i,
    {
        let line = crate::text::cat(prefix, items[i].as_str());
        let ghost before = views(out@);
        out.push(line);
        assert(views(out@) == before.push(line@));
        assert(views(items@).take(i + 1).map_values(|l: Seq<char>| prefix@ + l) =~= views(items@).take(
            i as int,
        ).map_values(|l: Seq<char>| prefix@ + l).push(prefix@ + items@[i as int]@));
        i = i + 1;
    }
    assert(views(items@).take(items.len() as int) == views(items@));
    out
}

/// Shows a file's content before or after a change: absent, empty, or its
/// lines indented.
pub fn render_snapshot(lines: &mut Vec<String>, label: &str, snapshot: Option<&str>)
    ensures
        views(final(lines)@) == views(old(lines)@) + snapshot_lines(
            label@,
            match snapshot {
                Some(s) => Some(s@),
                None => None,
            },
        ),
{
    let ghost start = views(lines@);
    lines.push(crate::text::cat3("  ", label, ":"));
    match snapshot {
        None => {
            lines.push("    <absent>".to_owned());
        },
        Some(s) => {
            if s.unicode_len() == 0 {
                lines.push("    <empty>".to_owned());
            } else {
                let ls = crate::docs::lines_of(s);
                let more = prefixed(&ls, "    ");
                append_all(lines, more);
            }
        },
    }
    assert(views(lines@) =~= start + snapshot_lines(
        label@,
        match snapshot {
            Some(s) => Some(s@),
            None => None,
        },
    ));
}

/// What `str::to_lowercase` gives for `s`.
pub uninterp spec fn unicode_lower(s: Seq<char>) -> Seq<char>;

/// `str::to_lowercase`: `s` in Unicode lowercase, named by [`unicode_lower`].
#[verifier::external_body]
pub fn to_lowercase(s: &str) -> (r: String)
    ensures
        r@ == unicode_lower(s@),
{
    s.to_lowercase()
}

/// A committed dependency source: its kind (as its debug form names it)
/// and identity.
#[derive(Debug)]
pub struct DepsCommittedSource {
    pub kind: String,
    pub identity: String,
}

pub open spec fn committed_text(s: DepsCommittedSource) -> Seq<char> {
    unicode_lower(s.kind@) + " "@ + s.identity@
}

/// `<kind in lowercase> <identity>`.
pub fn render_committed_source(source: &DepsCommittedSource) -> (r: String)
    ensures
        r@ == committed_text(*source),
{
    let kind = to_lowercase(source.kind.as_str());
    crate::text::cat3(kind.as_str(), " ", source.identity.as_str())
}

/// A change a link or unlink plans to a file.
#[derive(Debug)]
pub struct DepsPlannedChange {
    /// The action, in its debug form.
    pub action: String,
    pub target: String,
    pub description: String,
    pub before: Option<String>,
    pub after: Option<String>,
}

pub open spec fn opt_seq(o: Option<String>) -> Option<Seq<char>> {
    match o {
        Some(s) => Some(s@),
        None => None,
    }
}

/// The lines of a planned change: what is done to which file, and the
/// file before and after.
pub open spec fn change_lines(c: DepsPlannedChange) -> Seq<Seq<char>> {
    seq!["- "@ + unicode_lower(c.action@) + " "@ + c.target@ + ": "@ + c.description@]
        + snapshot_lines("before"@, opt_seq(c.before)) + snapshot_lines("after"@, opt_seq(c.after))
}

pub open spec fn changes_lines(cs: Seq<DepsPlannedChange>) -> Seq<Seq<char>>
    decreases cs.len(),
{
    if cs.len() == 0 {
        Seq::empty()
    } else {
        changes_lines(cs.drop_last()) + change_lines(cs.last())
    }
}

fn push_changes(lines: &mut Vec<String>, cs: &Vec<DepsPlannedChange>)
    ensures
        views(final(lines)@) == views(old(lines)@) + changes_lines(cs@),
{
    let ghost start = views(lines@);
    let mut i: usize = 0;
    while i < cs.len()
        invariant
            i <= cs.len(),
            views(lines@) == start + changes_lines(cs@.take(i as int)),
        decreases cs.len() - i,
    {
        assert(cs@.take(i + 1).drop_last() == cs@.take(i as int));
        let c = &cs[i];
        let ghost before = views(lines@);
        let action = to_lowercase(c.action.as_str());
        let mut head = crate::text::cat3("- ", action.as_str(), " ");
        head.append(c.target.as_str());
        head.append(": ");
        head.append(c.description.as_str());
        lines.push(head);
        let b: Option<&str> = match &c.before {
            Some(t) => Some(t.as_str()),
            None => None,
        };
        render_snapshot(lines, "before", b);
        let a: Option<&str> = match &c.after {
            Some(t) => Some(t.as_str()),
            None => None,
        };
        render_snapshot(lines, "after", a);
        assert(views(lines@) =~= before + change_lines(cs@[i as int]));
        i = i + 1;
    }
    assert(cs@.take(cs.len() as int) == cs@);
}

/// What verification found for one package of one consumer.
#[derive(Debug)]
pub struct DepsEvidence {
    pub package: String,
    pub consumer_root: Option<String>,
    pub committed_sources: Vec<DepsCommittedSource>,
    pub observed_source: Option<String>,
    pub message: Option<String>,
}

/// A resolution the plan expects.
#[derive(Debug)]
pub struct DepsExpectedResolution {
    pub package: String,
    pub consumer_root: String,
    pub committed_source: DepsCommittedSource,
    pub local_path: String,
}

/// Whether evidence `e` is about the expected resolution `x`: the same
/// package and consumer, and among its committed sources.
pub open spec fn evidence_for(e: DepsEvidence, x: DepsExpectedResolution) -> bool {
    &&& e.package@ == x.package@
    &&& e.consumer_root matches Some(r) && r@ == x.consumer_root@
    &&& exists|k: int|
        0 <= k < e.committed_sources@.len() && (#[trigger] e.committed_sources@[k]).kind@
            == x.committed_source.kind@ && e.committed_sources@[k].identity@
            == x.committed_source.identity@
}

/// The first evidence at or after `k` about `x`.
pub open spec fn evidence_index_from(evs: Seq<DepsEvidence>, x: DepsExpectedResolution, k: int) -> Option<int>
    decreases evs.len() - k,
{
    if k < 0 || k >= evs.len() {
        None
    } else if evidence_for(evs[k], x) {
        Some(k)
    } else {
        evidence_index_from(evs, x, k + 1)
    }
}

/// What was observed for `x`: the first matching evidence's source, else
/// that verification did not run (dry run) or did not resolve it.
pub open spec fn observed_text(evs: Seq<DepsEvidence>, x: DepsExpectedResolution, dry_run: bool) -> Seq<char> {
    let fallback = if dry_run {
        "not run (dry-run)"@
    } else {
        "not resolved"@
    };
    match evidence_index_from(evs, x, 0) {
        Some(i) => match evs[i].observed_source {
            Some(s) => s@,
            None => fallback,
        },
        None => fallback,
    }
}

/// The error the first matching evidence carries, if any.
pub open spec fn observed_error(evs: Seq<DepsEvidence>, x: DepsExpectedResolution) -> Seq<Seq<char>> {
    match evidence_index_from(evs, x, 0) {
        Some(i) => match evs[i].message {
            Some(m) => seq!["  error: "@ + m@],
            None => Seq::empty(),
        },
        None => Seq::empty(),
    }
}

fn same_source(a: &DepsCommittedSource, b: &DepsCommittedSource) -> (r: bool)
    ensures
        r == (a.kind@ == b.kind@ && a.identity@ == b.identity@),
{
    str_eq(a.kind.as_str(), b.kind.as_str()) && str_eq(a.identity.as_str(), b.identity.as_str())
}

fn is_evidence_for(e: &DepsEvidence, x: &DepsExpectedResolution) -> (r: bool)
    ensures
        r == evidence_for(*e, *x),
{
    if !str_eq(e.package.as_str(), x.package.as_str()) {
        return false;
    }
    match &e.consumer_root {
        Some(root) => {
            if !str_eq(root.as_str(), x.consumer_root.as_str()) {
                return false;
            }
        },
        None => return false,
    }
    let mut k: usize = 0;
    while k < e.committed_sources.len()
        invariant
            k <= e.committed_sources.len(),
            e.package@ == x.package@,
            e.consumer_root matches Some(r) && r@ == x.consumer_root@,
            forall|j: int|
                0 <= j < k ==> !((#[trigger] e.committed_sources@[j]).kind@ == x.committed_source.kind@
                    && e.committed_sources@[j].identity@ == x.committed_source.identity@),
        decreases e.committed_sources.len() - k,
    {
        if same_source(&e.committed_sources[k], &x.committed_source) {
            return true;
        }
        k = k + 1;
    }
    false
}

fn find_evidence(evs: &Vec<DepsEvidence>, x: &DepsExpectedResolution) -> (r: Option<usize>)
    ensures
        match r {
            Some(i) => i < evs@.len() && evidence_index_from(evs@, *x, 0) == Some(i as int),
            None => evidence_index_from(evs@, *x, 0) is None,
        },
{
    let mut i: usize = 0;
    while i < evs.len()
        invariant
            i <= evs.len(),
            evidence_index_from(evs@, *x, 0) == evidence_index_from(evs@, *x, i as int),
        decreases evs.len() - i,
    {
        if is_evidence_for(&evs[i], x) {
            return Some(i);
        }
        i = i + 1;
    }
    None
}

fn observed_lines(evs: &Vec<DepsEvidence>, x: &DepsExpectedResolution, dry_run: bool) -> (r: (String, Vec<String>))
    ensures
        r.0@ == "  observed: "@ + observed_text(evs@, *x, dry_run),
        views(r.1@) == observed_error(evs@, *x),
{
    let fallback = if dry_run {
        "not run (dry-run)"
    } else {
        "not resolved"
    };
    match find_evidence(evs, x) {
        Some(i) => {
            let e = &evs[i];
            let text = match &e.observed_source {
                Some(s) => crate::text::cat("  observed: ", s.as_str()),
                None => crate::text::cat("  observed: ", fallback),
            };
            let errs = match &e.message {
                Some(m) => vec![crate::text::cat("  error: ", m.as_str())],
                None => Vec::new(),
            };
            proof {
                if e.message is Some {
                    assert(views(errs@) == seq![errs@[0]@]);
                }
            }
            (text, errs)
        },
        None => (crate::text::cat("  observed: ", fallback), Vec::new()),
    }
}

/// The opening lines of an operation report: what ran, where, on which
/// library, its outcome and verification status.
pub open spec fn report_head(
    command: Seq<char>,
    repo_root: Seq<char>,
    library: Seq<char>,
    outcome: Seq<char>,
    verification: Seq<char>,
) -> Seq<Seq<char>> {
    seq![
        "[deps] "@ + command,
        "repo: "@ + repo_root,
        "library: "@ + library,
        "outcome: "@ + outcome,
        unicode_lower("verification: "@ + verification),
    ]
}

fn head_lines(command: &str, repo_root: &str, library: &str, outcome: &str, verification: &str) -> (r: Vec<String>)
    ensures
        views(r@) == report_head(command@, repo_root@, library@, outcome@, verification@),
{
    let v = crate::text::cat("verification: ", verification);
    let r = vec![
        crate::text::cat("[deps] ", command),
        crate::text::cat("repo: ", repo_root),
        crate::text::cat("library: ", library),
        crate::text::cat("outcome: ", outcome),
        to_lowercase(v.as_str()),
    ];
    assert(views(r@) == seq![r@[0]@, r@[1]@, r@[2]@, r@[3]@, r@[4]@]);
    r
}

/// A counted heading after an empty line: `title (n)`.
pub open spec fn heading(title: Seq<char>, n: nat) -> Seq<Seq<char>> {
    seq![Seq::<char>::empty(), title + " ("@ + dec(n) + ")"@]
}

fn push_heading(lines: &mut Vec<String>, title: &str, n: usize)
    ensures
        views(final(lines)@) == views(old(lines)@) + heading(title@, n as nat),
{
    lines.push(String::new());
    let mut h = crate::text::cat(title, " (");
    crate::text::push_dec(&mut h, n as u64);
    h.append(")");
    lines.push(h);
}

fn push_section(lines: &mut Vec<String>, title: &str, items: &Vec<String>)
    ensures
        views(final(lines)@) == views(old(lines)@) + section(title@, views(items@)),
{
    if items.len() == 0 {
        assert(views(lines@) =~= views(lines@) + section(title@, views(items@)));
        return;
    }
    let ghost start = views(lines@);
    push_heading(lines, title, items.len());
    let more = prefixed(items, "- ");
    append_all(lines, more);
    assert(views(lines@) =~= start + section(title@, views(items@)));
}

/// The lines of one package resolution a link expects.
pub open spec fn link_resolution_lines(evs: Seq<DepsEvidence>, x: DepsExpectedResolution, dry_run: bool) -> Seq<Seq<char>> {
    seq![
        "- "@ + x.package@ + " @ "@ + x.consumer_root@,
        "  committed: "@ + committed_text(x.committed_source),
        "  planned: "@ + x.local_path@,
        "  observed: "@ + observed_text(evs, x, dry_run),
    ] + observed_error(evs, x)
}

/// The lines of one committed resolution an unlink expects back.
pub open spec fn unlink_resolution_lines(evs: Seq<DepsEvidence>, x: DepsExpectedResolution, dry_run: bool) -> Seq<Seq<char>> {
    seq![
        "- "@ + x.package@ + " @ "@ + x.consumer_root@,
        "  expected: "@ + committed_text(x.committed_source),
        "  observed: "@ + observed_text(evs, x, dry_run),
    ] + observed_error(evs, x)
}

pub open spec fn resolutions_lines(
    evs: Seq<DepsEvidence>,
    xs: Seq<DepsExpectedResolution>,
    dry_run: bool,
    linking: bool,
) -> Seq<Seq<char>>
    decreases xs.len(),
{
    if xs.len() == 0 {
        Seq::empty()
    } else {
        resolutions_lines(evs, xs.drop_last(), dry_run, linking) + if linking {
            link_resolution_lines(evs, xs.last(), dry_run)
        } else {
            unlink_resolution_lines(evs, xs.last(), dry_run)
        }
    }
}

fn push_resolutions(
    lines: &mut Vec<String>,
    evs: &Vec<DepsEvidence>,
    xs: &Vec<DepsExpectedResolution>,
    dry_run: bool,
    linking: bool,
)
    ensures
        views(final(lines)@) == views(old(lines)@) + resolutions_lines(evs@, xs@, dry_run, linking),
{
    let ghost start = views(lines@);
    let mut i: usize = 0;
    while i < xs.len()
        invariant
            i <= xs.len(),
            views(lines@) == start + resolutions_lines(evs@, xs@.take(i as int), dry_run, linking),
        decreases xs.len() - i,
    {
        assert(xs@.take(i + 1).drop_last() == xs@.take(i as int));
        let x = &xs[i];
        let ghost before = views(lines@);
        let mut first = crate::text::cat3("- ", x.package.as_str(), " @ ");
        first.append(x.consumer_root.as_str());
        lines.push(first);
        let committed = render_committed_source(&x.committed_source);
        if linking {
            lines.push(crate::text::cat("  committed: ", committed.as_str()));
            lines.push(crate::text::cat("  planned: ", x.local_path.as_str()));
        } else {
            lines.push(crate::text::cat("  expected: ", committed.as_str()));
        }
        let (observed, errs) = observed_lines(evs, x, dry_run);
        lines.push(observed);
        append_all(lines, errs);
        assert(views(lines@) =~= before + if linking {
            link_resolution_lines(evs@, xs@[i as int], dry_run)
        } else {
            unlink_resolution_lines(evs@, xs@[i as int], dry_run)
        });
        i = i + 1;
    }
    assert(xs@.take(xs.len() as int) == xs@);
}

/// The report of linking a local library into Cargo dependencies.
#[derive(Debug)]
pub struct CargoLinkReport {
    pub library_path: String,
    pub dry_run: bool,
    pub outcome: String,
    /// The verification status, in its debug form.
    pub verification_status: String,
    pub changes: Vec<DepsPlannedChange>,
    pub warnings: Vec<String>,
    pub expected_resolutions: Vec<DepsExpectedResolution>,
    pub evidence: Vec<DepsEvidence>,
    pub affected_lockfiles: Vec<String>,
    pub rollback_attempted: bool,
    pub rollback_restored: usize,
    pub rollback_failures: usize,
    pub errors: Vec<String>,
}

/// The lines of a Cargo link report: the planned changes, the package
/// resolutions with what was observed, the lockfiles not to commit, then
/// warnings, rollback and errors where there are any.
pub open spec fn cargo_link_lines(repo_root: Seq<char>, r: CargoLinkReport) -> Seq<Seq<char>> {
    report_head("link cargo"@, repo_root, r.library_path@, r.outcome@, r.verification_status@)
        + heading("Planned changes"@, r.changes@.len()) + line_if(
        r.changes@.len() == 0,
        "- none; physical state already matches the plan"@,
    ) + changes_lines(r.changes@) + heading("Package resolutions"@, r.expected_resolutions@.len())
        + resolutions_lines(r.evidence@, r.expected_resolutions@, r.dry_run, true) + heading(
        "Affected lockfiles"@,
        r.affected_lockfiles@.len(),
    ) + (if r.affected_lockfiles@.len() == 0 {
        seq!["- none tracked"@]
    } else {
        views(r.affected_lockfiles@).map_values(|p: Seq<char>| "- "@ + p + " (do not commit while linked)"@)
    }) + section("Warnings"@, views(r.warnings@)) + line_if(r.rollback_attempted, Seq::empty())
        + line_if(
        r.rollback_attempted,
        "Rollback: restored "@ + dec(r.rollback_restored as nat) + ", failures "@ + dec(
            r.rollback_failures as nat,
        ),
    ) + section("Errors"@, views(r.errors@))
}

/// The text of a Cargo link report.
pub fn render_cargo_link(repo_root: &str, r: &CargoLinkReport) -> (out: String)
    ensures
        out@ == join_seq(cargo_link_lines(repo_root@, *r), "\n"@),
{
    let mut lines = head_lines("link cargo", repo_root, r.library_path.as_str(), r.outcome.as_str(), r.verification_status.as_str());
    let ghost e0 = report_head("link cargo"@, repo_root@, r.library_path@, r.outcome@, r.verification_status@);
    push_heading(&mut lines, "Planned changes", r.changes.len());
    let ghost e1 = e0 + heading("Planned changes"@, r.changes@.len());
    assert(views(lines@) == e1);
    if r.changes.len() == 0 {
        lines.push("- none; physical state already matches the plan".to_owned());
    }
    let ghost e2 = e1 + line_if(r.changes@.len() == 0, "- none; physical state already matches the plan"@);
    assert(views(lines@) =~= e2);
    push_changes(&mut lines, &r.changes);
    let ghost e3 = e2 + changes_lines(r.changes@);
    push_heading(&mut lines, "Package resolutions", r.expected_resolutions.len());
    let ghost e4 = e3 + heading("Package resolutions"@, r.expected_resolutions@.len());
    push_resolutions(&mut lines, &r.evidence, &r.expected_resolutions, r.dry_run, true);
    let ghost e5 = e4 + resolutions_lines(r.evidence@, r.expected_resolutions@, r.dry_run, true);
    push_heading(&mut lines, "Affected lockfiles", r.affected_lockfiles.len());
    let ghost e6 = e5 + heading("Affected lockfiles"@, r.affected_lockfiles@.len());
    assert(views(lines@) == e6);
    let ghost before_locks = views(lines@);
    if r.affected_lockfiles.len() == 0 {
        lines.push("- none tracked".to_owned());
    } else {
        let mut i: usize = 0;
        while i < r.affected_lockfiles.len()
            invariant
                i <= r.affected_lockfiles.len(),
                views(lines@) == before_locks + views(r.affected_lockfiles@).take(i as int).map_values(
                    |p: Seq<char>| "- "@ + p + " (do not commit while linked)"@,
                ),
            decreases r.affected_lockfiles.len() - i,
        {
            let line = crate::text::cat3("- ", r.affected_lockfiles[i].as_str(), " (do not commit while linked)");
            let ghost b = views(lines@);
            lines.push(line);
            assert(views(lines@) == b.push(line@));
            assert(views(r.affected_lockfiles@).take(i + 1).map_values(
                |p: Seq<char>| "- "@ + p + " (do not commit while linked)"@,
            ) =~= views(r.affected_lockfiles@).take(i as int).map_values(
                |p: Seq<char>| "- "@ + p + " (do not commit while linked)"@,
            ).push(line@));
            i = i + 1;
        }
        assert(views(r.affected_lockfiles@).take(r.affected_lockfiles.len() as int) == views(
            r.affected_lockfiles@,
        ));
    }
    let ghost e7 = e6 + (if r.affected_lockfiles@.len() == 0 {
        seq!["- none tracked"@]
    } else {
        views(r.affected_lockfiles@).map_values(|p: Seq<char>| "- "@ + p + " (do not commit while linked)"@)
    });
    assert(views(lines@) =~= e7);
    push_section(&mut lines, "Warnings", &r.warnings);
    let ghost e8 = e7 + section("Warnings"@, views(r.warnings@));
    let ghost before_rollback = views(lines@);
    if r.rollback_attempted {
        lines.push(String::new());
        let mut t = "Rollback: restored ".to_owned();
        crate::text::push_dec(&mut t, r.rollback_restored as u64);
        t.append(", failures ");
        crate::text::push_dec(&mut t, r.rollback_failures as u64);
        lines.push(t);
    }
    let ghost e9 = e8 + line_if(r.rollback_attempted, Seq::empty());
    let ghost e10 = e9 + line_if(
        r.rollback_attempted,
        "Rollback: restored "@ + dec(r.rollback_restored as nat) + ", failures "@ + dec(
            r.rollback_failures as nat,
        ),
    );
    assert(views(lines@) =~= e10);
    push_section(&mut lines, "Errors", &r.errors);
    assert(views(lines@) == e10 + section("Errors"@, views(r.errors@)));
    join(&lines, "\n")
}

/// A lockfile an unlink recovered, with its states in their debug form.
#[derive(Debug)]
pub struct DepsLockfile {
    pub path: String,
    pub before_state: String,
    pub after_state: String,
}

/// The report of unlinking a local library from Cargo dependencies.
#[derive(Debug)]
pub struct CargoUnlinkReport {
    pub library_path: String,
    pub dry_run: bool,
    pub outcome: String,
    /// The verification status, in its debug form.
    pub verification_status: String,
    pub changes: Vec<DepsPlannedChange>,
    pub warnings: Vec<String>,
    pub expected_resolutions: Vec<DepsExpectedResolution>,
    pub evidence: Vec<DepsEvidence>,
    pub lockfiles: Vec<DepsLockfile>,
    pub removed_directories: Vec<String>,
    pub errors: Vec<String>,
}

pub open spec fn lockfile_items(ls: Seq<DepsLockfile>) -> Seq<Seq<char>> {
    ls.map_values(|l: DepsLockfile| unicode_lower("- "@ + l.path@ + ": "@ + l.before_state@ + " -> "@ + l.after_state@))
}

/// The lines of a Cargo unlink report: the planned changes, the committed
/// resolutions restored with what was observed, the lockfile recovery,
/// then removed directories, notes and errors where there are any.
pub open spec fn cargo_unlink_lines(repo_root: Seq<char>, r: CargoUnlinkReport) -> Seq<Seq<char>> {
    report_head("unlink cargo"@, repo_root, r.library_path@, r.outcome@, r.verification_status@)
        + heading("Planned changes"@, r.changes@.len()) + line_if(
        r.changes@.len() == 0,
        "- none; dependency link is already absent"@,
    ) + changes_lines(r.changes@) + heading("Committed resolutions"@, r.expected_resolutions@.len())
        + line_if(r.expected_resolutions@.len() == 0, "- none"@) + resolutions_lines(
        r.evidence@,
        r.expected_resolutions@,
        r.dry_run,
        false,
    ) + heading("Lock recovery"@, r.lockfiles@.len()) + line_if(r.lockfiles@.len() == 0, "- not run"@)
        + lockfile_items(r.lockfiles@) + section("Removed owned directories"@, views(r.removed_directories@))
        + section("Notes"@, views(r.warnings@)) + section("Errors"@, views(r.errors@))
}

/// The text of a Cargo unlink report.
pub fn render_cargo_unlink(repo_root: &str, r: &CargoUnlinkReport) -> (out: String)
    ensures
        out@ == join_seq(cargo_unlink_lines(repo_root@, *r), "\n"@),
{
    let mut lines = head_lines("unlink cargo", repo_root, r.library_path.as_str(), r.outcome.as_str(), r.verification_status.as_str());
    let ghost e0 = report_head("unlink cargo"@, repo_root@, r.library_path@, r.outcome@, r.verification_status@);
    push_heading(&mut lines, "Planned changes", r.changes.len());
    let ghost e1 = e0 + heading("Planned changes"@, r.changes@.len());
    if r.changes.len() == 0 {
        lines.push("- none; dependency link is already absent".to_owned());
    }
    let ghost e2 = e1 + line_if(r.changes@.len() == 0, "- none; dependency link is already absent"@);
    assert(views(lines@) =~= e2);
    push_changes(&mut lines, &r.changes);
    let ghost e3 = e2 + changes_lines(r.changes@);
    push_heading(&mut lines, "Committed resolutions", r.expected_resolutions.len());
    let ghost e4 = e3 + heading("Committed resolutions"@, r.expected_resolutions@.len());
    assert(views(lines@) == e4);
    if r.expected_resolutions.len() == 0 {
        lines.push("- none".to_owned());
    }
    let ghost e5 = e4 + line_if(r.expected_resolutions@.len() == 0, "- none"@);
    assert(views(lines@) =~= e5);
    push_resolutions(&mut lines, &r.evidence, &r.expected_resolutions, r.dry_run, false);
    let ghost e6 = e5 + resolutions_lines(r.evidence@, r.expected_resolutions@, r.dry_run, false);
    push_heading(&mut lines, "Lock recovery", r.lockfiles.len());
    let ghost e7 = e6 + heading("Lock recovery"@, r.lockfiles@.len());
    assert(views(lines@) == e7);
    if r.lockfiles.len() == 0 {
        lines.push("- not run".to_owned());
    }
    let ghost e8 = e7 + line_if(r.lockfiles@.len() == 0, "- not run"@);
    assert(views(lines@) =~= e8);
    let mut i: usize = 0;
    while i < r.lockfiles.len()
        invariant
            i <= r.lockfiles.len(),
            views(lines@) == e8 + lockfile_items(r.lockfiles@.take(i as int)),
        decreases r.lockfiles.len() - i,
    {
        let l = &r.lockfiles[i];
        let mut raw = crate::text::cat3("- ", l.path.as_str(), ": ");
        raw.append(l.before_state.as_str());
        raw.append(" -> ");
        raw.append(l.after_state.as_str());
        let line = to_lowercase(raw.as_str());
        let ghost b = views(lines@);
        lines.push(line);
        assert(views(lines@) == b.push(line@));
        assert(lockfile_items(r.lockfiles@.take(i + 1)) =~= lockfile_items(r.lockfiles@.take(i as int)).push(line@));
        i = i + 1;
    }
    assert(r.lockfiles@.take(r.lockfiles.len() as int) == r.lockfiles@);
    let ghost e9 = e8 + lockfile_items(r.lockfiles@);
    push_section(&mut lines, "Removed owned directories", &r.removed_directories);
    let ghost e10 = e9 + section("Removed owned directories"@, views(r.removed_directories@));
    push_section(&mut lines, "Notes", &r.warnings);
    let ghost e11 = e10 + section("Notes"@, views(r.warnings@));
    push_section(&mut lines, "Errors", &r.errors);
    assert(views(lines@) == e11 + section("Errors"@, views(r.errors@)));
    join(&lines, "\n")
}

/// A process a Bun operation runs (or would run).
#[derive(Debug)]
pub struct BunProcessIntent {
    /// The action, in its debug form.
    pub action: String,
    pub packages: Vec<String>,
    pub cwd: String,
    pub program: String,
    pub args: Vec<String>,
}

/// A package of the closure a Bun link plans.
#[derive(Debug)]
pub struct BunPlannedPackage {
    pub name: String,
    /// The registration and consumer link states, in their debug form.
    pub registration: String,
    pub consumer_link: String,
    pub local_path: String,
}

/// Where verification found a package resolved from.
#[derive(Debug)]
pub struct BunPackageEvidence {
    pub package: String,
    pub observed_source: Option<String>,
}

/// A file the operation must leave unchanged, and whether it did.
#[derive(Debug)]
pub struct DepsImmutableFile {
    pub path: String,
    pub unchanged: bool,
}

/// A peer dependency check of a linked package.
#[derive(Debug)]
pub struct BunPeerDiagnostic {
    pub package: String,
    pub peer: String,
    pub requirement: String,
    pub status: String,
    pub message: Option<String>,
}

/// The report of linking a local library into Bun dependencies.
#[derive(Debug)]
pub struct BunLinkReport {
    pub library_path: String,
    pub dry_run: bool,
    pub outcome: String,
    /// Whether a committed override blocked the link.
    pub committed_pin_active: bool,
    pub verification_status: String,
    pub process_intents: Vec<BunProcessIntent>,
    pub packages: Vec<BunPlannedPackage>,
    pub evidence: Vec<BunPackageEvidence>,
    pub immutable_files: Vec<DepsImmutableFile>,
    pub peer_diagnostics: Vec<BunPeerDiagnostic>,
    pub warnings: Vec<String>,
    pub rollback_attempted: bool,
    pub rollback_consumer_links: usize,
    pub rollback_registrations: usize,
    pub rollback_files: usize,
    pub rollback_failures: usize,
    pub errors: Vec<String>,
}

pub open spec fn link_intent_text(i: BunProcessIntent) -> Seq<char> {
    "- "@ + unicode_lower(i.action@) + " "@ + join_seq(views(i.packages@), ","@) + " @ "@ + i.cwd@ + ": "@
        + i.program@ + " "@ + join_seq(views(i.args@), " "@)
}

fn link_intent_line(i: &BunProcessIntent) -> (r: String)
    ensures
        r@ == link_intent_text(*i),
{
    let action = to_lowercase(i.action.as_str());
    let packages = join(&i.packages, ",");
    let args = join(&i.args, " ");
    let mut s = crate::text::cat3("- ", action.as_str(), " ");
    s.append(packages.as_str());
    s.append(" @ ");
    s.append(i.cwd.as_str());
    s.append(": ");
    s.append(i.program.as_str());
    s.append(" ");
    s.append(args.as_str());
    s
}

pub open spec fn file_text(f: DepsImmutableFile) -> Seq<char> {
    "- "@ + f.path@ + ": "@ + if f.unchanged {
        "unchanged"@
    } else {
        "changed"@
    }
}

fn file_line(f: &DepsImmutableFile) -> (r: String)
    ensures
        r@ == file_text(*f),
{
    let mut s = crate::text::cat3("- ", f.path.as_str(), ": ");
    if f.unchanged {
        s.append("unchanged");
    } else {
        s.append("changed");
    }
    s
}

/// The first evidence at or after `k` about package `name`.
pub open spec fn bun_evidence_from(evs: Seq<BunPackageEvidence>, name: Seq<char>, k: int) -> Option<int>
    decreases evs.len() - k,
{
    if k < 0 || k >= evs.len() {
        None
    } else if evs[k].package@ == name {
        Some(k)
    } else {
        bun_evidence_from(evs, name, k + 1)
    }
}

pub open spec fn bun_observed(evs: Seq<BunPackageEvidence>, name: Seq<char>, dry_run: bool) -> Seq<char> {
    let fallback = if dry_run {
        "not run (dry-run)"@
    } else {
        "not resolved"@
    };
    match bun_evidence_from(evs, name, 0) {
        Some(i) => match evs[i].observed_source {
            Some(s) => s@,
            None => fallback,
        },
        None => fallback,
    }
}

/// The lines of a planned package: its states, where it is planned from,
/// and what was observed.
pub open spec fn package_lines(evs: Seq<BunPackageEvidence>, p: BunPlannedPackage, dry_run: bool) -> Seq<Seq<char>> {
    seq![
        "- "@ + p.name@ + ": "@ + unicode_lower(p.registration@) + ", "@ + unicode_lower(p.consumer_link@),
        "  planned: "@ + p.local_path@,
        "  observed: "@ + bun_observed(evs, p.name@, dry_run),
    ]
}

pub open spec fn packages_lines(evs: Seq<BunPackageEvidence>, ps: Seq<BunPlannedPackage>, dry_run: bool) -> Seq<Seq<char>>
    decreases ps.len(),
{
    if ps.len() == 0 {
        Seq::empty()
    } else {
        packages_lines(evs, ps.drop_last(), dry_run) + package_lines(evs, ps.last(), dry_run)
    }
}

fn bun_observed_text(evs: &Vec<BunPackageEvidence>, name: &str, dry_run: bool) -> (r: String)
    ensures
        r@ == bun_observed(evs@, name@, dry_run),
{
    let fallback = if dry_run {
        "not run (dry-run)"
    } else {
        "not resolved"
    };
    let mut i: usize = 0;
    while i < evs.len()
        invariant
            i <= evs.len(),
            bun_evidence_from(evs@, name@, 0) == bun_evidence_from(evs@, name@, i as int),
            fallback@ == if dry_run {
                "not run (dry-run)"@
            } else {
                "not resolved"@
            },
        decreases evs.len() - i,
    {
        if str_eq(evs[i].package.as_str(), name) {
            assert(bun_evidence_from(evs@, name@, i as int) == Some(i as int));
            let r = match &evs[i].observed_source {
                Some(s) => owned(s.as_str()),
                None => owned(fallback),
            };
            return r;
        }
        i = i + 1;
    }
    owned(fallback)
}

fn push_packages(lines: &mut Vec<String>, evs: &Vec<BunPackageEvidence>, ps: &Vec<BunPlannedPackage>, dry_run: bool)
    ensures
        views(final(lines)@) == views(old(lines)@) + packages_lines(evs@, ps@, dry_run),
{
    let ghost start = views(lines@);
    let mut i: usize = 0;
    while i < ps.len()
        invariant
            i <= ps.len(),
            views(lines@) == start + packages_lines(evs@, ps@.take(i as int), dry_run),
        decreases ps.len() - i,
    {
        assert(ps@.take(i + 1).drop_last() == ps@.take(i as int));
        let p = &ps[i];
        let ghost before = views(lines@);
        let reg = to_lowercase(p.registration.as_str());
        let link = to_lowercase(p.consumer_link.as_str());
        let mut first = crate::text::cat3("- ", p.name.as_str(), ": ");
        first.append(reg.as_str());
        first.append(", ");
        first.append(link.as_str());
        lines.push(first);
        lines.push(crate::text::cat("  planned: ", p.local_path.as_str()));
        let observed = bun_observed_text(evs, p.name.as_str(), dry_run);
        lines.push(crate::text::cat("  observed: ", observed.as_str()));
        assert(views(lines@) =~= before + package_lines(evs@, ps@[i as int], dry_run));
        i = i + 1;
    }
    assert(ps@.take(ps.len() as int) == ps@);
}

pub open spec fn peer_lines(p: BunPeerDiagnostic) -> Seq<Seq<char>> {
    seq!["- "@ + p.package@ + " -> "@ + p.peer@ + " "@ + p.requirement@ + ": "@ + p.status@] + match p.message {
        Some(m) => seq!["  "@ + m@],
        None => Seq::empty(),
    }
}

pub open spec fn peers_lines(ps: Seq<BunPeerDiagnostic>) -> Seq<Seq<char>>
    decreases ps.len(),
{
    if ps.len() == 0 {
        Seq::empty()
    } else {
        peers_lines(ps.drop_last()) + peer_lines(ps.last())
    }
}

fn push_peers(lines: &mut Vec<String>, ps: &Vec<BunPeerDiagnostic>)
    ensures
        views(final(lines)@) == views(old(lines)@) + peers_lines(ps@),
{
    let ghost start = views(lines@);
    let mut i: usize = 0;
    while i < ps.len()
        invariant
            i <= ps.len(),
            views(lines@) == start + peers_lines(ps@.take(i as int)),
        decreases ps.len() - i,
    {
        assert(ps@.take(i + 1).drop_last() == ps@.take(i as int));
        let p = &ps[i];
        let ghost before = views(lines@);
        let mut first = crate::text::cat3("- ", p.package.as_str(), " -> ");
        first.append(p.peer.as_str());
        first.append(" ");
        first.append(p.requirement.as_str());
        first.append(": ");
        first.append(p.status.as_str());
        lines.push(first);
        if let Some(m) = &p.message {
            lines.push(crate::text::cat("  ", m.as_str()));
        }
        assert(views(lines@) =~= before + peer_lines(ps@[i as int]));
        i = i + 1;
    }
    assert(ps@.take(ps.len() as int) == ps@);
}

fn push_intents(lines: &mut Vec<String>, items: &Vec<BunProcessIntent>)
    ensures
        views(final(lines)@) == views(old(lines)@) + items@.map_values(|i: BunProcessIntent| link_intent_text(i)),
{
    let ghost start = views(lines@);
    let mut k: usize = 0;
    while k < items.len()
        invariant
            k <= items.len(),
            views(lines@) == start + items@.take(k as int).map_values(|i: BunProcessIntent| link_intent_text(i)),
        decreases items.len() - k,
    {
        let line = link_intent_line(&items[k]);
        let ghost before = views(lines@);
        lines.push(line);
        assert(items@.take(k + 1).map_values(|i: BunProcessIntent| link_intent_text(i)) =~= items@.take(
            k as int,
        ).map_values(|i: BunProcessIntent| link_intent_text(i)).push(link_intent_text(items@[k as int])));
        assert(views(lines@) =~= before.push(line@));
        k = k + 1;
    }
    assert(items@.take(items.len() as int) == items@);
}

fn push_files(lines: &mut Vec<String>, items: &Vec<DepsImmutableFile>)
    ensures
        views(final(lines)@) == views(old(lines)@) + items@.map_values(|f: DepsImmutableFile| file_text(f)),
{
    let ghost start = views(lines@);
    let mut k: usize = 0;
    while k < items.len()
        invariant
            k <= items.len(),
            views(lines@) == start + items@.take(k as int).map_values(|f: DepsImmutableFile| file_text(f)),
        decreases items.len() - k,
    {
        let line = file_line(&items[k]);
        let ghost before = views(lines@);
        lines.push(line);
        assert(items@.take(k + 1).map_values(|f: DepsImmutableFile| file_text(f)) =~= items@.take(
            k as int,
        ).map_values(|f: DepsImmutableFile| file_text(f)).push(file_text(items@[k as int])));
        assert(views(lines@) =~= before.push(line@));
        k = k + 1;
    }
    assert(items@.take(items.len() as int) == items@);
}

/// The lines of a Bun link report: the processes it runs, the package
/// closure with what was observed, the files it must not change, then peer
/// diagnostics, warnings, rollback and errors where there are any.
pub open spec fn bun_link_lines(repo_root: Seq<char>, r: BunLinkReport) -> Seq<Seq<char>> {
    report_head("link bun"@, repo_root, r.library_path@, r.outcome@, r.verification_status@)
        + heading("Process intents"@, r.process_intents@.len()) + line_if(
        r.process_intents@.len() == 0,
        if r.committed_pin_active {
            "- none; a committed override blocks ephemeral linking"@
        } else {
            "- none; Bun links already match"@
        },
    ) + r.process_intents@.map_values(|i: BunProcessIntent| link_intent_text(i)) + heading(
        "Package closure"@,
        r.packages@.len(),
    ) + packages_lines(r.evidence@, r.packages@, r.dry_run) + heading(
        "Immutable files"@,
        r.immutable_files@.len(),
    ) + r.immutable_files@.map_values(|f: DepsImmutableFile| file_text(f)) + (if r.peer_diagnostics@.len()
        > 0 {
        heading("Peer diagnostics"@, r.peer_diagnostics@.len()) + peers_lines(r.peer_diagnostics@)
    } else {
        Seq::<Seq<char>>::empty()
    }) + section("Warnings"@, views(r.warnings@)) + line_if(r.rollback_attempted, Seq::empty())
        + line_if(
        r.rollback_attempted,
        "Rollback: consumer "@ + dec(r.rollback_consumer_links as nat) + ", registrations "@ + dec(
            r.rollback_registrations as nat,
        ) + ", files "@ + dec(r.rollback_files as nat) + ", failures "@ + dec(r.rollback_failures as nat),
    ) + section("Errors"@, views(r.errors@))
}

/// The text of a Bun link report.
pub fn render_bun_link(repo_root: &str, r: &BunLinkReport) -> (out: String)
    ensures
        out@ == join_seq(bun_link_lines(repo_root@, *r), "\n"@),
{
    let mut lines = head_lines("link bun", repo_root, r.library_path.as_str(), r.outcome.as_str(), r.verification_status.as_str());
    let ghost e0 = report_head("link bun"@, repo_root@, r.library_path@, r.outcome@, r.verification_status@);
    push_heading(&mut lines, "Process intents", r.process_intents.len());
    let ghost e1 = e0 + heading("Process intents"@, r.process_intents@.len());
    assert(views(lines@) == e1);
    if r.process_intents.len() == 0 {
        if r.committed_pin_active {
            lines.push("- none; a committed override blocks ephemeral linking".to_owned());
        } else {
            lines.push("- none; Bun links already match".to_owned());
        }
    }
    let ghost e2 = e1 + line_if(
        r.process_intents@.len() == 0,
        if r.committed_pin_active {
            "- none; a committed override blocks ephemeral linking"@
        } else {
            "- none; Bun links already match"@
        },
    );
    assert(views(lines@) =~= e2);
    push_intents(&mut lines, &r.process_intents);
    let ghost e3 = e2 + r.process_intents@.map_values(|i: BunProcessIntent| link_intent_text(i));
    assert(views(lines@) =~= e3);
    push_heading(&mut lines, "Package closure", r.packages.len());
    let ghost e4 = e3 + heading("Package closure"@, r.packages@.len());
    push_packages(&mut lines, &r.evidence, &r.packages, r.dry_run);
    let ghost e5 = e4 + packages_lines(r.evidence@, r.packages@, r.dry_run);
    push_heading(&mut lines, "Immutable files", r.immutable_files.len());
    let ghost e6 = e5 + heading("Immutable files"@, r.immutable_files@.len());
    push_files(&mut lines, &r.immutable_files);
    let ghost e7 = e6 + r.immutable_files@.map_values(|f: DepsImmutableFile| file_text(f));
    assert(views(lines@) =~= e7);
    if r.peer_diagnostics.len() > 0 {
        push_heading(&mut lines, "Peer diagnostics", r.peer_diagnostics.len());
        push_peers(&mut lines, &r.peer_diagnostics);
    }
    let ghost e8 = e7 + (if r.peer_diagnostics@.len() > 0 {
        heading("Peer diagnostics"@, r.peer_diagnostics@.len()) + peers_lines(r.peer_diagnostics@)
    } else {
        Seq::<Seq<char>>::empty()
    });
    assert(views(lines@) =~= e8);
    push_section(&mut lines, "Warnings", &r.warnings);
    let ghost e9 = e8 + section("Warnings"@, views(r.warnings@));
    if r.rollback_attempted {
        lines.push(String::new());
        let mut t = "Rollback: consumer ".to_owned();
        crate::text::push_dec(&mut t, r.rollback_consumer_links as u64);
        t.append(", registrations ");
        crate::text::push_dec(&mut t, r.rollback_registrations as u64);
        t.append(", files ");
        crate::text::push_dec(&mut t, r.rollback_files as u64);
        t.append(", failures ");
        crate::text::push_dec(&mut t, r.rollback_failures as u64);
        lines.push(t);
    }
    let ghost e10 = e9 + line_if(r.rollback_attempted, Seq::empty());
    let ghost e11 = e10 + line_if(
        r.rollback_attempted,
        "Rollback: consumer "@ + dec(r.rollback_consumer_links as nat) + ", registrations "@ + dec(
            r.rollback_registrations as nat,
        ) + ", files "@ + dec(r.rollback_files as nat) + ", failures "@ + dec(r.rollback_failures as nat),
    );
    assert(views(lines@) =~= e11);
    push_section(&mut lines, "Errors", &r.errors);
    assert(views(lines@) == e11 + section("Errors"@, views(r.errors@)));
    join(&lines, "\n")
}

/// A consumer symlink an unlink removes.
#[derive(Debug)]
pub struct BunSymlinkIntent {
    pub package: String,
    pub path: String,
    pub expected_target: String,
}

/// A package registration an unlink releases, and how, in its debug form.
#[derive(Debug)]
pub struct BunReleasePackage {
    pub name: String,
    pub reference_release: Option<String>,
}

/// The report of unlinking a local library from Bun dependencies.
#[derive(Debug)]
pub struct BunUnlinkReport {
    pub library_path: String,
    pub outcome: String,
    pub verification_status: String,
    pub symlink_intents: Vec<BunSymlinkIntent>,
    pub packages: Vec<BunReleasePackage>,
    pub process_intents: Vec<BunProcessIntent>,
    pub immutable_files: Vec<DepsImmutableFile>,
    pub warnings: Vec<String>,
    pub rollback_attempted: bool,
    pub rollback_consumer_links: usize,
    pub rollback_registrations: usize,
    pub rollback_failures: usize,
    pub errors: Vec<String>,
}

pub open spec fn symlink_text(i: BunSymlinkIntent) -> Seq<char> {
    "- "@ + i.package@ + ": "@ + i.path@ + " -> "@ + i.expected_target@
}

fn symlink_line(i: &BunSymlinkIntent) -> (r: String)
    ensures
        r@ == symlink_text(*i),
{
    let mut s = crate::text::cat3("- ", i.package.as_str(), ": ");
    s.append(i.path.as_str());
    s.append(" -> ");
    s.append(i.expected_target.as_str());
    s
}

pub open spec fn release_text(p: BunReleasePackage) -> Seq<char> {
    "- "@ + p.name@ + ": "@ + match p.reference_release {
        Some(r) => unicode_lower(r@),
        None => "none"@,
    }
}

fn release_line(p: &BunReleasePackage) -> (r: String)
    ensures
        r@ == release_text(*p),
{
    let mut s = crate::text::cat3("- ", p.name.as_str(), ": ");
    match &p.reference_release {
        Some(r) => {
            let low = to_lowercase(r.as_str());
            s.append(low.as_str());
        },
        None => s.append("none"),
    }
    s
}

pub open spec fn unregister_text(i: BunProcessIntent) -> Seq<char> {
    "- "@ + join_seq(views(i.packages@), ","@) + " @ "@ + i.cwd@ + ": "@ + i.program@ + " "@ + join_seq(
        views(i.args@),
        " "@,
    )
}

fn unregister_line(i: &BunProcessIntent) -> (r: String)
    ensures
        r@ == unregister_text(*i),
{
    let packages = join(&i.packages, ",");
    let args = join(&i.args, " ");
    let mut s = crate::text::cat("- ", packages.as_str());
    s.append(" @ ");
    s.append(i.cwd.as_str());
    s.append(": ");
    s.append(i.program.as_str());
    s.append(" ");
    s.append(args.as_str());
    s
}

fn push_symlinks(lines: &mut Vec<String>, items: &Vec<BunSymlinkIntent>)
    ensures
        views(final(lines)@) == views(old(lines)@) + items@.map_values(|i: BunSymlinkIntent| symlink_text(i)),
{
    let ghost start = views(lines@);
    let mut k: usize = 0;
    while k < items.len()
        invariant
            k <= items.len(),
            views(lines@) == start + items@.take(k as int).map_values(|i: BunSymlinkIntent| symlink_text(i)),
        decreases items.len() - k,
    {
        let line = symlink_line(&items[k]);
        let ghost before = views(lines@);
        lines.push(line);
        assert(items@.take(k + 1).map_values(|i: BunSymlinkIntent| symlink_text(i)) =~= items@.take(
            k as int,
        ).map_values(|i: BunSymlinkIntent| symlink_text(i)).push(symlink_text(items@[k as int])));
        assert(views(lines@) =~= before.push(line@));
        k = k + 1;
    }
    assert(items@.take(items.len() as int) == items@);
}

fn push_releases(lines: &mut Vec<String>, items: &Vec<BunReleasePackage>)
    ensures
        views(final(lines)@) == views(old(lines)@) + items@.map_values(|p: BunReleasePackage| release_text(p)),
{
    let ghost start = views(lines@);
    let mut k: usize = 0;
    while k < items.len()
        invariant
            k <= items.len(),
            views(lines@) == start + items@.take(k as int).map_values(|p: BunReleasePackage| release_text(p)),
        decreases items.len() - k,
    {
        let line = release_line(&items[k]);
        let ghost before = views(lines@);
        lines.push(line);
        assert(items@.take(k + 1).map_values(|p: BunReleasePackage| release_text(p)) =~= items@.take(
            k as int,
        ).map_values(|p: BunReleasePackage| release_text(p)).push(release_text(items@[k as int])));
        assert(views(lines@) =~= before.push(line@));
        k = k + 1;
    }
    assert(items@.take(items.len() as int) == items@);
}

fn push_unregisters(lines: &mut Vec<String>, items: &Vec<BunProcessIntent>)
    ensures
        views(final(lines)@) == views(old(lines)@) + items@.map_values(|i: BunProcessIntent| unregister_text(i)),
{
    let ghost start = views(lines@);
    let mut k: usize = 0;
    while k < items.len()
        invariant
            k <= items.len(),
            views(lines@) == start + items@.take(k as int).map_values(|i: BunProcessIntent| unregister_text(i)),
        decreases items.len() - k,
    {
        let line = unregister_line(&items[k]);
        let ghost before = views(lines@);
        lines.push(line);
        assert(items@.take(k + 1).map_values(|i: BunProcessIntent| unregister_text(i)) =~= items@.take(
            k as int,
        ).map_values(|i: BunProcessIntent| unregister_text(i)).push(unregister_text(items@[k as int])));
        assert(views(lines@) =~= before.push(line@));
        k = k + 1;
    }
    assert(items@.take(items.len() as int) == items@);
}

/// The lines of a Bun unlink report: the symlinks it removes, the
/// registrations it releases, the processes it runs and the files it must
/// not change, then notes, rollback and errors where there are any.
pub open spec fn bun_unlink_lines(repo_root: Seq<char>, r: BunUnlinkReport) -> Seq<Seq<char>> {
    report_head("unlink bun"@, repo_root, r.library_path@, r.outcome@, r.verification_status@)
        + heading("Consumer link removals"@, r.symlink_intents@.len()) + line_if(
        r.symlink_intents@.len() == 0,
        "- none; matching local symlinks are already absent"@,
    ) + r.symlink_intents@.map_values(|i: BunSymlinkIntent| symlink_text(i)) + heading(
        "Registration releases"@,
        r.packages@.len(),
    ) + r.packages@.map_values(|p: BunReleasePackage| release_text(p)) + heading(
        "Unregister processes"@,
        r.process_intents@.len(),
    ) + line_if(
        r.process_intents@.len() == 0,
        "- none; shared/foreign/unverifiable registrations retained"@,
    ) + r.process_intents@.map_values(|i: BunProcessIntent| unregister_text(i)) + heading(
        "Immutable files"@,
        r.immutable_files@.len(),
    ) + r.immutable_files@.map_values(|f: DepsImmutableFile| file_text(f)) + section(
        "Notes"@,
        views(r.warnings@),
    ) + line_if(r.rollback_attempted, Seq::empty()) + line_if(
        r.rollback_attempted,
        "Rollback: consumer "@ + dec(r.rollback_consumer_links as nat) + ", registrations "@ + dec(
            r.rollback_registrations as nat,
        ) + ", failures "@ + dec(r.rollback_failures as nat),
    ) + section("Errors"@, views(r.errors@))
}

fn rollback_counts_line(consumer: usize, registrations: usize, failures: usize) -> (t: String)
    ensures
        t@ == "Rollback: consumer "@ + dec(consumer as nat) + ", registrations "@ + dec(registrations as nat)
            + ", failures "@ + dec(failures as nat),
{
    let mut t = "Rollback: consumer ".to_owned();
    crate::text::push_dec(&mut t, consumer as u64);
    t.append(", registrations ");
    crate::text::push_dec(&mut t, registrations as u64);
    t.append(", failures ");
    crate::text::push_dec(&mut t, failures as u64);
    t
}

/// The text of a Bun unlink report.
pub fn render_bun_unlink(repo_root: &str, r: &BunUnlinkReport) -> (out: String)
    ensures
        out@ == join_seq(bun_unlink_lines(repo_root@, *r), "\n"@),
{
    let mut lines = head_lines("unlink bun", repo_root, r.library_path.as_str(), r.outcome.as_str(), r.verification_status.as_str());
    let ghost e0 = report_head("unlink bun"@, repo_root@, r.library_path@, r.outcome@, r.verification_status@);
    push_heading(&mut lines, "Consumer link removals", r.symlink_intents.len());
    if r.symlink_intents.len() == 0 {
        lines.push("- none; matching local symlinks are already absent".to_owned());
    }
    let ghost e1 = e0 + heading("Consumer link removals"@, r.symlink_intents@.len()) + line_if(
        r.symlink_intents@.len() == 0,
        "- none; matching local symlinks are already absent"@,
    );
    assert(views(lines@) =~= e1);
    push_symlinks(&mut lines, &r.symlink_intents);
    let ghost e2 = e1 + r.symlink_intents@.map_values(|i: BunSymlinkIntent| symlink_text(i));
    push_heading(&mut lines, "Registration releases", r.packages.len());
    let ghost e3 = e2 + heading("Registration releases"@, r.packages@.len());
    push_releases(&mut lines, &r.packages);
    let ghost e4 = e3 + r.packages@.map_values(|p: BunReleasePackage| release_text(p));
    push_heading(&mut lines, "Unregister processes", r.process_intents.len());
    let ghost e5 = e4 + heading("Unregister processes"@, r.process_intents@.len());
    assert(views(lines@) =~= e5);
    if r.process_intents.len() == 0 {
        lines.push("- none; shared/foreign/unverifiable registrations retained".to_owned());
    }
    let ghost e6 = e5 + line_if(
        r.process_intents@.len() == 0,
        "- none; shared/foreign/unverifiable registrations retained"@,
    );
    assert(views(lines@) =~= e6);
    push_unregisters(&mut lines, &r.process_intents);
    let ghost e7 = e6 + r.process_intents@.map_values(|i: BunProcessIntent| unregister_text(i));
    push_heading(&mut lines, "Immutable files", r.immutable_files.len());
    let ghost e8 = e7 + heading("Immutable files"@, r.immutable_files@.len());
    push_files(&mut lines, &r.immutable_files);
    let ghost e9 = e8 + r.immutable_files@.map_values(|f: DepsImmutableFile| file_text(f));
    push_section(&mut lines, "Notes", &r.warnings);
    let ghost e10 = e9 + section("Notes"@, views(r.warnings@));
    assert(views(lines@) =~= e10);
    if r.rollback_attempted {
        lines.push(String::new());
        let t = rollback_counts_line(r.rollback_consumer_links, r.rollback_registrations, r.rollback_failures);
        lines.push(t);
    }
    let ghost e11 = e10 + line_if(r.rollback_attempted, Seq::empty()) + line_if(
        r.rollback_attempted,
        "Rollback: consumer "@ + dec(r.rollback_consumer_links as nat) + ", registrations "@ + dec(
            r.rollback_registrations as nat,
        ) + ", failures "@ + dec(r.rollback_failures as nat),
    );
    assert(views(lines@) =~= e11);
    push_section(&mut lines, "Errors", &r.errors);
    assert(views(lines@) == e11 + section("Errors"@, views(r.errors@)));
    join(&lines, "\n")
}

/// What a link is configured to be.
#[derive(Debug)]
pub struct DepsLinkDesired {
    pub library_path: String,
    pub mechanism: String,
    pub consumer_roots: Vec<String>,
    pub packages: Vec<String>,
}

/// A way a link's physical state differs from what is configured.
#[derive(Debug)]
pub struct DepsDriftReason {
    /// `warning` or `error`.
    pub severity: String,
    pub code: String,
    pub message: String,
    pub package: Option<String>,
    pub evidence: Vec<String>,
    pub remediation: Option<String>,
}

/// A peer dependency check of a link's status.
#[derive(Debug)]
pub struct DepsStatusPeer {
    pub package: String,
    pub peer: String,
    pub requirement: String,
    pub status: String,
    pub consumer_resolution: Option<String>,
    pub local_resolution: Option<String>,
}

/// The status of one machine-local dependency link.
#[derive(Debug)]
pub struct DepsLinkStatus {
    pub manager: String,
    /// `missing`, `healthy`, `drifted` or `conflict`.
    pub state: String,
    pub desired: Option<DepsLinkDesired>,
    /// The verification status, in its debug form.
    pub verification_status: String,
    pub drift: Vec<DepsDriftReason>,
    pub peer_diagnostics: Vec<DepsStatusPeer>,
}

pub open spec fn opt_line(prefix: Seq<char>, o: Option<String>) -> Seq<Seq<char>> {
    match o {
        Some(v) => seq![prefix + v@],
        None => Seq::empty(),
    }
}

/// The lines of one drift reason.
pub open spec fn drift_lines(d: DepsDriftReason) -> Seq<Seq<char>> {
    seq!["- ["@ + d.severity@ + "] "@ + d.code@ + ": "@ + d.message@] + opt_line("  package: "@, d.package)
        + views(d.evidence@).map_values(|e: Seq<char>| "  evidence: "@ + e) + opt_line(
        "  remediation: "@,
        d.remediation,
    )
}

pub open spec fn drifts_lines(ds: Seq<DepsDriftReason>) -> Seq<Seq<char>>
    decreases ds.len(),
{
    if ds.len() == 0 {
        Seq::empty()
    } else {
        drifts_lines(ds.drop_last()) + drift_lines(ds.last())
    }
}

/// The lines of one peer check of a link's status.
pub open spec fn status_peer_lines(p: DepsStatusPeer) -> Seq<Seq<char>> {
    seq!["- "@ + p.package@ + " -> "@ + p.peer@ + " "@ + p.requirement@ + ": "@ + p.status@] + opt_line(
        "  consumer: "@,
        p.consumer_resolution,
    ) + opt_line("  local: "@, p.local_resolution)
}

pub open spec fn status_peers_lines(ps: Seq<DepsStatusPeer>) -> Seq<Seq<char>>
    decreases ps.len(),
{
    if ps.len() == 0 {
        Seq::empty()
    } else {
        status_peers_lines(ps.drop_last()) + status_peer_lines(ps.last())
    }
}

/// The lines of one link's status: its manager, state and library, what is
/// configured, its verification status, drift and peer checks.
pub open spec fn desired_library(d: Option<DepsLinkDesired>) -> Seq<char> {
    match d {
        Some(d) => d.library_path@,
        None => "unowned physical state"@,
    }
}

pub open spec fn desired_lines(d: Option<DepsLinkDesired>) -> Seq<Seq<char>> {
    match d {
        Some(d) => seq![
            "desired: linked"@,
            "mechanism: "@ + d.mechanism@,
            "consumers: "@ + join_seq(views(d.consumer_roots@), ", "@),
            "packages: "@ + join_seq(views(d.packages@), ", "@),
        ],
        None => Seq::empty(),
    }
}

pub open spec fn link_status_lines(l: DepsLinkStatus) -> Seq<Seq<char>> {
    seq![Seq::<char>::empty(), "["@ + l.manager@ + "] "@ + l.state@ + ": "@ + desired_library(l.desired)]
        + desired_lines(l.desired) + seq![unicode_lower("verification: "@ + l.verification_status@)] + drifts_lines(l.drift@) + if l.peer_diagnostics@.len()
        > 0 {
        seq!["peer diagnostics: "@ + dec(l.peer_diagnostics@.len())] + status_peers_lines(l.peer_diagnostics@)
    } else {
        Seq::empty()
    }
}

fn push_opt_line(lines: &mut Vec<String>, prefix: &str, o: &Option<String>)
    ensures
        views(final(lines)@) == views(old(lines)@) + opt_line(prefix@, *o),
{
    if let Some(v) = o {
        lines.push(crate::text::cat(prefix, v.as_str()));
    }
}

fn push_drift(lines: &mut Vec<String>, d: &DepsDriftReason)
    ensures
        views(final(lines)@) == views(old(lines)@) + drift_lines(*d),
{
    let ghost start = views(lines@);
    let mut first = crate::text::cat3("- [", d.severity.as_str(), "] ");
    first.append(d.code.as_str());
    first.append(": ");
    first.append(d.message.as_str());
    lines.push(first);
    push_opt_line(lines, "  package: ", &d.package);
    let more = prefixed(&d.evidence, "  evidence: ");
    append_all(lines, more);
    push_opt_line(lines, "  remediation: ", &d.remediation);
    assert(views(lines@) =~= start + drift_lines(*d));
}

fn push_drifts(lines: &mut Vec<String>, ds: &Vec<DepsDriftReason>)
    ensures
        views(final(lines)@) == views(old(lines)@) + drifts_lines(ds@),
{
    let ghost start = views(lines@);
    let mut i: usize = 0;
    while i < ds.len()
        invariant
            i <= ds.len(),
            views(lines@) == start + drifts_lines(ds@.take(i as int)),
        decreases ds.len() - i,
    {
        assert(ds@.take(i + 1).drop_last() == ds@.take(i as int));
        push_drift(lines, &ds[i]);
        assert(views(lines@) =~= start + drifts_lines(ds@.take(i + 1)));
        i = i + 1;
    }
    assert(ds@.take(ds.len() as int) == ds@);
}

fn push_status_peers(lines: &mut Vec<String>, ps: &Vec<DepsStatusPeer>)
    ensures
        views(final(lines)@) == views(old(lines)@) + status_peers_lines(ps@),
{
    let ghost start = views(lines@);
    let mut i: usize = 0;
    while i < ps.len()
        invariant
            i <= ps.len(),
            views(lines@) == start + status_peers_lines(ps@.take(i as int)),
        decreases ps.len() - i,
    {
        assert(ps@.take(i + 1).drop_last() == ps@.take(i as int));
        let p = &ps[i];
        let ghost before = views(lines@);
        let mut first = crate::text::cat3("- ", p.package.as_str(), " -> ");
        first.append(p.peer.as_str());
        first.append(" ");
        first.append(p.requirement.as_str());
        first.append(": ");
        first.append(p.status.as_str());
        lines.push(first);
        push_opt_line(lines, "  consumer: ", &p.consumer_resolution);
        push_opt_line(lines, "  local: ", &p.local_resolution);
        assert(views(lines@) =~= before + status_peer_lines(ps@[i as int]));
        i = i + 1;
    }
    assert(ps@.take(ps.len() as int) == ps@);
}

/// Appends the lines of one link's status.
pub fn render_link_text(lines: &mut Vec<String>, link: &DepsLinkStatus)
    ensures
        views(final(lines)@) == views(old(lines)@) + link_status_lines(*link),
{
    let ghost start = views(lines@);
    lines.push(String::new());
    let mut head = crate::text::cat3("[", link.manager.as_str(), "] ");
    head.append(link.state.as_str());
    head.append(": ");
    match &link.desired {
        Some(d) => head.append(d.library_path.as_str()),
        None => head.append("unowned physical state"),
    }
    lines.push(head);
    let ghost e1 = start + seq![Seq::<char>::empty(), "["@ + link.manager@ + "] "@ + link.state@ + ": "@ + desired_library(link.desired)];
    assert(views(lines@) =~= e1);
    if let Some(d) = &link.desired {
        lines.push("desired: linked".to_owned());
        lines.push(crate::text::cat("mechanism: ", d.mechanism.as_str()));
        let consumers = join(&d.consumer_roots, ", ");
        lines.push(crate::text::cat("consumers: ", consumers.as_str()));
        let packages = join(&d.packages, ", ");
        lines.push(crate::text::cat("packages: ", packages.as_str()));
    }
    let ghost e2 = e1 + desired_lines(link.desired);
    assert(views(lines@) =~= e2);
    let v = crate::text::cat("verification: ", link.verification_status.as_str());
    lines.push(to_lowercase(v.as_str()));
    let ghost e3 = e2 + seq![unicode_lower("verification: "@ + link.verification_status@)];
    assert(views(lines@) =~= e3);
    push_drifts(lines, &link.drift);
    let ghost e4 = e3 + drifts_lines(link.drift@);
    assert(views(lines@) =~= e4);
    if link.peer_diagnostics.len() > 0 {
        let mut h = "peer diagnostics: ".to_owned();
        crate::text::push_dec(&mut h, link.peer_diagnostics.len() as u64);
        lines.push(h);
        push_status_peers(lines, &link.peer_diagnostics);
    }
    assert(views(lines@) =~= e4 + if link.peer_diagnostics@.len() > 0 {
        seq!["peer diagnostics: "@ + dec(link.peer_diagnostics@.len())] + status_peers_lines(link.peer_diagnostics@)
    } else {
        Seq::empty()
    });
    assert(views(lines@) =~= start + link_status_lines(*link));
}

/// The text of `deps status`: the repository, the manager filter, the
/// number of links, then each link's status.
pub open spec fn deps_status_lines(repo_root: Seq<char>, manager: Option<Seq<char>>, links: Seq<DepsLinkStatus>) -> Seq<Seq<char>> {
    seq![
        "[deps] status"@,
        "repo: "@ + repo_root,
        "manager: "@ + match manager {
            Some(m) => m,
            None => "all"@,
        },
        "links: "@ + dec(links.len()),
    ] + if links.len() == 0 {
        seq!["no machine-local dependency links configured"@]
    } else {
        links_status_lines(links)
    }
}

pub open spec fn links_status_lines(links: Seq<DepsLinkStatus>) -> Seq<Seq<char>>
    decreases links.len(),
{
    if links.len() == 0 {
        Seq::empty()
    } else {
        links_status_lines(links.drop_last()) + link_status_lines(links.last())
    }
}

pub open spec fn opt_str(o: Option<&str>) -> Option<Seq<char>> {
    match o {
        Some(m) => Some(m@),
        None => None,
    }
}

/// The text of `deps status` for the links shown.
pub fn render_deps_status(repo_root: &str, manager: Option<&str>, links: &Vec<DepsLinkStatus>) -> (out: String)
    ensures
        out@ == join_seq(deps_status_lines(repo_root@, opt_str(manager), links@), "\n"@),
{
    let mut header = "links: ".to_owned();
    crate::text::push_dec(&mut header, links.len() as u64);
    let mut lines = vec![
        "[deps] status".to_owned(),
        crate::text::cat("repo: ", repo_root),
        crate::text::cat("manager: ", match manager {
            Some(m) => m,
            None => "all",
        }),
        header,
    ];
    let ghost head = seq![
        "[deps] status"@,
        "repo: "@ + repo_root@,
        "manager: "@ + match manager {
            Some(m) => m@,
            None => "all"@,
        },
        "links: "@ + dec(links@.len()),
    ];
    assert(views(lines@) =~= head);
    if links.len() == 0 {
        lines.push("no machine-local dependency links configured".to_owned());
        assert(views(lines@) =~= deps_status_lines(repo_root@, opt_str(manager), links@));
        return join(&lines, "\n");
    }
    let mut i: usize = 0;
    while i < links.len()
        invariant
            i <= links.len(),
            views(lines@) == head + links_status_lines(links@.take(i as int)),
        decreases links.len() - i,
    {
        assert(links@.take(i + 1).drop_last() == links@.take(i as int));
        render_link_text(&mut lines, &links[i]);
        assert(views(lines@) =~= head + links_status_lines(links@.take(i + 1)));
        i = i + 1;
    }
    assert(links@.take(links.len() as int) == links@);
    assert(views(lines@) =~= deps_status_lines(repo_root@, opt_str(manager), links@));
    join(&lines, "\n")
}

/// How many links are in each state, and how many drift findings are
/// warnings and errors.
#[derive(Debug, Clone, Copy, PartialEq, Eq)]
pub struct DepsStatusSummary {
    pub total: usize,
    pub missing: usize,
    pub healthy: usize,
    pub drifted: usize,
    pub conflict: usize,
    pub warnings: usize,
    pub errors: usize,
}

/// How many links are in `state`.
pub open spec fn state_count(links: Seq<DepsLinkStatus>, state: Seq<char>) -> nat
    decreases links.len(),
{
    if links.len() == 0 {
        0
    } else {
        state_count(links.drop_last(), state) + if links.last().state@ == state {
            1nat
        } else {
            0nat
        }
    }
}

/// How many drift findings of `severity` one link has.
pub open spec fn severity_count(ds: Seq<DepsDriftReason>, severity: Seq<char>) -> nat
    decreases ds.len(),
{
    if ds.len() == 0 {
        0
    } else {
        severity_count(ds.drop_last(), severity) + if ds.last().severity@ == severity {
            1nat
        } else {
            0nat
        }
    }
}

/// How many drift findings of `severity` all links have.
pub open spec fn links_severity_count(links: Seq<DepsLinkStatus>, severity: Seq<char>) -> nat
    decreases links.len(),
{
    if links.len() == 0 {
        0
    } else {
        links_severity_count(links.drop_last(), severity) + severity_count(links.last().drift@, severity)
    }
}

pub proof fn lemma_state_count_bound(links: Seq<DepsLinkStatus>, state: Seq<char>)
    ensures
        state_count(links, state) <= links.len(),
    decreases links.len(),
{
    if links.len() > 0 {
        lemma_state_count_bound(links.drop_last(), state);
    }
}

/// Every link is in at most one of the four states, so the per-state
/// counts of a status summary never add up to more than the links.
pub proof fn lemma_state_counts_within_total(links: Seq<DepsLinkStatus>)
    ensures
        state_count(links, "missing"@) + state_count(links, "healthy"@) + state_count(links, "drifted"@)
            + state_count(links, "conflict"@) <= links.len(),
    decreases links.len(),
{
    reveal_strlit("missing");
    reveal_strlit("healthy");
    reveal_strlit("drifted");
    reveal_strlit("conflict");
    assert("missing"@[0] != "healthy"@[0]);
    assert("missing"@[0] != "drifted"@[0]);
    assert("missing"@[0] != "conflict"@[0]);
    assert("healthy"@[0] != "drifted"@[0]);
    assert("healthy"@[0] != "conflict"@[0]);
    assert("drifted"@[0] != "conflict"@[0]);
    if links.len() > 0 {
        lemma_state_counts_within_total(links.drop_last());
    }
}

fn count_state(links: &Vec<DepsLinkStatus>, state: &str) -> (n: usize)
    ensures
        n == state_count(links@, state@),
{
    let mut n: usize = 0;
    let mut i: usize = 0;
    while i < links.len()
        invariant
            i <= links.len(),
            n == state_count(links@.take(i as int), state@),
        decreases links.len() - i,
    {
        assert(links@.take(i + 1).drop_last() == links@.take(i as int));
        proof {
            lemma_state_count_bound(links@.take(i as int), state@);
        }
        if str_eq(links[i].state.as_str(), state) {
            n = n + 1;
        }
        i = i + 1;
    }
    assert(links@.take(links.len() as int) == links@);
    n
}

fn count_severity(ds: &Vec<DepsDriftReason>, severity: &str) -> (n: usize)
    ensures
        n == severity_count(ds@, severity@),
        n <= ds.len(),
{
    let mut n: usize = 0;
    let mut i: usize = 0;
    while i < ds.len()
        invariant
            i <= ds.len(),
            n <= i,
            n == severity_count(ds@.take(i as int), severity@),
        decreases ds.len() - i,
    {
        assert(ds@.take(i + 1).drop_last() == ds@.take(i as int));
        if str_eq(ds[i].severity.as_str(), severity) {
            n = n + 1;
        }
        i = i + 1;
    }
    assert(ds@.take(ds.len() as int) == ds@);
    n
}

/// The summary of a status report: links per state, and drift findings
/// per severity. `None` only where the finding counts do not fit in `usize`.
pub fn status_summary(links: &Vec<DepsLinkStatus>) -> (r: Option<DepsStatusSummary>)
    ensures
        match r {
            Some(s) => {
                &&& s.total == links@.len()
                &&& s.missing == state_count(links@, "missing"@)
                &&& s.healthy == state_count(links@, "healthy"@)
                &&& s.drifted == state_count(links@, "drifted"@)
                &&& s.conflict == state_count(links@, "conflict"@)
                &&& s.warnings == links_severity_count(links@, "warning"@)
                &&& s.errors == links_severity_count(links@, "error"@)
            },
            None => links_severity_count(links@, "warning"@) > usize::MAX || links_severity_count(
                links@,
                "error"@,
            ) > usize::MAX,
        },
{
    let mut warnings: usize = 0;
    let mut errors: usize = 0;
    let mut i: usize = 0;
    while i < links.len()
        invariant
            i <= links.len(),
            warnings == links_severity_count(links@.take(i as int), "warning"@),
            errors == links_severity_count(links@.take(i as int), "error"@),
        decreases links.len() - i,
    {
        assert(links@.take(i + 1).drop_last() == links@.take(i as int));
        let w = count_severity(&links[i].drift, "warning");
        let e = count_severity(&links[i].drift, "error");
        if w > usize::MAX - warnings || e > usize::MAX - errors {
            proof {
                lemma_severity_prefix(links@, "warning"@, i as int + 1);
                lemma_severity_prefix(links@, "error"@, i as int + 1);
            }
            return None;
        }
        warnings = warnings + w;
        errors = errors + e;
        i = i + 1;
    }
    assert(links@.take(links.len() as int) == links@);
    Some(DepsStatusSummary {
        total: links.len(),
        missing: count_state(links, "missing"),
        healthy: count_state(links, "healthy"),
        drifted: count_state(links, "drifted"),
        conflict: count_state(links, "conflict"),
        warnings,
        errors,
    })
}

/// Counting findings over a prefix never counts more than over the whole.
pub proof fn lemma_severity_prefix(links: Seq<DepsLinkStatus>, severity: Seq<char>, k: int)
    requires
        0 <= k <= links.len(),
    ensures
        links_severity_count(links.take(k), severity) <= links_severity_count(links, severity),
    decreases links.len(),
{
    if k < links.len() {
        assert(links.drop_last().take(k) == links.take(k));
        lemma_severity_prefix(links.drop_last(), severity, k);
    } else {
        assert(links.take(k) == links);
    }
}

/// Whether a Bun override is committed or removed.
#[derive(Debug, Clone, Copy, PartialEq, Eq)]
pub enum BunPinOperation {
    Pin,
    Unpin,
}

/// How a Bun pin or unpin ended.
#[derive(Debug, Clone, Copy, PartialEq, Eq)]
pub enum BunPinOutcome {
    Applied,
    DryRun,
    AlreadyApplied,
    NoMatch,
    Conflict,
    ApplyFailed,
}

/// What a pin does to one package's override.
#[derive(Debug, Clone, Copy, PartialEq, Eq)]
pub enum BunPinPackageAction {
    Add,
    Remove,
    AlreadyApplied,
    Conflict,
}

/// How far a pin was verified.
#[derive(Debug, Clone, Copy, PartialEq, Eq)]
pub enum BunPinVerificationStatus {
    NotRun,
    ManifestVerified,
    Failed,
}

/// A package a pin plans, with its override before and after.
#[derive(Debug)]
pub struct BunPinPackage {
    pub name: String,
    pub action: BunPinPackageAction,
    pub local_path: String,
    pub before: Option<String>,
    pub after: Option<String>,
}

/// A warning of a pin plan.
#[derive(Debug)]
pub struct BunPinWarning {
    pub code: String,
    pub message: String,
}

/// The report of committing or removing a Bun override of a local library.
#[derive(Debug)]
pub struct BunPinReport {
    pub operation: BunPinOperation,
    pub repo_root: String,
    pub manifest_path: String,
    pub library_path: String,
    pub dry_run: bool,
    pub outcome: BunPinOutcome,
    /// The outcome in its text form.
    pub outcome_text: String,
    pub packages: Vec<BunPinPackage>,
    /// The files written (each an update).
    pub writes: Vec<String>,
    pub verification: BunPinVerificationStatus,
    pub install_pending: bool,
    pub immutable_files: Vec<DepsImmutableFile>,
    pub warnings: Vec<BunPinWarning>,
    pub errors: Vec<String>,
}

pub open spec fn operation_text(op: BunPinOperation) -> Seq<char> {
    match op {
        BunPinOperation::Pin => "pin"@,
        BunPinOperation::Unpin => "unpin"@,
    }
}

/// The name of a pin operation.
pub fn operation_name(op: BunPinOperation) -> (r: &'static str)
    ensures
        r@ == operation_text(op),
{
    match op {
        BunPinOperation::Pin => "pin",
        BunPinOperation::Unpin => "unpin",
    }
}

pub open spec fn package_action_text(a: BunPinPackageAction) -> Seq<char> {
    match a {
        BunPinPackageAction::Add => "add"@,
        BunPinPackageAction::Remove => "remove"@,
        BunPinPackageAction::AlreadyApplied => "already-applied"@,
        BunPinPackageAction::Conflict => "conflict"@,
    }
}

/// The name of what a pin did to a package.
pub fn package_action_name(a: BunPinPackageAction) -> (r: &'static str)
    ensures
        r@ == package_action_text(a),
{
    match a {
        BunPinPackageAction::Add => "add",
        BunPinPackageAction::Remove => "remove",
        BunPinPackageAction::AlreadyApplied => "already-applied",
        BunPinPackageAction::Conflict => "conflict",
    }
}

pub open spec fn verification_text(v: BunPinVerificationStatus) -> Seq<char> {
    match v {
        BunPinVerificationStatus::NotRun => "not-run"@,
        BunPinVerificationStatus::ManifestVerified => "manifest-verified"@,
        BunPinVerificationStatus::Failed => "failed"@,
    }
}

/// The name of a pin verification status.
pub fn verification_name(v: BunPinVerificationStatus) -> (r: &'static str)
    ensures
        r@ == verification_text(v),
{
    match v {
        BunPinVerificationStatus::NotRun => "not-run",
        BunPinVerificationStatus::ManifestVerified => "manifest-verified",
        BunPinVerificationStatus::Failed => "failed",
    }
}

pub open spec fn bool_text(b: bool) -> Seq<char> {
    if b {
        "true"@
    } else {
        "false"@
    }
}

/// What to do after a pin or unpin, by how it ended.
pub open spec fn pin_next_actions(r: BunPinReport) -> Seq<Seq<char>> {
    match r.outcome {
        BunPinOutcome::Applied => seq![
            "run `bun install` in `"@ + r.repo_root@ + "` and review the resulting lockfile separately"@,
        ],
        BunPinOutcome::DryRun => seq![
            "re-run `effigy deps "@ + operation_text(r.operation) + " bun "@ + r.library_path@
                + "` without `--dry-run`"@,
            "then run `bun install` and review the resulting lockfile separately"@,
        ],
        BunPinOutcome::AlreadyApplied => seq!["run `bun install` if the committed override has not yet been resolved"@],
        BunPinOutcome::NoMatch => seq![
            "confirm the consumer graph contains a named package from the library checkout"@,
        ],
        BunPinOutcome::Conflict => views(r.errors@).push("resolve the conflict, then re-run the same command"@),
        BunPinOutcome::ApplyFailed => seq![
            "repair the reported manifest or lockfile problem, then re-run the same command"@,
        ],
    }
}

/// What to do after a pin or unpin (`pin_next_actions`).
pub fn next_actions(r: &BunPinReport) -> (out: Vec<String>)
    ensures
        views(out@) == pin_next_actions(*r),
{
    match r.outcome {
        BunPinOutcome::Applied => {
            let a = crate::text::cat3("run `bun install` in `", r.repo_root.as_str(), "` and review the resulting lockfile separately");
            let out = vec![a];
            assert(views(out@) =~= pin_next_actions(*r));
            out
        },
        BunPinOutcome::DryRun => {
            let mut a = crate::text::cat3("re-run `effigy deps ", operation_name(r.operation), " bun ");
            a.append(r.library_path.as_str());
            a.append("` without `--dry-run`");
            let out = vec![a, owned("then run `bun install` and review the resulting lockfile separately")];
            assert(views(out@) =~= pin_next_actions(*r));
            out
        },
        BunPinOutcome::AlreadyApplied => {
            let out = vec![owned("run `bun install` if the committed override has not yet been resolved")];
            assert(views(out@) =~= pin_next_actions(*r));
            out
        },
        BunPinOutcome::NoMatch => {
            let out = vec![owned("confirm the consumer graph contains a named package from the library checkout")];
            assert(views(out@) =~= pin_next_actions(*r));
            out
        },
        BunPinOutcome::Conflict => {
            let mut out = prefixed(&r.errors, "");
            proof {
                reveal_strlit("");
                assert forall|j: int| 0 <= j < views(out@).len() implies views(out@)[j] == views(r.errors@)[j] by {
                    assert(""@ + views(r.errors@)[j] =~= views(r.errors@)[j]);
                }
            }
            assert(views(out@) =~= views(r.errors@));
            out.push(owned("resolve the conflict, then re-run the same command"));
            assert(views(out@) =~= pin_next_actions(*r));
            out
        },
        BunPinOutcome::ApplyFailed => {
            let out = vec![owned("repair the reported manifest or lockfile problem, then re-run the same command")];
            assert(views(out@) =~= pin_next_actions(*r));
            out
        },
    }
}

pub open spec fn or_absent(o: Option<String>) -> Seq<char> {
    match o {
        Some(v) => v@,
        None => "<absent>"@,
    }
}

pub open spec fn pin_package_lines(p: BunPinPackage) -> Seq<Seq<char>> {
    seq![
        "- "@ + p.name@ + ": "@ + package_action_text(p.action),
        "  local: "@ + p.local_path@,
        "  before: "@ + or_absent(p.before),
        "  after: "@ + or_absent(p.after),
    ]
}

pub open spec fn pin_packages_lines(ps: Seq<BunPinPackage>) -> Seq<Seq<char>>
    decreases ps.len(),
{
    if ps.len() == 0 {
        Seq::empty()
    } else {
        pin_packages_lines(ps.drop_last()) + pin_package_lines(ps.last())
    }
}

fn absent_or(o: &Option<String>) -> (r: &str)
    ensures
        r@ == or_absent(*o),
{
    match o {
        Some(v) => v.as_str(),
        None => "<absent>",
    }
}

fn push_pin_packages(lines: &mut Vec<String>, ps: &Vec<BunPinPackage>)
    ensures
        views(final(lines)@) == views(old(lines)@) + pin_packages_lines(ps@),
{
    let ghost start = views(lines@);
    let mut i: usize = 0;
    while i < ps.len()
        invariant
            i <= ps.len(),
            views(lines@) == start + pin_packages_lines(ps@.take(i as int)),
        decreases ps.len() - i,
    {
        assert(ps@.take(i + 1).drop_last() == ps@.take(i as int));
        let p = &ps[i];
        let ghost before = views(lines@);
        let mut first = crate::text::cat3("- ", p.name.as_str(), ": ");
        first.append(package_action_name(p.action));
        lines.push(first);
        lines.push(crate::text::cat("  local: ", p.local_path.as_str()));
        lines.push(crate::text::cat("  before: ", absent_or(&p.before)));
        lines.push(crate::text::cat("  after: ", absent_or(&p.after)));
        assert(views(lines@) =~= before + pin_package_lines(ps@[i as int]));
        i = i + 1;
    }
    assert(ps@.take(ps.len() as int) == ps@);
}

pub open spec fn warning_text(w: BunPinWarning) -> Seq<char> {
    "- ["@ + w.code@ + "] "@ + w.message@
}

fn push_pin_warnings(lines: &mut Vec<String>, ws: &Vec<BunPinWarning>)
    ensures
        views(final(lines)@) == views(old(lines)@) + ws@.map_values(|w: BunPinWarning| warning_text(w)),
{
    let ghost start = views(lines@);
    let mut k: usize = 0;
    while k < ws.len()
        invariant
            k <= ws.len(),
            views(lines@) == start + ws@.take(k as int).map_values(|w: BunPinWarning| warning_text(w)),
        decreases ws.len() - k,
    {
        let mut line = crate::text::cat3("- [", ws[k].code.as_str(), "] ");
        line.append(ws[k].message.as_str());
        let ghost before = views(lines@);
        lines.push(line);
        assert(ws@.take(k + 1).map_values(|w: BunPinWarning| warning_text(w)) =~= ws@.take(k as int).map_values(
            |w: BunPinWarning| warning_text(w),
        ).push(warning_text(ws@[k as int])));
        assert(views(lines@) =~= before.push(line@));
        k = k + 1;
    }
    assert(ws@.take(ws.len() as int) == ws@);
}

/// The lines of a Bun pin or unpin report: the plan per package, the
/// writes, the verification, warnings and errors, then what to do next.
pub open spec fn bun_pin_lines(r: BunPinReport) -> Seq<Seq<char>> {
    seq![
        "[deps] "@ + operation_text(r.operation) + " bun"@,
        "repo: "@ + r.repo_root@,
        "manifest: "@ + r.manifest_path@,
        "library: "@ + r.library_path@,
        "dry-run: "@ + bool_text(r.dry_run),
        "outcome: "@ + r.outcome_text@,
    ] + heading("Package plan"@, r.packages@.len()) + line_if(r.packages@.len() == 0, "- none"@)
        + pin_packages_lines(r.packages@) + heading("Writes"@, r.writes@.len()) + line_if(
        r.writes@.len() == 0,
        "- none"@,
    ) + views(r.writes@).map_values(|w: Seq<char>| "- update: "@ + w) + seq![
        Seq::<char>::empty(),
        "Verification: "@ + verification_text(r.verification),
        "dependency install pending: "@ + bool_text(r.install_pending),
    ] + r.immutable_files@.map_values(|f: DepsImmutableFile| file_text(f)) + (if r.warnings@.len() > 0 {
        heading("Warnings"@, r.warnings@.len()) + r.warnings@.map_values(|w: BunPinWarning| warning_text(w))
    } else {
        Seq::empty()
    }) + section("Errors"@, views(r.errors@)) + seq![Seq::<char>::empty(), "Next actions"@]
        + pin_next_actions(r).map_values(|a: Seq<char>| "- "@ + a)
}

fn bool_str(b: bool) -> (r: &'static str)
    ensures
        r@ == bool_text(b),
{
    if b {
        "true"
    } else {
        "false"
    }
}

/// The text of a Bun pin or unpin report.
pub fn render_bun_pin(r: &BunPinReport) -> (out: String)
    ensures
        out@ == join_seq(bun_pin_lines(*r), "\n"@),
{
    let op = operation_name(r.operation);
    let head = crate::text::cat3("[deps] ", op, " bun");
    let mut lines = vec![
        head,
        crate::text::cat("repo: ", r.repo_root.as_str()),
        crate::text::cat("manifest: ", r.manifest_path.as_str()),
        crate::text::cat("library: ", r.library_path.as_str()),
        crate::text::cat("dry-run: ", bool_str(r.dry_run)),
        crate::text::cat("outcome: ", r.outcome_text.as_str()),
    ];
    let ghost e0 = seq![
        "[deps] "@ + operation_text(r.operation) + " bun"@,
        "repo: "@ + r.repo_root@,
        "manifest: "@ + r.manifest_path@,
        "library: "@ + r.library_path@,
        "dry-run: "@ + bool_text(r.dry_run),
        "outcome: "@ + r.outcome_text@,
    ];
    assert(views(lines@) =~= e0);
    push_heading(&mut lines, "Package plan", r.packages.len());
    if r.packages.len() == 0 {
        lines.push(owned("- none"));
    }
    let ghost e1 = e0 + heading("Package plan"@, r.packages@.len()) + line_if(r.packages@.len() == 0, "- none"@);
    assert(views(lines@) =~= e1);
    push_pin_packages(&mut lines, &r.packages);
    let ghost e2 = e1 + pin_packages_lines(r.packages@);
    push_heading(&mut lines, "Writes", r.writes.len());
    if r.writes.len() == 0 {
        lines.push(owned("- none"));
    }
    let ghost e3 = e2 + heading("Writes"@, r.writes@.len()) + line_if(r.writes@.len() == 0, "- none"@);
    assert(views(lines@) =~= e3);
    let writes = prefixed(&r.writes, "- update: ");
    append_all(&mut lines, writes);
    let ghost e4 = e3 + views(r.writes@).map_values(|w: Seq<char>| "- update: "@ + w);
    assert(views(lines@) =~= e4);
    lines.push(String::new());
    lines.push(crate::text::cat("Verification: ", verification_name(r.verification)));
    lines.push(crate::text::cat("dependency install pending: ", bool_str(r.install_pending)));
    let ghost e5 = e4 + seq![
        Seq::<char>::empty(),
        "Verification: "@ + verification_text(r.verification),
        "dependency install pending: "@ + bool_text(r.install_pending),
    ];
    assert(views(lines@) =~= e5);
    push_files(&mut lines, &r.immutable_files);
    let ghost e6 = e5 + r.immutable_files@.map_values(|f: DepsImmutableFile| file_text(f));
    if r.warnings.len() > 0 {
        push_heading(&mut lines, "Warnings", r.warnings.len());
        push_pin_warnings(&mut lines, &r.warnings);
    }
    let ghost e7 = e6 + (if r.warnings@.len() > 0 {
        heading("Warnings"@, r.warnings@.len()) + r.warnings@.map_values(|w: BunPinWarning| warning_text(w))
    } else {
        Seq::<Seq<char>>::empty()
    });
    assert(views(lines@) =~= e7);
    push_section(&mut lines, "Errors", &r.errors);
    let ghost e8 = e7 + section("Errors"@, views(r.errors@));
    lines.push(String::new());
    lines.push(owned("Next actions"));
    let ghost e9 = e8 + seq![Seq::<char>::empty(), "Next actions"@];
    assert(views(lines@) =~= e9);
    let actions = next_actions(r);
    let shown = prefixed(&actions, "- ");
    append_all(&mut lines, shown);
    assert(views(lines@) =~= bun_pin_lines(*r));
    join(&lines, "\n")
}

/// The links a `--manager` filter keeps: those of that manager, in order;
/// all of them without a filter.
pub open spec fn links_of_manager(links: Seq<DepsLinkStatus>, manager: Option<Seq<char>>) -> Seq<DepsLinkStatus> {
    match manager {
        Some(m) => links.filter(of_manager(m)),
        None => links,
    }
}

/// Whether a link belongs to manager `m`.
pub open spec fn of_manager(m: Seq<char>) -> spec_fn(DepsLinkStatus) -> bool {
    |l: DepsLinkStatus| l.manager@ == m
}

/// Keeps the links of the manager asked for.
pub fn retain_manager_links(links: Vec<DepsLinkStatus>, manager: Option<&str>) -> (r: Vec<DepsLinkStatus>)
    ensures
        r@ == links_of_manager(links@, opt_str(manager)),
{
    let m = match manager {
        Some(m) => m,
        None => return links,
    };
    let ghost pred = of_manager(m@);
    let mut kept: Vec<DepsLinkStatus> = Vec::new();
    let mut rest = links;
    let ghost all = rest@;
    let n = rest.len();
    let mut taken: usize = 0;
    while rest.len() > 0
        invariant
            all.len() == n,
            taken + rest@.len() == n,
            pred == of_manager(m@),
            rest@ == all.subrange(taken as int, all.len() as int),
            kept@ == all.take(taken as int).filter(pred),
        decreases rest.len(),
    {
        let l = rest.remove(0);
        assert(all.take(taken + 1).drop_last() =~= all.take(taken as int));
        assert(all.take(taken + 1).last() == l);
        proof {
            all.take(taken as int).lemma_filter_push(l, pred);
        }
        assert(all.take(taken as int).push(l) =~= all.take(taken + 1));
        let keep = str_eq(l.manager.as_str(), m);
        assert(keep == pred(l));
        if keep {
            kept.push(l);
        }
        taken = taken + 1;
        assert(rest@ =~= all.subrange(taken as int, all.len() as int));
    }
    assert(all.take(taken as int) =~= all);
    kept
}

} // verus!
