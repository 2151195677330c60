//! The text forms of the deployment reports.
use vstd::prelude::*;
use crate::deploy::transaction::{
    DeployApplyReport, DeployHistoryReport, DeployPlanReport, DeployStatusReport,
};
use crate::text::{dec, join, join_seq, views};

verus! {

/// `"- " + item` for each item.
pub open spec fn bullets(items: Seq<Seq<char>>) -> Seq<Seq<char>> {
    items.map_values(|s: Seq<char>| "- "@ + s)
}

/// A titled section: an empty line, `title (n)` and one bullet per item;
/// nothing when there are no items.
pub open spec fn section(title: Seq<char>, items: Seq<Seq<char>>) -> Seq<Seq<char>> {
    if items.len() == 0 {
        Seq::empty()
    } else {
        seq![Seq::empty(), title + " ("@ + dec(items.len()) + ")"@] + bullets(items)
    }
}

/// The lines of a plan's text.
pub open spec fn plan_lines(r: DeployPlanReport) -> Seq<Seq<char>> {
    seq![
        "[deploy] planned "@ + r.provider@ + " deployment to "@ + r.env@,
        "deployment: "@ + r.deployment_id@,
        "code: "@ + r.code.requested_ref@,
        "release_policy: "@ + r.release_policy.mode@,
    ] + match r.state {
        Some(st) => seq!["state: "@ + st.stack@ + " ("@ + st.lineage_id@ + ")"@],
        None => Seq::empty(),
    } + section("Blockers"@, views(r.blockers@)) + section("Warnings"@, views(r.warnings@))
}

fn push_section(lines: &mut Vec<String>, title: &str, items: &Vec<String>)
    ensures
        views(final(lines)@) == views(old(lines)@) + section(title@, views(items@)),
{
    if items.len() == 0 {
        assert(section(title@, views(items@)) == Seq::<Seq<char>>::empty());
        assert(views(lines@) == views(lines@) + Seq::<Seq<char>>::empty());
        return;
    }
    let ghost start = views(lines@);
    lines.push(String::new());
    let mut head = crate::text::cat(title, " (");
    crate::text::push_dec(&mut head, items.len() as u64);
    head.append(")");
    lines.push(head);
    let ghost mid = views(lines@);
    assert(mid == start + seq![Seq::<char>::empty(), title@ + " ("@ + dec(items.len() as nat) + ")"@]);
    let mut i: usize = 0;
    while i < items.len()
        invariant
            i <= items.len(),
            views(lines@) == mid + bullets(views(items@)).take(i as int),
        decreases items.len() - i,
    {
        let line = crate::text::cat("- ", items[i].as_str());
        let ghost before = views(lines@);
        lines.push(line);
        assert(views(lines@) == before.push(line@));
        assert(bullets(views(items@)).take(i + 1) == bullets(views(items@)).take(i as int).push(
            "- "@ + items@[i as int]@,
        ));
        i = i + 1;
    }
    assert(bullets(views(items@)).take(items.len() as int) == bullets(views(items@)));
}

/// The text of a plan: what is deployed where, then its blockers and
/// warnings, if any.
pub fn render_deploy_plan_text(report: &DeployPlanReport) -> (r: String)
    ensures
        r@ == join_seq(plan_lines(*report), "\n"@),
{
    let mut lines: Vec<String> = Vec::new();
    let mut l0 = crate::text::cat3("[deploy] planned ", report.provider.as_str(), " deployment to ");
    l0.append(report.env.as_str());
    lines.push(l0);
    lines.push(crate::text::cat("deployment: ", report.deployment_id.as_str()));
    lines.push(crate::text::cat("code: ", report.code.requested_ref.as_str()));
    lines.push(crate::text::cat("release_policy: ", report.release_policy.mode.as_str()));
    if let Some(state) = &report.state {
        let mut l = crate::text::cat3("state: ", state.stack.as_str(), " (");
        l.append(state.lineage_id.as_str());
        l.append(")");
        lines.push(l);
    }
    let ghost head = views(lines@);
    assert(head == seq![
        "[deploy] planned "@ + report.provider@ + " deployment to "@ + report.env@,
        "deployment: "@ + report.deployment_id@,
        "code: "@ + report.code.requested_ref@,
        "release_policy: "@ + report.release_policy.mode@,
    ] + match report.state {
        Some(st) => seq!["state: "@ + st.stack@ + " ("@ + st.lineage_id@ + ")"@],
        None => Seq::<Seq<char>>::empty(),
    });
    push_section(&mut lines, "Blockers", &report.blockers);
    push_section(&mut lines, "Warnings", &report.warnings);
    join(&lines, "\n")
}

/// `path`, or `<not written>` when no report was written.
pub open spec fn written_or_placeholder(path: Option<String>) -> Seq<char> {
    match path {
        Some(p) => p@,
        None => "<not written>"@,
    }
}

/// The text of an applied deployment.
pub open spec fn apply_text(r: DeployApplyReport) -> Seq<char> {
    "[deploy] "@ + r.status@ + " "@ + r.provider@ + " deployment to "@ + r.env@ + "\ndeployment: "@
        + r.deployment_id@ + "\nreport: "@ + written_or_placeholder(r.written_report_path)
}

/// The text of an applied deployment: outcome, id and report.
pub fn render_deploy_apply_text(report: &DeployApplyReport) -> (r: String)
    ensures
        r@ == apply_text(*report),
{
    let mut s = crate::text::cat3("[deploy] ", report.status.as_str(), " ");
    s.append(report.provider.as_str());
    s.append(" deployment to ");
    s.append(report.env.as_str());
    s.append("\ndeployment: ");
    s.append(report.deployment_id.as_str());
    s.append("\nreport: ");
    match &report.written_report_path {
        Some(p) => s.append(p.as_str()),
        None => s.append("<not written>"),
    }
    s
}

/// `present` or `missing`.
pub open spec fn presence(present: bool) -> Seq<char> {
    if present {
        "present"@
    } else {
        "missing"@
    }
}

/// The text of a status report.
pub open spec fn status_text(r: DeployStatusReport) -> Seq<char> {
    "[deploy] status "@ + r.env@ + "\nactive: "@ + presence(r.active_path is Some) + "\nlatest: "@
        + presence(r.latest_path is Some)
}

/// The text of a status report: whether an apply is under way and whether
/// a latest report exists.
pub fn render_deploy_status_text(report: &DeployStatusReport) -> (r: String)
    ensures
        r@ == status_text(*report),
{
    let mut s = crate::text::cat3("[deploy] status ", report.env.as_str(), "\nactive: ");
    s.append(if report.active_path.is_some() { "present" } else { "missing" });
    s.append("\nlatest: ");
    s.append(if report.latest_path.is_some() { "present" } else { "missing" });
    s
}

/// The lines of a history report.
pub open spec fn history_lines(r: DeployHistoryReport) -> Seq<Seq<char>> {
    seq!["[deploy] history "@ + r.env@ + " ("@ + dec(r.entries@.len()) + " entries)"@]
        + r.entries@.map_values(
        |e: crate::deploy::transaction::DeployHistoryItem|
            "- "@ + e.deployment_id@ + " ["@ + e.status@ + "] "@ + e.path@,
    )
}

/// The text of a history report: one line per deployment.
pub fn render_deploy_history_text(report: &DeployHistoryReport) -> (r: String)
    ensures
        r@ == join_seq(history_lines(*report), "\n"@),
{
    let mut lines: Vec<String> = Vec::new();
    let mut head = crate::text::cat3("[deploy] history ", report.env.as_str(), " (");
    crate::text::push_dec(&mut head, report.entries.len() as u64);
    head.append(" entries)");
    lines.push(head);
    let ghost items = history_lines(*report);
    let mut i: usize = 0;
    while i < report.entries.len()
        invariant
            i <= report.entries.len(),
            items == history_lines(*report),
            views(lines@) == items.take(i + 1),
        decreases report.entries.len() - i,
    {
        let e = &report.entries[i];
        let mut line = crate::text::cat3("- ", e.deployment_id.as_str(), " [");
        line.append(e.status.as_str());
        line.append("] ");
        line.append(e.path.as_str());
        let ghost before = views(lines@);
        lines.push(line);
        assert(views(lines@) == before.push(line@));
        assert(items.take(i + 2) == items.take(i + 1).push(items[i + 1]));
        i = i + 1;
    }
    assert(items.take(report.entries.len() + 1) == items);
    join(&lines, "\n")
}

} // verus!
