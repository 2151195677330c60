//! `effigy docs context`: the progress notice of a graph refresh and the
//! text form of a documentation context answer.
use vstd::prelude::*;
use crate::text::{dec, join, join_seq, split_on, split_str, views};

verus! {

/// What a graph refresh will do before a docs query is answered.
#[derive(Debug, Clone, Copy, PartialEq, Eq, Structural)]
pub enum RefreshPending {
    /// There is no index yet: it is built.
    Cold,
    /// The index is out of date: it is rebuilt.
    Stale,
    /// The index is current: nothing to do.
    Current,
}

pub open spec fn refresh_notice(p: RefreshPending) -> Option<Seq<char>> {
    match p {
        RefreshPending::Cold => Some(
            "[docs] docs context: graph index is missing; building the shared graph index before answering"@,
        ),
        RefreshPending::Stale => Some(
            "[docs] docs context: graph index is stale; refreshing it before answering"@,
        ),
        RefreshPending::Current => None,
    }
}

/// The progress notice for a refresh: only when it does work.
pub fn refresh_progress_message(pending: RefreshPending) -> (r: Option<String>)
    ensures
        crate::deploy::render::opt_view(r) == refresh_notice(pending),
{
    match pending {
        RefreshPending::Cold => Some(
            "[docs] docs context: graph index is missing; building the shared graph index before answering".to_owned(),
        ),
        RefreshPending::Stale => Some(
            "[docs] docs context: graph index is stale; refreshing it before answering".to_owned(),
        ),
        RefreshPending::Current => None,
    }
}

/// At most the first `n` characters of `s`.
pub open spec fn prefix_chars(s: Seq<char>, n: int) -> Seq<char> {
    if s.len() <= n {
        s
    } else {
        s.take(n)
    }
}

/// The first twelve characters of a fingerprint.
pub fn short_fingerprint(fingerprint: &str) -> (r: String)
    ensures
        r@ == prefix_chars(fingerprint@, 12),
{
    let cs = crate::text::chars_of(fingerprint);
    let n: usize = if cs.len() < 12 {
        cs.len()
    } else {
        12
    };
    assert(cs@.subrange(0, n as int) == prefix_chars(fingerprint@, 12));
    crate::text::string_from_chars(&cs, 0, n)
}

/// The first twelve characters of a commit identity, or `-` for none.
pub fn short_identity(value: Option<&str>) -> (r: String)
    ensures
        r@ == match value {
            Some(v) => prefix_chars(v@, 12),
            None => "-"@,
        },
{
    match value {
        Some(v) => short_fingerprint(v),
        None => "-".to_owned(),
    }
}

/// `s` without one trailing `\r`.
pub open spec fn strip_cr(s: Seq<char>) -> Seq<char> {
    if s.len() > 0 && s.last() == '\r' {
        s.drop_last()
    } else {
        s
    }
}

/// `str::lines`: the lines of `s`, split at `\n` with a `\r` before it
/// dropped; a final line ending adds no empty line.
pub open spec fn text_lines(s: Seq<char>) -> Seq<Seq<char>> {
    let parts = split_on(s, '\n');
    let ended = parts.drop_last().map_values(|p: Seq<char>| strip_cr(p));
    if parts.last().len() == 0 {
        ended
    } else {
        ended.push(parts.last())
    }
}

/// The lines of `s` (`str::lines`).
pub fn lines_of(s: &str) -> (r: Vec<String>)
    ensures
        views(r@) == text_lines(s@),
{
    let parts = split_str(s, '\n');
    let ghost ps = views(parts@);
    let mut out: Vec<String> = Vec::new();
    let mut i: usize = 0;
    while i + 1 < parts.len()
        invariant
            i + 1 <= parts.len(),
            ps == views(parts@),
            views(out@) == ps.drop_last().take(i as int).map_values(|p: Seq<char>| strip_cr(p)),
        decreases parts.len() - i,
    {
        let cs = crate::text::chars_of(parts[i].as_str());
        let end = if cs.len() > 0 && cs[cs.len() - 1] == '\r' {
            cs.len() - 1
        } else {
            cs.len()
        };
        let line = crate::text::string_from_chars(&cs, 0, end);
        assert(line@ == strip_cr(ps[i as int]));
        let ghost before = views(out@);
        out.push(line);
        assert(views(out@) == before.push(line@));
        assert(ps.drop_last().take(i + 1) == ps.drop_last().take(i as int).push(ps[i as int]));
        assert(ps.drop_last().take(i + 1).map_values(|p: Seq<char>| strip_cr(p)) =~= ps.drop_last().take(
            i as int,
        ).map_values(|p: Seq<char>| strip_cr(p)).push(strip_cr(ps[i as int])));
        i = i + 1;
    }
    assert(ps.drop_last().take(i as int) == ps.drop_last());
    let last = &parts[parts.len() - 1];
    if last.unicode_len() > 0 {
        let ghost before = views(out@);
        out.push(last.clone());
        assert(views(out@) == before.push(last@));
    }
    out
}

/// A field a matched section declares.
#[derive(Debug)]
pub struct DocsFieldFact {
    pub field: String,
    pub value: String,
}

/// One step of the relation path that led to a section.
#[derive(Debug)]
pub struct DocsRelationStep {
    pub from_path: String,
    pub relation: String,
    pub to_path: String,
}

/// A matched documentation section. Scalars are held as the text the
/// answer shows for them.
#[derive(Debug)]
pub struct DocsContextResult {
    pub rank: String,
    pub path: String,
    pub anchor: Option<String>,
    pub document_kind: String,
    pub authority: String,
    pub currentness: String,
    pub start_line: String,
    pub end_line: String,
    pub start_byte: String,
    pub end_byte: String,
    pub bytes: String,
    pub hops: String,
    pub match_kind: String,
    pub seed_path: String,
    pub match_reasons: Vec<String>,
    pub fields: Vec<DocsFieldFact>,
    pub relation_path: Vec<DocsRelationStep>,
    pub source: String,
}

pub open spec fn anchor_text(anchor: Option<String>) -> Seq<char> {
    match anchor {
        Some(a) => if a@.len() > 0 {
            "#"@ + a@
        } else {
            Seq::empty()
        },
        None => Seq::empty(),
    }
}

pub open spec fn fact_items(fs: Seq<DocsFieldFact>) -> Seq<Seq<char>> {
    fs.map_values(|f: DocsFieldFact| f.field@ + "="@ + f.value@)
}

pub open spec fn step_items(ss: Seq<DocsRelationStep>) -> Seq<Seq<char>> {
    ss.map_values(|s: DocsRelationStep| s.from_path@ + " -["@ + s.relation@ + "]-> "@ + s.to_path@)
}

/// `"   " + line` for each line.
pub open spec fn indented(ls: Seq<Seq<char>>) -> Seq<Seq<char>> {
    ls.map_values(|l: Seq<char>| "   "@ + l)
}

/// A line if `cond`, else nothing.
pub open spec fn line_if(cond: bool, line: Seq<char>) -> Seq<Seq<char>> {
    if cond {
        seq![line]
    } else {
        Seq::empty()
    }
}

/// The lines of one matched section: its rank, place and kind; its span;
/// where the match began, why it matched, the fields and relations it
/// carries; then its source.
pub open spec fn result_lines(r: DocsContextResult) -> Seq<Seq<char>> {
    seq![
        r.rank@ + ". "@ + r.path@ + anchor_text(r.anchor) + " ["@ + r.document_kind@ + "] authority "@
            + r.authority@ + " currentness "@ + r.currentness@,
        "   lines "@ + r.start_line@ + "-"@ + r.end_line@ + " bytes "@ + r.start_byte@ + "-"@
            + r.end_byte@ + " ("@ + r.bytes@ + " bytes) "@ + r.hops@ + " hop(s) via "@ + r.match_kind@,
    ] + line_if(r.seed_path@ != r.path@, "   seed: "@ + r.seed_path@) + line_if(
        r.match_reasons@.len() > 0,
        "   match: "@ + join_seq(views(r.match_reasons@), "; "@),
    ) + line_if(r.fields@.len() > 0, "   fields: "@ + join_seq(fact_items(r.fields@), ", "@))
        + line_if(
        r.relation_path@.len() > 0,
        "   relations: "@ + join_seq(step_items(r.relation_path@), " | "@),
    ) + seq!["   ---"@] + indented(text_lines(r.source@))
}

fn push_line(lines: &mut Vec<String>, line: String)
    ensures
        views(final(lines)@) == views(old(lines)@).push(line@),
{
    lines.push(line);
}

fn push_lines(lines: &mut Vec<String>, more: &Vec<String>, prefix: &str)
    ensures
        views(final(lines)@) == views(old(lines)@) + views(more@).map_values(|l: Seq<char>| prefix@ + l),
{
    let ghost start = views(lines@);
    let mut i: usize = 0;
    while i < more.len()
        invariant
            i <= more.len(),
            views(lines@) == start + views(more@).take(i as int).map_values(|l: Seq<char>| prefix@ + l),
        decreases more.len() - i,
    {
        let line = crate::text::cat(prefix, more[i].as_str());
        let ghost before = views(lines@);
        lines.push(line);
        assert(views(lines@) == before.push(line@));
        assert(views(more@).take(i + 1).map_values(|l: Seq<char>| prefix@ + l) =~= views(more@).take(
            i as int,
        ).map_values(|l: Seq<char>| prefix@ + l).push(prefix@ + more@[i as int]@));
        i = i + 1;
    }
    assert(views(more@).take(more.len() as int) == views(more@));
}

fn result_heading(r: &DocsContextResult) -> (out: String)
    ensures
        out@ == r.rank@ + ". "@ + r.path@ + anchor_text(r.anchor) + " ["@ + r.document_kind@
            + "] authority "@ + r.authority@ + " currentness "@ + r.currentness@,
{
    let anchor = match &r.anchor {
        Some(a) => if a.unicode_len() > 0 {
            crate::text::cat("#", a.as_str())
        } else {
            String::new()
        },
        None => String::new(),
    };
    let mut first = crate::text::cat3(r.rank.as_str(), ". ", r.path.as_str());
    first.append(anchor.as_str());
    first.append(" [");
    first.append(r.document_kind.as_str());
    first.append("] authority ");
    first.append(r.authority.as_str());
    first.append(" currentness ");
    first.append(r.currentness.as_str());
    first
}

fn result_span(r: &DocsContextResult) -> (out: String)
    ensures
        out@ == "   lines "@ + r.start_line@ + "-"@ + r.end_line@ + " bytes "@ + r.start_byte@ + "-"@
            + r.end_byte@ + " ("@ + r.bytes@ + " bytes) "@ + r.hops@ + " hop(s) via "@ + r.match_kind@,
{
    let mut second = crate::text::cat3("   lines ", r.start_line.as_str(), "-");
    second.append(r.end_line.as_str());
    second.append(" bytes ");
    second.append(r.start_byte.as_str());
    second.append("-");
    second.append(r.end_byte.as_str());
    second.append(" (");
    second.append(r.bytes.as_str());
    second.append(" bytes) ");
    second.append(r.hops.as_str());
    second.append(" hop(s) via ");
    second.append(r.match_kind.as_str());
    second
}

fn joined_facts(fs: &Vec<DocsFieldFact>) -> (out: String)
    ensures
        out@ == join_seq(fact_items(fs@), ", "@),
{
    let mut items: Vec<String> = Vec::new();
    let mut i: usize = 0;
    while i < fs.len()
        invariant
            i <= fs.len(),
            views(items@) == fact_items(fs@).take(i as int),
        decreases fs.len() - i,
    {
        let item = crate::text::cat3(fs[i].field.as_str(), "=", fs[i].value.as_str());
        let ghost before = views(items@);
        items.push(item);
        assert(views(items@) == before.push(item@));
        assert(fact_items(fs@).take(i + 1) == fact_items(fs@).take(i as int).push(item@));
        i = i + 1;
    }
    assert(fact_items(fs@).take(fs.len() as int) == fact_items(fs@));
    join(&items, ", ")
}

fn joined_steps(ss: &Vec<DocsRelationStep>) -> (out: String)
    ensures
        out@ == join_seq(step_items(ss@), " | "@),
{
    let mut items: Vec<String> = Vec::new();
    let mut i: usize = 0;
    while i < ss.len()
        invariant
            i <= ss.len(),
            views(items@) == step_items(ss@).take(i as int),
        decreases ss.len() - i,
    {
        let st = &ss[i];
        let mut item = crate::text::cat3(st.from_path.as_str(), " -[", st.relation.as_str());
        item.append("]-> ");
        item.append(st.to_path.as_str());
        let ghost before = views(items@);
        items.push(item);
        assert(views(items@) == before.push(item@));
        assert(step_items(ss@).take(i + 1) == step_items(ss@).take(i as int).push(item@));
        i = i + 1;
    }
    assert(step_items(ss@).take(ss.len() as int) == step_items(ss@));
    join(&items, " | ")
}

fn push_if(lines: &mut Vec<String>, cond: bool, line: String)
    ensures
        views(final(lines)@) == views(old(lines)@) + line_if(cond, line@),
{
    if cond {
        lines.push(line);
    }
}

/// The lines of one matched section.
pub fn render_result(r: &DocsContextResult) -> (out: Vec<String>)
    ensures
        views(out@) == result_lines(*r),
{
    let mut lines: Vec<String> = Vec::new();
    push_line(&mut lines, result_heading(r));
    push_line(&mut lines, result_span(r));
    push_if(
        &mut lines,
        !crate::text::str_eq(r.seed_path.as_str(), r.path.as_str()),
        crate::text::cat("   seed: ", r.seed_path.as_str()),
    );
    let reasons = join(&r.match_reasons, "; ");
    push_if(&mut lines, r.match_reasons.len() > 0, crate::text::cat("   match: ", reasons.as_str()));
    let facts = joined_facts(&r.fields);
    push_if(&mut lines, r.fields.len() > 0, crate::text::cat("   fields: ", facts.as_str()));
    let steps = joined_steps(&r.relation_path);
    push_if(&mut lines, r.relation_path.len() > 0, crate::text::cat("   relations: ", steps.as_str()));
    push_line(&mut lines, "   ---".to_owned());
    let source_lines = lines_of(r.source.as_str());
    push_lines(&mut lines, &source_lines, "   ");
    lines
}

/// A diagnostic of a docs context answer.
#[derive(Debug)]
pub struct DocsDiagnostic {
    pub severity: String,
    pub message: String,
}

/// A documentation context answer for one repository.
#[derive(Debug)]
pub struct DocsContextPayload {
    pub query: String,
    pub profile_state: String,
    pub scoped_documents: String,
    pub fingerprint: String,
    pub freshness_state: String,
    pub freshness_summary: String,
    pub max_sections: String,
    pub max_bytes: String,
    pub max_hops: String,
    pub used_bytes: String,
    pub omitted_sections: usize,
    pub truncated: bool,
    pub hop_budget_reached: bool,
    pub truncation_reasons: Vec<String>,
    pub results: Vec<DocsContextResult>,
    pub diagnostics: Vec<DocsDiagnostic>,
    pub next: Vec<String>,
}

/// Each item's lines after an empty line, one item after another.
pub open spec fn result_blocks(rs: Seq<DocsContextResult>) -> Seq<Seq<char>>
    decreases rs.len(),
{
    if rs.len() == 0 {
        Seq::empty()
    } else {
        result_blocks(rs.drop_last()) + seq![Seq::<char>::empty()] + result_lines(rs.last())
    }
}

pub open spec fn dashed(items: Seq<Seq<char>>) -> Seq<Seq<char>> {
    items.map_values(|s: Seq<char>| "- "@ + s)
}

/// A titled list after an empty line; nothing when the list is empty.
pub open spec fn titled(title: Seq<char>, items: Seq<Seq<char>>) -> Seq<Seq<char>> {
    if items.len() == 0 {
        Seq::empty()
    } else {
        seq![Seq::<char>::empty(), title] + dashed(items)
    }
}

pub open spec fn diagnostic_items(ds: Seq<DocsDiagnostic>) -> Seq<Seq<char>> {
    ds.map_values(|d: DocsDiagnostic| d.severity@ + ": "@ + d.message@)
}

/// The lines of a docs context answer: the query, profile, graph state
/// and budgets; what matched (or why nothing did); then truncation,
/// diagnostics and next steps where there are any.
pub open spec fn context_lines(p: DocsContextPayload) -> Seq<Seq<char>> {
    seq![
        "docs context `"@ + p.query@ + "`"@,
        "profile: "@ + p.profile_state@ + " ("@ + p.scoped_documents@ + " scoped documents, fingerprint "@
            + prefix_chars(p.fingerprint@, 12) + ")"@,
        "graph: "@ + p.freshness_state@ + " - "@ + p.freshness_summary@,
        "budgets: sections "@ + dec(p.results@.len()) + "/"@ + p.max_sections@ + ", bytes "@
            + p.used_bytes@ + "/"@ + p.max_bytes@ + ", hops "@ + p.max_hops@,
        "results: "@ + dec(p.results@.len()),
    ] + (if p.results@.len() == 0 {
        seq![
            Seq::<char>::empty(),
            if p.omitted_sections == 0 {
                "no in-scope documentation section matched this query"@
            } else {
                dec(p.omitted_sections as nat) + " matching section(s) did not fit the requested budgets"@
            },
        ]
    } else {
        Seq::<Seq<char>>::empty()
    }) + result_blocks(p.results@) + (if p.truncated {
        seq![
            Seq::<char>::empty(),
            "truncation: "@ + dec(p.omitted_sections as nat) + " omitted section(s)"@ + if p.hop_budget_reached {
                "; hop budget reached"@
            } else {
                Seq::<char>::empty()
            },
        ] + dashed(views(p.truncation_reasons@))
    } else {
        Seq::<Seq<char>>::empty()
    }) + titled("diagnostics:"@, diagnostic_items(p.diagnostics@)) + titled("next:"@, views(p.next@))
}

fn push_titled(lines: &mut Vec<String>, title: &str, items: &Vec<String>)
    ensures
        views(final(lines)@) == views(old(lines)@) + titled(title@, views(items@)),
{
    if items.len() == 0 {
        assert(views(lines@) == views(lines@) + Seq::<Seq<char>>::empty());
        return;
    }
    let ghost start = views(lines@);
    push_line(lines, String::new());
    push_line(lines, crate::text::owned(title));
    push_lines(lines, items, "- ");
    assert(views(lines@) =~= start + titled(title@, views(items@)));
}

fn push_results(lines: &mut Vec<String>, rs: &Vec<DocsContextResult>)
    ensures
        views(final(lines)@) == views(old(lines)@) + result_blocks(rs@),
{
    let ghost start = views(lines@);
    let mut i: usize = 0;
    while i < rs.len()
        invariant
            i <= rs.len(),
            views(lines@) == start + result_blocks(rs@.take(i as int)),
        decreases rs.len() - i,
    {
        assert(rs@.take(i + 1).drop_last() == rs@.take(i as int));
        let block = render_result(&rs[i]);
        let ghost before = views(lines@);
        push_line(lines, String::new());
        push_lines(lines, &block, "");
        proof {
            reveal_strlit("");
        }
        assert(views(block@).map_values(|l: Seq<char>| ""@ + l) =~= views(block@));
        assert(views(lines@) =~= before + seq![Seq::<char>::empty()] + result_lines(rs@[i as int]));
        i = i + 1;
    }
    assert(rs@.take(rs.len() as int) == rs@);
}

/// The text of a docs context answer.
#[verifier::spinoff_prover]
#[verifier::rlimit(40)]
pub fn render_context_text(p: &DocsContextPayload) -> (r: String)
    ensures
        r@ == join_seq(context_lines(*p), "\n"@),
{
    let n = p.results.len() as u64;
    let mut lines: Vec<String> = Vec::new();
    push_line(&mut lines, crate::text::cat3("docs context `", p.query.as_str(), "`"));
    let mut l = crate::text::cat3("profile: ", p.profile_state.as_str(), " (");
    l.append(p.scoped_documents.as_str());
    l.append(" scoped documents, fingerprint ");
    let fp = short_fingerprint(p.fingerprint.as_str());
    l.append(fp.as_str());
    l.append(")");
    push_line(&mut lines, l);
    let mut g = crate::text::cat3("graph: ", p.freshness_state.as_str(), " - ");
    g.append(p.freshness_summary.as_str());
    push_line(&mut lines, g);
    let mut b = "budgets: sections ".to_owned();
    crate::text::push_dec(&mut b, n);
    b.append("/");
    b.append(p.max_sections.as_str());
    b.append(", bytes ");
    b.append(p.used_bytes.as_str());
    b.append("/");
    b.append(p.max_bytes.as_str());
    b.append(", hops ");
    b.append(p.max_hops.as_str());
    push_line(&mut lines, b);
    let mut c = "results: ".to_owned();
    crate::text::push_dec(&mut c, n);
    push_line(&mut lines, c);
    let ghost s0 = views(lines@);
    if p.results.len() == 0 {
        push_line(&mut lines, String::new());
        if p.omitted_sections == 0 {
            push_line(&mut lines, "no in-scope documentation section matched this query".to_owned());
        } else {
            let mut m = String::new();
            crate::text::push_dec(&mut m, p.omitted_sections as u64);
            m.append(" matching section(s) did not fit the requested budgets");
            push_line(&mut lines, m);
        }
    }
    let ghost s1 = views(lines@);
    push_results(&mut lines, &p.results);
    let ghost s2 = views(lines@);
    if p.truncated {
        push_line(&mut lines, String::new());
        let mut t = "truncation: ".to_owned();
        crate::text::push_dec(&mut t, p.omitted_sections as u64);
        t.append(" omitted section(s)");
        if p.hop_budget_reached {
            t.append("; hop budget reached");
        }
        push_line(&mut lines, t);
        push_lines(&mut lines, &p.truncation_reasons, "- ");
    }
    let ghost s3 = views(lines@);
    let mut diags: Vec<String> = Vec::new();
    let mut i: usize = 0;
    while i < p.diagnostics.len()
        invariant
            i <= p.diagnostics.len(),
            views(diags@) == diagnostic_items(p.diagnostics@).take(i as int),
        decreases p.diagnostics.len() - i,
    {
        let d = crate::text::cat3(p.diagnostics[i].severity.as_str(), ": ", p.diagnostics[i].message.as_str());
        let ghost before = views(diags@);
        diags.push(d);
        assert(views(diags@) == before.push(d@));
        assert(diagnostic_items(p.diagnostics@).take(i + 1) == diagnostic_items(p.diagnostics@).take(i as int).push(d@));
        i = i + 1;
    }
    assert(diagnostic_items(p.diagnostics@).take(p.diagnostics.len() as int) == diagnostic_items(p.diagnostics@));
    push_titled(&mut lines, "diagnostics:", &diags);
    push_titled(&mut lines, "next:", &p.next);
    assert(views(lines@) =~= context_lines(*p));
    join(&lines, "\n")
}

/// A matched section of one repository of a portfolio, with the identity
/// of the content it was read from.
#[derive(Debug)]
pub struct DocsContextSourceResult {
    pub result: DocsContextResult,
    pub content_identity: String,
}

/// The lines of a portfolio match: the section's lines with its content
/// identity after the span.
pub open spec fn source_result_lines(r: DocsContextSourceResult) -> Seq<Seq<char>> {
    result_lines(r.result).insert(2, "   identity: "@ + r.content_identity@)
}

/// The lines of a portfolio match.
pub fn render_source_result(r: &DocsContextSourceResult) -> (out: Vec<String>)
    ensures
        views(out@) == source_result_lines(*r),
{
    let mut lines = render_result(&r.result);
    let line = crate::text::cat("   identity: ", r.content_identity.as_str());
    let ghost before = views(lines@);
    lines.insert(2, line);
    assert(views(lines@) =~= before.insert(2, line@));
    lines
}

/// One repository of a portfolio answer.
#[derive(Debug)]
pub struct DocsContextRepository {
    pub handle: String,
    pub status: String,
    /// Whether the repository answered (its status is the answered one).
    pub status_ok: bool,
    pub path: Option<String>,
    pub current_head: Option<String>,
    pub indexed_head: Option<String>,
    /// The graph's state and summary, when it was read.
    pub freshness: Option<(String, String)>,
    pub profile_state: Option<String>,
    pub front_doors: Vec<String>,
    pub skill_roots: Vec<String>,
    pub next_step: Option<String>,
    pub results: Vec<DocsContextSourceResult>,
}

pub open spec fn short_id(v: Option<String>) -> Seq<char> {
    match v {
        Some(s) => prefix_chars(s@, 12),
        None => "-"@,
    }
}

pub open spec fn source_blocks(rs: Seq<DocsContextSourceResult>) -> Seq<Seq<char>>
    decreases rs.len(),
{
    if rs.len() == 0 {
        Seq::empty()
    } else {
        source_blocks(rs.drop_last()) + seq![Seq::<char>::empty()] + source_result_lines(rs.last())
    }
}

/// The lines of one repository: handle, status and path; the heads; the
/// graph state; its front doors, skill roots and next step; then its
/// matches, or that none matched when it answered.
pub open spec fn repository_lines(r: DocsContextRepository) -> Seq<Seq<char>> {
    seq![
        "== "@ + r.handle@ + " ["@ + r.status@ + "] "@ + match r.path {
            Some(p) => p@,
            None => "-"@,
        },
        "   head "@ + short_id(r.current_head) + " indexed "@ + short_id(r.indexed_head),
    ] + match r.freshness {
        Some(f) => seq![
            "   graph: "@ + f.0@ + " - "@ + f.1@ + match r.profile_state {
                Some(st) => " (profile "@ + st@ + ")"@,
                None => Seq::<char>::empty(),
            },
        ],
        None => Seq::<Seq<char>>::empty(),
    } + line_if(r.front_doors@.len() > 0, "   front doors: "@ + join_seq(views(r.front_doors@), ", "@))
        + line_if(r.skill_roots@.len() > 0, "   skill roots: "@ + join_seq(views(r.skill_roots@), ", "@))
        + match r.next_step {
        Some(n) => seq!["   next: "@ + n@],
        None => Seq::<Seq<char>>::empty(),
    } + line_if(r.results@.len() == 0 && r.status_ok, "   no section matched in this repository"@)
        + source_blocks(r.results@)
}

fn short_id_of(v: &Option<String>) -> (r: String)
    ensures
        r@ == short_id(*v),
{
    match v {
        Some(s) => short_fingerprint(s.as_str()),
        None => "-".to_owned(),
    }
}

/// The lines of one repository of a portfolio answer.
pub fn render_repository(r: &DocsContextRepository) -> (out: Vec<String>)
    ensures
        views(out@) == repository_lines(*r),
{
    let mut lines: Vec<String> = Vec::new();
    let mut head = crate::text::cat3("== ", r.handle.as_str(), " [");
    head.append(r.status.as_str());
    head.append("] ");
    match &r.path {
        Some(p) => head.append(p.as_str()),
        None => head.append("-"),
    }
    push_line(&mut lines, head);
    let cur = short_id_of(&r.current_head);
    let idx = short_id_of(&r.indexed_head);
    let mut heads = crate::text::cat3("   head ", cur.as_str(), " indexed ");
    heads.append(idx.as_str());
    push_line(&mut lines, heads);
    let ghost s0 = views(lines@);
    assert(s0 == seq![
        "== "@ + r.handle@ + " ["@ + r.status@ + "] "@ + match r.path {
            Some(p) => p@,
            None => "-"@,
        },
        "   head "@ + short_id(r.current_head) + " indexed "@ + short_id(r.indexed_head),
    ]);
    if let Some(f) = &r.freshness {
        let mut g = crate::text::cat3("   graph: ", f.0.as_str(), " - ");
        g.append(f.1.as_str());
        let ghost g0 = g@;
        if let Some(st) = &r.profile_state {
            g.append(" (profile ");
            g.append(st.as_str());
            g.append(")");
        }
        assert(g@ == g0 + match r.profile_state {
            Some(st) => " (profile "@ + st@ + ")"@,
            None => Seq::<char>::empty(),
        });
        push_line(&mut lines, g);
    }
    let ghost sf = views(lines@);
    assert(sf == s0 + match r.freshness {
        Some(f) => seq![
            "   graph: "@ + f.0@ + " - "@ + f.1@ + match r.profile_state {
                Some(st) => " (profile "@ + st@ + ")"@,
                None => Seq::<char>::empty(),
            },
        ],
        None => Seq::<Seq<char>>::empty(),
    });
    let fronts = join(&r.front_doors, ", ");
    push_if(&mut lines, r.front_doors.len() > 0, crate::text::cat("   front doors: ", fronts.as_str()));
    let skills = join(&r.skill_roots, ", ");
    push_if(&mut lines, r.skill_roots.len() > 0, crate::text::cat("   skill roots: ", skills.as_str()));
    let ghost s1 = views(lines@);
    if let Some(n) = &r.next_step {
        push_line(&mut lines, crate::text::cat("   next: ", n.as_str()));
    }
    assert(views(lines@) == s1 + match r.next_step {
        Some(n) => seq!["   next: "@ + n@],
        None => Seq::<Seq<char>>::empty(),
    });
    push_if(&mut lines, r.results.len() == 0 && r.status_ok, "   no section matched in this repository".to_owned());
    let ghost s2 = views(lines@);
    let mut i: usize = 0;
    while i < r.results.len()
        invariant
            i <= r.results.len(),
            views(lines@) == s2 + source_blocks(r.results@.take(i as int)),
        decreases r.results.len() - i,
    {
        assert(r.results@.take(i + 1).drop_last() == r.results@.take(i as int));
        let block = render_source_result(&r.results[i]);
        let ghost before = views(lines@);
        push_line(&mut lines, String::new());
        let mut rest = block;
        let ghost target = before + seq![Seq::<char>::empty()] + views(rest@);
        while rest.len() > 0
            invariant
                views(lines@) + views(rest@) == target,
            decreases rest.len(),
        {
            let x = rest.remove(0);
            let ghost b = views(lines@);
            lines.push(x);
            assert(views(lines@) == b.push(x@));
        }
        assert(views(lines@) =~= before + seq![Seq::<char>::empty()] + source_result_lines(r.results@[i as int]));
        i = i + 1;
    }
    assert(r.results@.take(r.results.len() as int) == r.results@);
    assert(views(lines@) =~= repository_lines(*r));
    lines
}

/// A portfolio answer: the query routed to each repository of the
/// portfolio in turn.
#[derive(Debug)]
pub struct DocsContextSourcesPayload {
    pub query: String,
    pub portfolio_path: String,
    pub directories: Vec<String>,
    pub max_sections: String,
    pub max_bytes: String,
    pub max_hops: String,
    pub repositories: Vec<DocsContextRepository>,
    pub only: Vec<String>,
    pub next: Vec<String>,
}

pub open spec fn repository_blocks(rs: Seq<DocsContextRepository>) -> Seq<Seq<char>>
    decreases rs.len(),
{
    if rs.len() == 0 {
        Seq::empty()
    } else {
        repository_blocks(rs.drop_last()) + seq![Seq::<char>::empty()] + repository_lines(rs.last())
    }
}

/// The lines of a portfolio answer: the query, portfolio, directories,
/// per-repository budgets and count, the `--only` filter if any; each
/// repository's block; then the next steps.
pub open spec fn sources_lines(p: DocsContextSourcesPayload) -> Seq<Seq<char>> {
    seq![
        "docs context `"@ + p.query@ + "` across sources"@,
        "portfolio: "@ + p.portfolio_path@,
        "directories: "@ + join_seq(views(p.directories@), ", "@),
        "budgets per repository: sections "@ + p.max_sections@ + ", bytes "@ + p.max_bytes@ + ", hops "@
            + p.max_hops@,
        "repositories: "@ + dec(p.repositories@.len()),
    ] + line_if(p.only@.len() > 0, "only: "@ + join_seq(views(p.only@), ", "@)) + repository_blocks(
        p.repositories@,
    ) + titled("next:"@, views(p.next@))
}

/// The text of a portfolio answer.
pub fn render_sources_text(p: &DocsContextSourcesPayload) -> (r: String)
    ensures
        r@ == join_seq(sources_lines(*p), "\n"@),
{
    let mut lines: Vec<String> = Vec::new();
    push_line(&mut lines, crate::text::cat3("docs context `", p.query.as_str(), "` across sources"));
    push_line(&mut lines, crate::text::cat("portfolio: ", p.portfolio_path.as_str()));
    let dirs = join(&p.directories, ", ");
    push_line(&mut lines, crate::text::cat("directories: ", dirs.as_str()));
    let mut b = crate::text::cat3("budgets per repository: sections ", p.max_sections.as_str(), ", bytes ");
    b.append(p.max_bytes.as_str());
    b.append(", hops ");
    b.append(p.max_hops.as_str());
    push_line(&mut lines, b);
    let mut c = "repositories: ".to_owned();
    crate::text::push_dec(&mut c, p.repositories.len() as u64);
    push_line(&mut lines, c);
    let only = join(&p.only, ", ");
    push_if(&mut lines, p.only.len() > 0, crate::text::cat("only: ", only.as_str()));
    let ghost s0 = views(lines@);
    let mut i: usize = 0;
    while i < p.repositories.len()
        invariant
            i <= p.repositories.len(),
            views(lines@) == s0 + repository_blocks(p.repositories@.take(i as int)),
        decreases p.repositories.len() - i,
    {
        assert(p.repositories@.take(i + 1).drop_last() == p.repositories@.take(i as int));
        let block = render_repository(&p.repositories[i]);
        let ghost before = views(lines@);
        push_line(&mut lines, String::new());
        let mut rest = block;
        let ghost target = before + seq![Seq::<char>::empty()] + views(rest@);
        while rest.len() > 0
            invariant
                views(lines@) + views(rest@) == target,
            decreases rest.len(),
        {
            let x = rest.remove(0);
            let ghost bb = views(lines@);
            lines.push(x);
            assert(views(lines@) == bb.push(x@));
        }
        assert(views(lines@) =~= before + seq![Seq::<char>::empty()] + repository_lines(p.repositories@[i as int]));
        i = i + 1;
    }
    assert(p.repositories@.take(p.repositories.len() as int) == p.repositories@);
    push_titled(&mut lines, "next:", &p.next);
    assert(views(lines@) =~= sources_lines(*p));
    join(&lines, "\n")
}

} // verus!