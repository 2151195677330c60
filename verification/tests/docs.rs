use effigy_runner::docs::{
    refresh_progress_message, render_context_text, short_fingerprint, short_identity,
    DocsContextPayload, DocsContextResult, DocsDiagnostic, DocsFieldFact, DocsRelationStep,
    RefreshPending,
};

#[test]
fn refresh_notice_claims_a_cold_build() {
    let notice = refresh_progress_message(RefreshPending::Cold).expect("cold must announce");
    assert!(notice.contains("missing"), "cold notice: {notice}");
    assert!(notice.contains("docs context"), "cold notice: {notice}");
}

#[test]
fn refresh_notice_claims_a_stale_rebuild() {
    let notice = refresh_progress_message(RefreshPending::Stale).expect("stale must announce");
    assert!(notice.contains("stale"), "stale notice: {notice}");
    assert!(notice.contains("docs context"), "stale notice: {notice}");
}

#[test]
fn refresh_notice_stays_silent_when_current() {
    assert_eq!(refresh_progress_message(RefreshPending::Current), None);
}

#[test]
fn short_fingerprint_keeps_a_prefix() {
    assert_eq!(short_fingerprint("0123456789abcdef0123"), "0123456789ab");
    assert_eq!(short_fingerprint("abc"), "abc");
}

fn payload(results: Vec<DocsContextResult>, omitted: usize, truncated: bool) -> DocsContextPayload {
    DocsContextPayload {
        query: "deploy hooks".to_owned(),
        profile_state: "ready".to_owned(),
        scoped_documents: "14".to_owned(),
        fingerprint: "0123456789abcdef".to_owned(),
        freshness_state: "current".to_owned(),
        freshness_summary: "graph matches the working tree".to_owned(),
        max_sections: "4".to_owned(),
        max_bytes: "8000".to_owned(),
        max_hops: "2".to_owned(),
        used_bytes: "120".to_owned(),
        omitted_sections: omitted,
        truncated,
        hop_budget_reached: truncated,
        truncation_reasons: vec!["byte budget".to_owned()],
        results,
        diagnostics: vec![DocsDiagnostic { severity: "warn".to_owned(), message: "stale link".to_owned() }],
        next: vec![],
    }
}

#[test]
fn context_text_lists_each_section_with_span_reasons_and_source() {
    let result = DocsContextResult {
        rank: "1".to_owned(),
        path: "docs/deploy.md".to_owned(),
        anchor: Some("hooks".to_owned()),
        document_kind: "guide".to_owned(),
        authority: "canonical".to_owned(),
        currentness: "current".to_owned(),
        start_line: "10".to_owned(),
        end_line: "12".to_owned(),
        start_byte: "300".to_owned(),
        end_byte: "420".to_owned(),
        bytes: "120".to_owned(),
        hops: "1".to_owned(),
        match_kind: "relation".to_owned(),
        seed_path: "docs/index.md".to_owned(),
        match_reasons: vec!["title".to_owned(), "body".to_owned()],
        fields: vec![DocsFieldFact { field: "owner".to_owned(), value: "ops".to_owned() }],
        relation_path: vec![DocsRelationStep {
            from_path: "docs/index.md".to_owned(),
            relation: "links".to_owned(),
            to_path: "docs/deploy.md".to_owned(),
        }],
        source: "## Hooks\r\nRun hooks.\n".to_owned(),
    };
    let text = render_context_text(&payload(vec![result], 0, false));
    assert_eq!(
        text,
        [
            "docs context `deploy hooks`",
            "profile: ready (14 scoped documents, fingerprint 0123456789ab)",
            "graph: current - graph matches the working tree",
            "budgets: sections 1/4, bytes 120/8000, hops 2",
            "results: 1",
            "",
            "1. docs/deploy.md#hooks [guide] authority canonical currentness current",
            "   lines 10-12 bytes 300-420 (120 bytes) 1 hop(s) via relation",
            "   seed: docs/index.md",
            "   match: title; body",
            "   fields: owner=ops",
            "   relations: docs/index.md -[links]-> docs/deploy.md",
            "   ---",
            "   ## Hooks",
            "   Run hooks.",
            "",
            "diagnostics:",
            "- warn: stale link",
        ]
        .join("\n")
    );
}

#[test]
fn context_text_explains_an_empty_or_truncated_answer() {
    let text = render_context_text(&payload(vec![], 3, true));
    assert!(text.contains("\nresults: 0\n\n3 matching section(s) did not fit the requested budgets\n"));
    assert!(text.contains("\ntruncation: 3 omitted section(s); hop budget reached\n- byte budget"));
    let none = render_context_text(&payload(vec![], 0, false));
    assert!(none.contains("no in-scope documentation section matched this query"));
    assert_eq!(short_identity(None), "-");
    assert_eq!(short_identity(Some("abcdefghijklmnop")), "abcdefghijkl");
}
