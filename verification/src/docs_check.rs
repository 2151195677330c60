//! `effigy docs` checks: what their arguments must hold, how a check report
//! answers, and how a log file joins the logs index.
use vstd::prelude::*;
use crate::docs::{lines_of, text_lines};
use crate::error::{is_invocation, RunnerError};
use crate::paths::{join_path, path_join};
use crate::text::{trim, views};

verus! {

/// A docs-policy check report, its JSON payload already rendered.
#[derive(Debug)]
pub struct DocsCheckReport {
    pub ok: bool,
    pub json: String,
    pub success_text: String,
    pub failure_text: String,
}

/// What a check report answers: a passing report its success text, or its
/// JSON payload in JSON mode; a failing one an invocation error that carries
/// its failure text, or the JSON payload in JSON mode.
pub fn dispatch_docs_report(report: DocsCheckReport, output_json: bool) -> (r: Result<String, RunnerError>)
    ensures
        report.ok ==> (r matches Ok(s) && s@ == (if output_json {
            report.json@
        } else {
            report.success_text@
        })),
        !report.ok ==> (r matches Err(e) && is_invocation(
            e,
            if output_json {
                report.json@
            } else {
                report.failure_text@
            },
        )),
{
    if output_json {
        if report.ok {
            Ok(report.json)
        } else {
            Err(RunnerError::task_invocation(report.json.as_str()))
        }
    } else if report.ok {
        Ok(report.success_text)
    } else {
        Err(RunnerError::task_invocation(report.failure_text.as_str()))
    }
}

/// A docs check that takes paths on the command line.
#[derive(Debug, Clone, Copy, PartialEq, Eq, Structural)]
pub enum DocsPathCheck {
    /// `check-headings`, with `--require-heading` values.
    Headings,
    /// `check-contains`, with `--require` values.
    Contains,
    /// `check-forbidden`, with `--forbid` values.
    Forbidden,
    /// `check-paths`, with paths alone.
    Paths,
}

/// The subcommand's name.
pub open spec fn check_name(c: DocsPathCheck) -> Seq<char> {
    match c {
        DocsPathCheck::Headings => "check-headings"@,
        DocsPathCheck::Contains => "check-contains"@,
        DocsPathCheck::Forbidden => "check-forbidden"@,
        DocsPathCheck::Paths => "check-paths"@,
    }
}

/// The flag that gives the subcommand's values.
pub open spec fn check_flag(c: DocsPathCheck) -> Seq<char> {
    match c {
        DocsPathCheck::Headings => "--require-heading"@,
        DocsPathCheck::Contains => "--require"@,
        DocsPathCheck::Forbidden => "--forbid"@,
        DocsPathCheck::Paths => Seq::empty(),
    }
}

/// Why a check's arguments are refused, if they are: every check needs a
/// path, and all but `check-paths` at least one value.
pub open spec fn check_arguments_message(c: DocsPathCheck, path_count: nat, value_count: nat) -> Option<
    Seq<char>,
> {
    if path_count == 0 {
        Some(
            "`"@ + check_name(c) + (if c == DocsPathCheck::Paths {
                "` requires at least one path"@
            } else {
                "` requires at least one file path"@
            }),
        )
    } else if c != DocsPathCheck::Paths && value_count == 0 {
        Some("`"@ + check_name(c) + "` requires at least one `"@ + check_flag(c) + "` value"@)
    } else {
        None
    }
}

/// Checks the arguments of a docs check before it runs.
pub fn check_arguments(c: DocsPathCheck, path_count: usize, value_count: usize) -> (r: Result<(), RunnerError>)
    ensures
        match check_arguments_message(c, path_count as nat, value_count as nat) {
            Some(m) => r matches Err(e) && is_invocation(e, m),
            None => r is Ok,
        },
{
    let name = match c {
        DocsPathCheck::Headings => "check-headings",
        DocsPathCheck::Contains => "check-contains",
        DocsPathCheck::Forbidden => "check-forbidden",
        DocsPathCheck::Paths => "check-paths",
    };
    if path_count == 0 {
        let tail = if c == DocsPathCheck::Paths {
            "` requires at least one path"
        } else {
            "` requires at least one file path"
        };
        let m = crate::text::cat3("`", name, tail);
        return Err(RunnerError::task_invocation(m.as_str()));
    }
    if c != DocsPathCheck::Paths && value_count == 0 {
        let flag = match c {
            DocsPathCheck::Headings => "--require-heading",
            DocsPathCheck::Contains => "--require",
            _ => "--forbid",
        };
        let mut m = crate::text::cat3("`", name, "` requires at least one `");
        m.append(flag);
        m.append("` value");
        return Err(RunnerError::task_invocation(m.as_str()));
    }
    Ok(())
}

/// The logs index line for a log at `relative_path` under the logs
/// directory.
pub open spec fn log_index_entry(relative_path: Seq<char>) -> Seq<char> {
    "- [`"@ + relative_path + "`](./"@ + relative_path + ")"@
}

/// Whether the index text already holds `entry` on a line of its own, white
/// space around it aside.
pub open spec fn already_indexed(original: Seq<char>, entry: Seq<char>) -> bool {
    exists|i: int| 0 <= i < text_lines(original).len() && trim(#[trigger] text_lines(original)[i]) == entry
}

/// Whether `f`, handed `p`, may answer `out`.
pub open spec fn said<F: Fn(&str) -> bool>(f: F, p: Seq<char>, out: bool) -> bool {
    exists|q: &str| q@ == p && #[trigger] f.ensures((q,), out)
}

/// Whether `original` holds `entry` as one of its lines.
fn index_holds(original: &str, entry: &str) -> (r: bool)
    ensures
        r == already_indexed(original@, entry@),
{
    let lines = lines_of(original);
    let mut i: usize = 0;
    while i < lines.len()
        invariant
            i <= lines.len(),
            views(lines@) == text_lines(original@),
            forall|j: int| 0 <= j < i ==> trim(#[trigger] text_lines(original@)[j]) != entry@,
        decreases lines.len() - i,
    {
        let t = crate::text::trim_str(lines[i].as_str());
        assert(lines@[i as int]@ == text_lines(original@)[i as int]);
        if crate::text::str_eq(t, entry) {
            return true;
        }
        i = i + 1;
    }
    false
}

/// The text of an index once `entry` joins it, and whether it must be
/// written: an index that holds the entry already stays as it is.
pub open spec fn indexed_text<I: FnOnce(&str, &str) -> String>(
    insert: I,
    original: Seq<char>,
    entry: Seq<char>,
    updated: Seq<char>,
) -> bool {
    exists|o: &str, e: &str, u: String| o@ == original && e@ == entry && u@ == updated && #[trigger] insert.ensures((o, e), u)
}

/// Whether `read`, handed `path`, may answer `out`.
pub open spec fn read_result<R: FnOnce(&str) -> Result<String, RunnerError>>(
    read: R,
    path: Seq<char>,
    out: Result<String, RunnerError>,
) -> bool {
    exists|p: &str| p@ == path && #[trigger] read.ensures((p,), out)
}

/// Whether `write` may have answered `out` for writing `text` to `path`.
pub open spec fn write_result<W: FnOnce(&str, &str) -> Result<(), RunnerError>>(
    write: W,
    path: Seq<char>,
    text: Seq<char>,
    out: Result<(), RunnerError>,
) -> bool {
    exists|p: &str, t: &str| p@ == path && t@ == text && #[trigger] write.ensures((p, t), out)
}

/// Whether adding a log to the index may fail with `e`: the index is
/// missing; `normalize` failed; the log file is missing; reading the index
/// failed; writing the new entry failed; or the report is a failing one.
pub open spec fn log_index_failed<F, N, R, I, W, P>(
    repo_root: Seq<char>,
    log_path: &str,
    output_json: bool,
    is_file: F,
    normalize: N,
    read: R,
    insert: I,
    write: W,
    report: P,
    e: RunnerError,
) -> bool where
    F: Fn(&str) -> bool,
    N: FnOnce(&str) -> Result<String, RunnerError>,
    R: FnOnce(&str) -> Result<String, RunnerError>,
    I: FnOnce(&str, &str) -> String,
    W: FnOnce(&str, &str) -> Result<(), RunnerError>,
    P: FnOnce(&str, &str, bool) -> DocsCheckReport,
 {
    let index_path = join_path(repo_root, "docs/logs/README.md"@);
    ||| said(is_file, index_path, false) && is_invocation(e, "logs index not found: "@ + index_path)
    ||| said(is_file, index_path, true) && exists|nout: Result<String, RunnerError>|
        #[trigger] normalize.ensures((log_path,), nout) && match nout {
            Err(x) => x == e,
            Ok(rel) => {
                let log_file = join_path(join_path(repo_root, "docs/logs"@), rel@);
                let entry = log_index_entry(rel@);
                ||| said(is_file, log_file, false) && is_invocation(e, "log file not found: "@ + log_file)
                ||| said(is_file, log_file, true) && exists|ro: Result<String, RunnerError>|
                    #[trigger] read_result(read, index_path, ro) && match ro {
                        Err(x) => x == e,
                        Ok(original) => {
                            ||| !already_indexed(original@, entry) && exists|u: Seq<char>|
                                indexed_text(insert, original@, entry, u) && #[trigger] write_result(
                                    write,
                                    index_path,
                                    u,
                                    Err(e),
                                )
                            ||| exists|rep: DocsCheckReport|
                                #[trigger] reported(report, rel@, index_path, already_indexed(original@, entry), rep)
                                    && !rep.ok && is_invocation(
                                    e,
                                    if output_json {
                                        rep.json@
                                    } else {
                                        rep.failure_text@
                                    },
                                )
                        },
                    }
            },
        }
}

/// Adds a log file to the logs index `docs/logs/README.md`. The index must
/// exist (`is_file`); the log path is made relative to the logs directory
/// (`normalize`), and the log must exist there. The entry
/// `log_index_entry` is added (`insert`, then `write`) unless the index
/// holds it already. The answer is the report (`report`, handed the
/// relative path, the index path and whether the entry was there) as
/// `dispatch_docs_report` gives it.
pub fn run_add_log_index<F, N, R, I, W, P>(
    repo_root: &str,
    log_path: &str,
    output_json: bool,
    is_file: &F,
    normalize: N,
    read: R,
    insert: I,
    write: W,
    report: P,
) -> (r: Result<String, RunnerError>) where
    F: Fn(&str) -> bool,
    N: FnOnce(&str) -> Result<String, RunnerError>,
    R: FnOnce(&str) -> Result<String, RunnerError>,
    I: FnOnce(&str, &str) -> String,
    W: FnOnce(&str, &str) -> Result<(), RunnerError>,
    P: FnOnce(&str, &str, bool) -> DocsCheckReport,

    requires
        forall|p: &str| is_file.requires((p,)),
        forall|p: &str| normalize.requires((p,)),
        forall|p: &str| read.requires((p,)),
        forall|o: &str, e: &str| insert.requires((o, e)),
        forall|p: &str, t: &str| write.requires((p, t)),
        forall|a: &str, b: &str, c: bool| report.requires((a, b, c)),
    ensures
        ({
            let index_path = join_path(repo_root@, "docs/logs/README.md"@);
            &&& said(*is_file, index_path, false) && !said(*is_file, index_path, true) ==> (r matches Err(e)
                && is_invocation(e, "logs index not found: "@ + index_path))
            &&& r is Ok ==> {
                &&& said(*is_file, index_path, true)
                &&& exists|rel: String, original: String, rep: DocsCheckReport|
                    #[trigger] normalize.ensures((log_path,), Ok(rel)) && said(
                        *is_file,
                        join_path(join_path(repo_root@, "docs/logs"@), rel@),
                        true,
                    ) && #[trigger] read_gave(read, index_path, original) && (!already_indexed(
                        original@,
                        log_index_entry(rel@),
                    ) ==> exists|updated: Seq<char>|
                        indexed_text(insert, original@, log_index_entry(rel@), updated) && #[trigger] wrote(
                            write,
                            index_path,
                            updated,
                        )) && #[trigger] reported(
                        report,
                        rel@,
                        index_path,
                        already_indexed(original@, log_index_entry(rel@)),
                        rep,
                    ) && rep.ok && (r matches Ok(s) && s@ == (if output_json {
                        rep.json@
                    } else {
                        rep.success_text@
                    }))
            }
        }),
        r matches Err(e) ==> log_index_failed(
            repo_root@,
            log_path,
            output_json,
            *is_file,
            normalize,
            read,
            insert,
            write,
            report,
            e,
        ),
{
    let index_path = path_join(repo_root, "docs/logs/README.md");
    let present = is_file(index_path.as_str());
    if !present {
        assert(said(*is_file, index_path@, false));
        let m = crate::text::cat("logs index not found: ", index_path.as_str());
        return Err(RunnerError::task_invocation(m.as_str()));
    }
    assert(said(*is_file, index_path@, true));
    let nout = normalize(log_path);
    assert(normalize.ensures((log_path,), nout));
    let rel = match nout {
        Ok(p) => p,
        Err(e) => return Err(e),
    };
    let logs_dir = path_join(repo_root, "docs/logs");
    let log_file = path_join(logs_dir.as_str(), rel.as_str());
    if !is_file(log_file.as_str()) {
        assert(said(*is_file, log_file@, false));
        let m = crate::text::cat("log file not found: ", log_file.as_str());
        return Err(RunnerError::task_invocation(m.as_str()));
    }
    assert(said(*is_file, log_file@, true));
    let mut entry = crate::text::cat3("- [`", rel.as_str(), "`](./");
    entry.append(rel.as_str());
    entry.append(")");
    assert(entry@ == log_index_entry(rel@));
    let ro = read(index_path.as_str());
    assert(read_result(read, index_path@, ro));
    let original = match ro {
        Ok(t) => t,
        Err(e) => return Err(e),
    };
    assert(read_gave(read, index_path@, original));
    let already = index_holds(original.as_str(), entry.as_str());
    if !already {
        let updated = insert(original.as_str(), entry.as_str());
        assert(indexed_text(insert, original@, entry@, updated@));
        match write(index_path.as_str(), updated.as_str()) {
            Ok(u) => {
                proof {
                    crate::error::lemma_unit(u);
                }
            },
            Err(e) => {
                assert(write_result(write, index_path@, updated@, Err(e)));
                return Err(e);
            },
        }
        assert(wrote(write, index_path@, updated@));
        assert(exists|u: Seq<char>| indexed_text(insert, original@, entry@, u) && #[trigger] wrote(write, index_path@, u));
    }
    let ghost ensured_write = !already_indexed(original@, log_index_entry(rel@)) ==> exists|u: Seq<char>|
        indexed_text(insert, original@, log_index_entry(rel@), u) && #[trigger] wrote(write, index_path@, u);
    assert(ensured_write);
    let rep = report(rel.as_str(), index_path.as_str(), already);
    let ghost grep = rep;
    assert(reported(report, rel@, index_path@, already, grep));
    let res = dispatch_docs_report(rep, output_json);
    proof {
        if res is Ok {
            assert(normalize.ensures((log_path,), Ok(rel)));
            assert(said(*is_file, join_path(join_path(repo_root@, "docs/logs"@), rel@), true));
            assert(read_gave(read, index_path@, original));
            assert(already == already_indexed(original@, log_index_entry(rel@)));
            assert(reported(report, rel@, index_path@, already_indexed(original@, log_index_entry(rel@)), grep));
            assert(grep.ok);
            assert(res matches Ok(s) && s@ == (if output_json {
                    grep.json@
                } else {
                    grep.success_text@
                }));
            assert(exists|rl: String, og: String, rp: DocsCheckReport|
                #[trigger] normalize.ensures((log_path,), Ok(rl)) && said(
                    *is_file,
                    join_path(join_path(repo_root@, "docs/logs"@), rl@),
                    true,
                ) && #[trigger] read_gave(read, index_path@, og) && (!already_indexed(og@, log_index_entry(rl@))
                    ==> exists|updated: Seq<char>|
                    indexed_text(insert, og@, log_index_entry(rl@), updated) && #[trigger] wrote(
                        write,
                        index_path@,
                        updated,
                    )) && #[trigger] reported(report, rl@, index_path@, already_indexed(og@, log_index_entry(rl@)), rp)
                    && rp.ok && (res matches Ok(s) && s@ == (if output_json {
                    rp.json@
                } else {
                    rp.success_text@
                })));
        }
    }
    res
}

/// Whether `read`, handed `path`, may answer `text`.
pub open spec fn read_gave<R: FnOnce(&str) -> Result<String, RunnerError>>(read: R, path: Seq<char>, text: String) -> bool {
    exists|p: &str| p@ == path && #[trigger] read.ensures((p,), Ok(text))
}

/// Whether `write` may have written `text` to `path`.
pub open spec fn wrote<W: FnOnce(&str, &str) -> Result<(), RunnerError>>(write: W, path: Seq<char>, text: Seq<char>) -> bool {
    exists|p: &str, t: &str| p@ == path && t@ == text && #[trigger] write.ensures((p, t), Ok(()))
}

/// Whether `report` may have built `rep` for the relative path, the index
/// path and whether the entry was there.
pub open spec fn reported<P: FnOnce(&str, &str, bool) -> DocsCheckReport>(
    report: P,
    rel: Seq<char>,
    index_path: Seq<char>,
    already: bool,
    rep: DocsCheckReport,
) -> bool {
    exists|a: &str, b: &str| a@ == rel && b@ == index_path && #[trigger] report.ensures((a, b, already), rep)
}

} // verus!
