//! Where deployment reports live, and the file-name-safe form of the
//! environment and deployment names that pick them out.
use vstd::prelude::*;
use crate::paths::{join_path, path_join, path_strip_prefix, path_strip_prefix_view};
use crate::text::{chars_of, dec, dec_string, is_ascii_alnum, push_char};

verus! {

/// The characters that a path component keeps as they are: ASCII letters
/// and digits, `-`, `_` and `.`.
pub open spec fn is_component_char(c: char) -> bool {
    is_ascii_alnum(c) || c == '-' || c == '_' || c == '.'
}

/// `s` with every character outside [`is_component_char`] replaced by `fill`.
pub open spec fn fill_unsafe(s: Seq<char>, fill: char) -> Seq<char> {
    s.map_values(|c: char| if is_component_char(c) { c } else { fill })
}

/// Whether `c` is an ASCII letter or digit, `-`, `_` or `.`.
pub fn component_char(c: char) -> (r: bool)
    ensures
        r == is_component_char(c),
{
    ('0' <= c && c <= '9') || ('A' <= c && c <= 'Z') || ('a' <= c && c <= 'z') || c == '-'
        || c == '_' || c == '.'
}

/// `value` with each character other than an ASCII letter, digit, `-`, `_`
/// or `.` replaced by `fill`.
pub fn replace_unsafe_chars(value: &str, fill: char) -> (r: String)
    ensures
        r@ == fill_unsafe(value@, fill),
{
    let cs = chars_of(value);
    let mut out = String::new();
    let mut i: usize = 0;
    while i < cs.len()
        invariant
            i <= cs.len(),
            cs@ == value@,
            out@ == fill_unsafe(value@, fill).take(i as int),
        decreases cs.len() - i,
    {
        let c = cs[i];
        if component_char(c) {
            push_char(&mut out, c);
        } else {
            push_char(&mut out, fill);
        }
        assert(fill_unsafe(value@, fill).take(i + 1) == fill_unsafe(value@, fill).take(
            i as int,
        ).push(fill_unsafe(value@, fill)[i as int]));
        i = i + 1;
    }
    assert(fill_unsafe(value@, fill).take(cs.len() as int) == fill_unsafe(value@, fill));
    out
}

/// `value` as one file-name component: each character other than an ASCII
/// letter, digit, `-`, `_` or `.` becomes `-`.
pub fn safe_path_component(value: &str) -> (r: String)
    ensures
        r@ == fill_unsafe(value@, '-'),
{
    replace_unsafe_chars(value, '-')
}

/// Replacing unsafe characters keeps the length, leaves only safe
/// characters (or the fill), and changes nothing the second time when the
/// fill is itself safe.
pub proof fn lemma_fill_unsafe(s: Seq<char>, fill: char)
    ensures
        fill_unsafe(s, fill).len() == s.len(),
        forall|i: int|
            0 <= i < s.len() ==> {
                ||| is_component_char(#[trigger] fill_unsafe(s, fill)[i])
                ||| fill_unsafe(s, fill)[i] == fill
            },
        forall|i: int|
            0 <= i < s.len() && is_component_char(#[trigger] s[i]) ==> fill_unsafe(s, fill)[i]
                == s[i],
        is_component_char(fill) ==> fill_unsafe(fill_unsafe(s, fill), fill) == fill_unsafe(
            s,
            fill,
        ),
{
    if is_component_char(fill) {
        assert(fill_unsafe(fill_unsafe(s, fill), fill) =~= fill_unsafe(s, fill));
    }
}

/// The decimal seconds since the Unix epoch that name a deployment.
pub fn utc_basic_timestamp(unix_seconds: u64) -> (r: String)
    ensures
        r@ == dec(unix_seconds as nat),
{
    dec_string(unix_seconds)
}

/// The same seconds followed by `Z`, as the reports record times.
pub fn iso_timestamp(unix_seconds: u64) -> (r: String)
    ensures
        r@ == dec(unix_seconds as nat).push('Z'),
{
    let mut s = dec_string(unix_seconds);
    push_char(&mut s, 'Z');
    s
}

/// `base` joined with each of `parts` in turn.
pub open spec fn join_all(base: Seq<char>, parts: Seq<Seq<char>>) -> Seq<char>
    decreases parts.len(),
{
    if parts.len() == 0 {
        base
    } else {
        join_path(join_all(base, parts.drop_last()), parts.last())
    }
}

fn join_parts(base: &str, parts: &Vec<String>) -> (r: String)
    ensures
        r@ == join_all(base@, crate::text::views(parts@)),
{
    let mut out = crate::text::owned(base);
    let ghost vs = crate::text::views(parts@);
    let mut i: usize = 0;
    while i < parts.len()
        invariant
            i <= parts.len(),
            vs == crate::text::views(parts@),
            out@ == join_all(base@, vs.take(i as int)),
        decreases parts.len() - i,
    {
        assert(vs.take(i + 1).drop_last() == vs.take(i as int));
        out = path_join(out.as_str(), parts[i].as_str());
        i = i + 1;
    }
    assert(vs.take(parts.len() as int) == vs);
    out
}

/// `.effigy/runtime/deploy/active/<env>.json` under `repo_root`.
pub open spec fn active_path(repo_root: Seq<char>, env: Seq<char>) -> Seq<char> {
    join_all(
        repo_root,
        seq![".effigy"@, "runtime"@, "deploy"@, "active"@, fill_unsafe(env, '-') + ".json"@],
    )
}

/// `.effigy/reports/deploy/<env>/latest.json` under `repo_root`.
pub open spec fn latest_path(repo_root: Seq<char>, env: Seq<char>) -> Seq<char> {
    join_all(
        repo_root,
        seq![".effigy"@, "reports"@, "deploy"@, fill_unsafe(env, '-'), "latest.json"@],
    )
}

/// `.effigy/reports/deploy/<env>/history` under `repo_root`.
pub open spec fn history_dir(repo_root: Seq<char>, env: Seq<char>) -> Seq<char> {
    join_all(repo_root, seq![".effigy"@, "reports"@, "deploy"@, fill_unsafe(env, '-'), "history"@])
}

/// Where the plan being applied to `env` is kept while the apply runs.
pub fn deploy_active_path(repo_root: &str, env: &str) -> (r: String)
    ensures
        r@ == active_path(repo_root@, env@),
{
    let mut file = safe_path_component(env);
    file.append(".json");
    let parts = vec![
        ".effigy".to_owned(),
        "runtime".to_owned(),
        "deploy".to_owned(),
        "active".to_owned(),
        file,
    ];
    let r = join_parts(repo_root, &parts);
    assert(crate::text::views(parts@) == seq![
        ".effigy"@,
        "runtime"@,
        "deploy"@,
        "active"@,
        fill_unsafe(env@, '-') + ".json"@,
    ]);
    r
}

/// The latest deployment report of `env`.
pub fn deploy_latest_path(repo_root: &str, env: &str) -> (r: String)
    ensures
        r@ == latest_path(repo_root@, env@),
{
    let parts = vec![
        ".effigy".to_owned(),
        "reports".to_owned(),
        "deploy".to_owned(),
        safe_path_component(env),
        "latest.json".to_owned(),
    ];
    let r = join_parts(repo_root, &parts);
    assert(crate::text::views(parts@) == seq![
        ".effigy"@,
        "reports"@,
        "deploy"@,
        fill_unsafe(env@, '-'),
        "latest.json"@,
    ]);
    r
}

/// The directory of `env`'s deployment history.
pub fn deploy_history_dir(repo_root: &str, env: &str) -> (r: String)
    ensures
        r@ == history_dir(repo_root@, env@),
{
    let parts = vec![
        ".effigy".to_owned(),
        "reports".to_owned(),
        "deploy".to_owned(),
        safe_path_component(env),
        "history".to_owned(),
    ];
    let r = join_parts(repo_root, &parts);
    assert(crate::text::views(parts@) == seq![
        ".effigy"@,
        "reports"@,
        "deploy"@,
        fill_unsafe(env@, '-'),
        "history"@,
    ]);
    r
}

/// The two files a deployment report is written to.
#[derive(Debug)]
pub struct DeployReportPaths {
    pub latest_path: String,
    pub history_path: String,
}

/// The latest report of `env` and the history entry of `deployment_id`.
pub fn deploy_report_paths(repo_root: &str, env: &str, deployment_id: &str) -> (r:
    DeployReportPaths)
    ensures
        r.latest_path@ == latest_path(repo_root@, env@),
        r.history_path@ == join_path(
            history_dir(repo_root@, env@),
            fill_unsafe(deployment_id@, '-') + ".json"@,
        ),
{
    let mut file = safe_path_component(deployment_id);
    file.append(".json");
    let dir = deploy_history_dir(repo_root, env);
    DeployReportPaths {
        latest_path: deploy_latest_path(repo_root, env),
        history_path: path_join(dir.as_str(), file.as_str()),
    }
}

/// `path` relative to `repo_root` when it lies under it, else `path`.
pub open spec fn display_path(path: Seq<char>, repo_root: Seq<char>) -> Seq<char> {
    match path_strip_prefix_view(path, repo_root) {
        Some(rest) => rest,
        None => path,
    }
}

/// How a report names a file: relative to the repository when it is inside.
pub fn path_display(path: &str, repo_root: &str) -> (r: String)
    ensures
        r@ == display_path(path@, repo_root@),
{
    match path_strip_prefix(path, repo_root) {
        Some(rest) => rest,
        None => crate::text::owned(path),
    }
}

} // verus!
