//! The provider-neutral deployment model.
use vstd::prelude::*;
use crate::deploy::render::opt_view;
use crate::paths::{join_path, path_join};
use regex::Regex;

verus! {

/// A command that a deployment step runs.
#[derive(Debug)]
pub struct DeployCommandStep {
    pub command: String,
}

/// How a service reports health.
#[derive(Debug)]
pub struct DeployHealth {
    pub kind: String,
    pub path: String,
}

/// What a static service publishes.
#[derive(Debug)]
pub struct DeployOutput {
    pub kind: String,
    pub path: String,
    pub fallback: Option<String>,
}

/// A finding about the model or one of its services.
#[derive(Debug)]
pub struct DeployWarning {
    pub code: String,
    pub scope: String,
    pub target: Option<String>,
    pub message: String,
    pub severity: String,
}

/// One deployable service.
#[derive(Debug)]
pub struct DeployService {
    pub name: String,
    pub role: String,
    pub runtime: String,
    pub source_root: String,
    pub build: Option<DeployCommandStep>,
    pub start: Option<DeployCommandStep>,
    pub release: Option<DeployCommandStep>,
    pub health: Option<DeployHealth>,
    pub output: Option<DeployOutput>,
    pub port: Option<u16>,
    pub domains: Vec<String>,
    /// Plain environment variables, in key order.
    pub env: Vec<(String, String)>,
    pub secret_refs: Vec<String>,
    pub volumes: Vec<String>,
    pub warnings: Vec<DeployWarning>,
}

/// A backing service such as a database.
#[derive(Debug)]
pub struct DeployBackingService {
    pub name: String,
    pub kind: String,
    pub mode: String,
    pub required: bool,
    pub consumers: Vec<String>,
    pub warnings: Vec<DeployWarning>,
}

/// A public domain routed to a service.
#[derive(Debug)]
pub struct DeployDomain {
    pub host: String,
    pub service: String,
    pub tls: String,
}

/// A secret that services need.
#[derive(Debug)]
pub struct DeploySecret {
    pub name: String,
    pub services: Vec<String>,
    pub required: bool,
    pub source: String,
    pub notes: Option<String>,
}

/// The application being deployed.
#[derive(Debug)]
pub struct DeployApp {
    pub name: String,
    pub bundle: Option<String>,
    pub project_name: String,
    pub source_root: Option<String>,
    pub notes: Option<String>,
}

/// The deployment model of a repository.
#[derive(Debug)]
pub struct DeployModel {
    pub schema: String,
    pub schema_version: u64,
    pub app: DeployApp,
    pub services: Vec<DeployService>,
    pub backing_services: Vec<DeployBackingService>,
    pub domains: Vec<DeployDomain>,
    pub secrets: Vec<DeploySecret>,
    pub warnings: Vec<DeployWarning>,
}

/// A copy of an optional string.
pub fn copy_opt(o: &Option<String>) -> (r: Option<String>)
    ensures
        r == *o,
{
    match o {
        Some(s) => Some(s.clone()),
        None => None,
    }
}

/// A copy of a list of strings.
pub fn copy_strings(v: &Vec<String>) -> (r: Vec<String>)
    ensures
        r@ == v@,
{
    let mut out: Vec<String> = Vec::new();
    let mut i: usize = 0;
    while i < v.len()
        invariant
            i <= v.len(),
            out@ == v@.take(i as int),
        decreases v.len() - i,
    {
        out.push(v[i].clone());
        assert(v@.take(i + 1) == v@.take(i as int).push(v@[i as int]));
        i = i + 1;
    }
    assert(v@.take(v.len() as int) == v@);
    out
}

impl DeployWarning {
    /// A copy of this warning.
    pub fn copy(&self) -> (r: DeployWarning)
        ensures
            r == *self,
    {
        DeployWarning {
            code: self.code.clone(),
            scope: self.scope.clone(),
            target: copy_opt(&self.target),
            message: self.message.clone(),
            severity: self.severity.clone(),
        }
    }
}

/// Appends copies of `src` to `dst`.
pub fn extend_warnings(dst: &mut Vec<DeployWarning>, src: &Vec<DeployWarning>)
    ensures
        final(dst)@ == old(dst)@ + src@,
{
    let ghost base = dst@;
    let mut i: usize = 0;
    while i < src.len()
        invariant
            i <= src.len(),
            dst@ == base + src@.take(i as int),
        decreases src.len() - i,
    {
        dst.push(src[i].copy());
        assert(src@.take(i + 1) == src@.take(i as int).push(src@[i as int]));
        i = i + 1;
    }
    assert(src@.take(src.len() as int) == src@);
}

/// The warnings of `svcs`, service by service.
pub open spec fn service_warnings(svcs: Seq<DeployService>) -> Seq<DeployWarning>
    decreases svcs.len(),
{
    if svcs.len() == 0 {
        Seq::empty()
    } else {
        service_warnings(svcs.drop_last()) + svcs.last().warnings@
    }
}

/// The model-level warnings followed by each service's warnings.
pub open spec fn model_warnings(m: DeployModel) -> Seq<DeployWarning> {
    m.warnings@ + service_warnings(m.services@)
}

/// All warnings of a model: its own, then each service's in order.
pub fn collect_model_warnings(model: &DeployModel) -> (r: Vec<DeployWarning>)
    ensures
        r@ == model_warnings(*model),
{
    let mut out: Vec<DeployWarning> = Vec::new();
    extend_warnings(&mut out, &model.warnings);
    let mut i: usize = 0;
    while i < model.services.len()
        invariant
            i <= model.services.len(),
            out@ == model.warnings@ + service_warnings(model.services@.take(i as int)),
        decreases model.services.len() - i,
    {
        assert(model.services@.take(i + 1).drop_last() == model.services@.take(i as int));
        extend_warnings(&mut out, &model.services[i].warnings);
        i = i + 1;
    }
    assert(model.services@.take(model.services.len() as int) == model.services@);
    out
}

/// The warning for a static service without a declared fallback file.
pub open spec fn is_missing_fallback_warning(w: DeployWarning, target: Seq<char>) -> bool {
    &&& w.code@ == "missing-static-fallback"@
    &&& w.scope@ == "service"@
    &&& w.target matches Some(t) && t@ == target
    &&& w.message@ == "No static fallback file is declared yet for provider rewrite generation"@
    &&& w.severity@ == "warn"@
}

/// One `missing-static-fallback` warning for `target` when `missing`,
/// none otherwise.
pub fn missing_static_fallback_warning(target: &str, missing: bool) -> (r: Vec<DeployWarning>)
    ensures
        !missing ==> r@.len() == 0,
        missing ==> r@.len() == 1 && is_missing_fallback_warning(r@[0], target@),
{
    let mut out: Vec<DeployWarning> = Vec::new();
    if !missing {
        return out;
    }
    out.push(
        DeployWarning {
            code: "missing-static-fallback".to_owned(),
            scope: "service".to_owned(),
            target: Some(target.to_owned()),
            message: "No static fallback file is declared yet for provider rewrite generation".to_owned(),
            severity: "warn".to_owned(),
        },
    );
    out
}

/// What the first match of `fallback\s*:\s*["']([^"']+)["']` in `contents`
/// captures in its group, if the pattern matches.
pub uninterp spec fn fallback_capture_of(contents: Seq<char>) -> Option<Seq<char>>;

pub open spec fn is_quote(c: char) -> bool {
    c == '"' || c == '\''
}

/// Whether `s[from..to]` is white space only (`\s*`, Unicode `White_Space`).
pub open spec fn ws_run(s: Seq<char>, from: int, to: int) -> bool {
    0 <= from <= to <= s.len() && forall|j: int| from <= j < to ==> crate::text::is_ws(#[trigger] s[j])
}

/// Whether the pattern `fallback\s*:\s*["']([^"']+)["']` matches `s` from
/// `i`, with the `:` at `c`, the opening quote at `q` and the closing one
/// at `e`; its group is then `s[q + 1..e]`.
pub open spec fn fallback_match(s: Seq<char>, i: int, c: int, q: int, e: int) -> bool {
    &&& 0 <= i && i + 8 <= s.len() && s.subrange(i, i + 8) == "fallback"@
    &&& ws_run(s, i + 8, c) && c < s.len() && s[c] == ':'
    &&& ws_run(s, c + 1, q) && q < s.len() && is_quote(s[q])
    &&& q + 1 < e < s.len() && is_quote(s[e])
    &&& forall|j: int| q < j < e ==> !is_quote(#[trigger] s[j])
}

/// `Regex::captures` with the pattern `fallback\s*:\s*["']([^"']+)["']`:
/// the text of group 1 of the leftmost match, named by
/// [`fallback_capture_of`]. There is a capture exactly when the pattern
/// matches somewhere, and the capture is the group of a match; by the
/// group's class `[^"']+` it is not empty and holds no quote.
#[verifier::external_body]
fn fallback_capture(contents: &str) -> (r: Option<String>)
    ensures
        opt_view(r) == fallback_capture_of(contents@),
        r is Some <==> exists|i: int, c: int, q: int, e: int| #[trigger] fallback_match(contents@, i, c, q, e),
        r matches Some(v) ==> exists|i: int, c: int, q: int, e: int|
            #[trigger] fallback_match(contents@, i, c, q, e) && v@ == contents@.subrange(q + 1, e),
        r matches Some(v) ==> v@.len() > 0 && forall|i: int|
            0 <= i < v@.len() ==> v@[i] != '"' && v@[i] != '\'',
{
    let pattern = Regex::new("fallback\\s*:\\s*[\"']([^\"']+)[\"']").ok()?;
    let captures = pattern.captures(contents)?;
    captures.get(1).map(|m| m.as_str().to_owned())
}

/// The SvelteKit config files a static fallback is read from, in order.
pub open spec fn svelte_configs() -> Seq<Seq<char>> {
    seq!["svelte.config.js"@, "svelte.config.ts"@, "svelte.config.mjs"@, "svelte.config.cjs"@]
}

/// Whether `read`, handed `path`, may answer `out`.
pub open spec fn file_read<R: Fn(&str) -> Option<String>>(read: R, path: Seq<char>, out: Option<String>) -> bool {
    exists|p: &str| p@ == path && #[trigger] read.ensures((p,), out)
}

/// The static fallback page of the service under `dir`: the `fallback`
/// that the first readable SvelteKit config declares (`read` gives a file's
/// text, or `None` when it cannot be read).
pub fn detect_static_fallback<R: Fn(&str) -> Option<String>>(repo_root: &str, dir: &str, read: &R) -> (r:
    Option<String>)
    requires
        forall|p: &str| read.requires((p,)),
    ensures
        match r {
            Some(v) => exists|k: int, c: String|
                0 <= k < 4 && #[trigger] file_read(
                    *read,
                    join_path(join_path(repo_root@, dir@), svelte_configs()[k]),
                    Some(c),
                ) && fallback_capture_of(c@) == Some(v@),
            None => forall|k: int|
                0 <= k < 4 ==> exists|out: Option<String>|
                    #[trigger] file_read(
                        *read,
                        join_path(join_path(repo_root@, dir@), #[trigger] svelte_configs()[k]),
                        out,
                    ) && (out matches Some(c) ==> fallback_capture_of(c@) is None),
        },
{
    let service_root = path_join(repo_root, dir);
    let names = ["svelte.config.js", "svelte.config.ts", "svelte.config.mjs", "svelte.config.cjs"];
    let ghost cfgs = svelte_configs();
    assert(forall|k: int| 0 <= k < 4 ==> (#[trigger] names@[k])@ == cfgs[k]);
    let mut i: usize = 0;
    while i < 4
        invariant
            i <= 4,
            service_root@ == join_path(repo_root@, dir@),
            cfgs == svelte_configs(),
            forall|k: int| 0 <= k < 4 ==> (#[trigger] names@[k])@ == cfgs[k],
            forall|p: &str| read.requires((p,)),
            forall|k: int|
                0 <= k < i ==> exists|out: Option<String>|
                    #[trigger] file_read(*read, join_path(service_root@, #[trigger] cfgs[k]), out) && (
                    out matches Some(c) ==> fallback_capture_of(c@) is None),
        decreases 4 - i,
    {
        let path = path_join(service_root.as_str(), names[i]);
        let got = read(path.as_str());
        assert(file_read(*read, path@, got));
        if let Some(contents) = &got {
            let found = fallback_capture(contents.as_str());
            if let Some(v) = found {
                assert(file_read(*read, join_path(join_path(repo_root@, dir@), svelte_configs()[i as int]), got));
                return Some(v);
            }
        }
        i = i + 1;
    }
    None
}

} // verus!