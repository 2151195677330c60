//! Deployment provider packages: where a package comes from, where a git
//! source is cached, and the checks a package and its reports must pass.
use vstd::prelude::*;
use crate::deploy::report::{fill_unsafe, replace_unsafe_chars};
use crate::error::{is_invocation, RunnerError};
use crate::paths::{join_path, path_join};
use crate::text::{
    chars_of, has_prefix, index_from, lemma_index_from, lower, owned, split_on, split_str,
    starts_with, str_eq, string_from_chars, trim,
};
use sha2::{Digest, Sha256};

verus! {

/// Where a provider package comes from.
#[derive(Debug)]
pub enum DeployProviderSource {
    /// A directory of the repository.
    Path { dir: String },
    /// A git repository, at `reference` or `main`.
    Git { url: String, reference: Option<String> },
    /// An OCI artifact.
    Oci { url: String },
}

/// One `[deploy.providers.<name>]` entry.
#[derive(Debug)]
pub struct ManifestDeployProviderConfig {
    pub source: DeployProviderSource,
}

/// `[provider]` of a package's `provider.toml`.
#[derive(Debug)]
pub struct DeployProviderMetadata {
    pub schema: String,
    pub name: String,
    pub display_name: String,
    pub version: String,
}

/// The scripts a package declares, by phase.
#[derive(Debug)]
pub struct DeployProviderCapabilities {
    pub checklist: Option<String>,
    pub export: Option<String>,
    pub validate: Option<String>,
    pub preflight: Option<String>,
    pub apply: Option<String>,
    pub status: Option<String>,
}

/// What a package says it may do to the provider.
#[derive(Debug)]
pub struct DeployProviderPolicy {
    pub creates_projects: bool,
    pub creates_services: bool,
    pub creates_resources: bool,
    pub creates_variables: bool,
    pub creates_domains: bool,
    pub prints_secret_values: bool,
}

/// A package's `provider.toml`.
#[derive(Debug)]
pub struct DeployProviderDescriptor {
    pub provider: DeployProviderMetadata,
    pub capabilities: DeployProviderCapabilities,
    pub policy: DeployProviderPolicy,
}

/// A resolved package: its root directory and its descriptor.
#[derive(Debug)]
pub struct DeployProviderPackage {
    pub root: String,
    pub descriptor: DeployProviderDescriptor,
}

/// A check in a provider phase report.
#[derive(Debug)]
pub struct DeployProviderPhaseCheck {
    pub name: String,
    pub status: String,
    pub target: Option<String>,
    pub message: Option<String>,
}

/// The report a provider script writes for one phase.
#[derive(Debug)]
pub struct DeployProviderPhaseReport {
    pub schema: String,
    pub phase: String,
    pub provider: String,
    pub status: String,
    pub checks: Vec<DeployProviderPhaseCheck>,
    pub warnings: Vec<String>,
    pub blockers: Vec<String>,
    pub files: Vec<String>,
}

/// `prefix` + "`" + `name` + "` " + `rest`.
pub open spec fn provider_message(name: Seq<char>, rest: Seq<char>) -> Seq<char> {
    "deploy provider `"@ + name + "` "@ + rest
}

/// Why a phase report of `provider` for `phase` is refused, if it is.
pub open spec fn phase_report_error(
    provider: Seq<char>,
    phase: Seq<char>,
    report: DeployProviderPhaseReport,
) -> Option<Seq<char>> {
    if report.schema@ != "effigy.deploy-provider.report.v1"@ {
        Some(
            provider_message(
                provider,
                phase + " report has unsupported schema `"@ + report.schema@ + "`"@,
            ),
        )
    } else if report.provider@ != provider {
        Some(
            provider_message(
                provider,
                phase + " report declares provider `"@ + report.provider@ + "`"@,
            ),
        )
    } else if report.phase@ != phase {
        Some(provider_message(provider, phase + " report declares phase `"@ + report.phase@ + "`"@))
    } else {
        None
    }
}

fn provider_error(name: &str, rest: String) -> (r: RunnerError)
    ensures
        is_invocation(r, provider_message(name@, rest@)),
{
    let mut m = crate::text::cat3("deploy provider `", name, "` ");
    m.append(rest.as_str());
    RunnerError::task_invocation(m.as_str())
}

/// A provider's phase report must carry the report schema and name the
/// provider and phase it was run for.
pub fn validate_provider_phase_report(
    provider_name: &str,
    phase: &str,
    report: &DeployProviderPhaseReport,
) -> (r: Result<(), RunnerError>)
    ensures
        match phase_report_error(provider_name@, phase@, *report) {
            None => r is Ok,
            Some(m) => r matches Err(e) && is_invocation(e, m),
        },
{
    if !str_eq(report.schema.as_str(), "effigy.deploy-provider.report.v1") {
        let mut rest = owned(phase);
        rest.append(" report has unsupported schema `");
        rest.append(report.schema.as_str());
        rest.append("`");
        return Err(provider_error(provider_name, rest));
    }
    if !str_eq(report.provider.as_str(), provider_name) {
        let mut rest = owned(phase);
        rest.append(" report declares provider `");
        rest.append(report.provider.as_str());
        rest.append("`");
        return Err(provider_error(provider_name, rest));
    }
    if !str_eq(report.phase.as_str(), phase) {
        let mut rest = owned(phase);
        rest.append(" report declares phase `");
        rest.append(report.phase.as_str());
        rest.append("`");
        return Err(provider_error(provider_name, rest));
    }
    Ok(())
}

/// The declared capabilities in phase order, with their phase names.
pub open spec fn capability_list(c: DeployProviderCapabilities) -> Seq<(Seq<char>, Option<String>)> {
    seq![
        ("checklist"@, c.checklist),
        ("export"@, c.export),
        ("validate"@, c.validate),
        ("preflight"@, c.preflight),
        ("apply"@, c.apply),
        ("status"@, c.status),
    ]
}

/// The message for a capability whose script is missing.
pub open spec fn missing_script_message(
    provider: Seq<char>,
    phase: Seq<char>,
    resolved: Seq<char>,
) -> Seq<char> {
    provider_message(provider, "capability `"@ + phase + "` points to missing script "@ + resolved)
}

/// Every declared capability must name a file under the package root; the
/// first that does not, in phase order, is the error. `is_file` answers for
/// a path whether it is a file.
pub fn validate_capability_paths<F: Fn(&str) -> bool>(
    root: &str,
    provider_name: &str,
    capabilities: &DeployProviderCapabilities,
    is_file: &F,
) -> (r: Result<(), RunnerError>)
    requires
        forall|p: &str| is_file.requires((p,)),
    ensures
        r is Ok ==> forall|i: int|
            0 <= i < 6 ==> ((#[trigger] capability_list(*capabilities)[i]).1 matches Some(path) ==> exists|
                p: &str,
            |
                p@ == join_path(root@, path@) && #[trigger] is_file.ensures((p,), true)),
        r matches Err(e) ==> exists|i: int, p: &str|
            {
                &&& 0 <= i < 6
                &&& (#[trigger] capability_list(*capabilities)[i]).1 matches Some(path)
                &&& p@ == join_path(root@, path@)
                &&& #[trigger] is_file.ensures((p,), false)
                &&& is_invocation(
                    e,
                    missing_script_message(provider_name@, capability_list(*capabilities)[i].0, p@),
                )
            },
{
    let phases: [(&str, &Option<String>); 6] = [
        ("checklist", &capabilities.checklist),
        ("export", &capabilities.export),
        ("validate", &capabilities.validate),
        ("preflight", &capabilities.preflight),
        ("apply", &capabilities.apply),
        ("status", &capabilities.status),
    ];
    proof {
        reveal_strlit("checklist");
        reveal_strlit("export");
        reveal_strlit("validate");
        reveal_strlit("preflight");
        reveal_strlit("apply");
        reveal_strlit("status");
    }
    let ghost caps = capability_list(*capabilities);
    let mut i: usize = 0;
    while i < 6
        invariant
            i <= 6,
            caps == capability_list(*capabilities),
            forall|k: int| 0 <= k < 6 ==> (#[trigger] phases@[k]).0@ == caps[k].0,
            forall|k: int| 0 <= k < 6 ==> *(#[trigger] phases@[k]).1 == caps[k].1,
            forall|p: &str| is_file.requires((p,)),
            forall|k: int|
                0 <= k < i ==> ((#[trigger] caps[k]).1 matches Some(path) ==> exists|p: &str|
                    p@ == join_path(root@, path@) && #[trigger] is_file.ensures((p,), true)),
        decreases 6 - i,
    {
        let (phase, path) = phases[i];
        assert(caps[i as int].1 == *path);
        match path {
            Some(path) => {
                let resolved = path_join(root, path.as_str());
                let found = is_file(resolved.as_str());
                if !found {
                    let mut rest = crate::text::cat3("capability `", phase, "` points to missing script ");
                    rest.append(resolved.as_str());
                    let e = provider_error(provider_name, rest);
                    assert(caps[i as int].0 == phase@);
                    return Err(e);
                }
            },
            None => {},
        }
        i = i + 1;
    }
    Ok(())
}

/// The lowercase hexadecimal SHA-256 digest of the UTF-8 bytes of a string.
pub uninterp spec fn sha256_hex_of(input: Seq<char>) -> Seq<char>;

/// Whether `c` is a lowercase hexadecimal digit.
pub open spec fn is_lower_hex(c: char) -> bool {
    ('0' <= c <= '9') || ('a' <= c <= 'f')
}

/// `Sha256::digest` of the UTF-8 bytes of `input`, written with `{:x}`:
/// the result is named by [`sha256_hex_of`]; `GenericArray`'s `LowerHex`
/// writes two lowercase hex digits for each of the digest's 32 bytes.
#[verifier::external_body]
fn sha256_hex(input: &str) -> (r: String)
    ensures
        r@ == sha256_hex_of(input@),
        r@.len() == 64,
        forall|i: int| 0 <= i < r@.len() ==> is_lower_hex(#[trigger] r@[i]),
{
    let mut hasher = Sha256::new();
    hasher.update(input.as_bytes());
    format!("{:x}", hasher.finalize())
}

/// `s` without leading `c`s (`trim_start_matches(c)`).
pub open spec fn strip_leading(s: Seq<char>, c: char) -> Seq<char>
    decreases s.len(),
{
    if s.len() > 0 && s[0] == c {
        strip_leading(s.drop_first(), c)
    } else {
        s
    }
}

/// `s` without trailing copies of `p` (`trim_end_matches(p)`, `p` not empty).
pub open spec fn strip_trailing(s: Seq<char>, p: Seq<char>) -> Seq<char>
    decreases s.len(),
{
    if p.len() > 0 && p.len() <= s.len() && s.skip(s.len() - p.len()) == p {
        strip_trailing(s.take(s.len() - p.len()), p)
    } else {
        s
    }
}

/// `s` without its leading `c`s (`trim_start_matches(c)`).
pub fn trim_start_char(s: &str, c: char) -> (r: String)
    ensures
        r@ == strip_leading(s@, c),
{
    let cs = chars_of(s);
    let mut i: usize = 0;
    assert(cs@.skip(0) == cs@);
    while i < cs.len() && cs[i] == c
        invariant
            cs@ == s@,
            i <= cs.len(),
            strip_leading(cs@.skip(i as int), c) == strip_leading(s@, c),
        decreases cs.len() - i,
    {
        assert(cs@.skip(i as int).drop_first() == cs@.skip(i + 1));
        i = i + 1;
    }
    assert(cs@.subrange(i as int, cs.len() as int) == cs@.skip(i as int));
    string_from_chars(&cs, i, cs.len())
}

fn trim_end_pattern(s: &str, p: &str) -> (r: String)
    requires
        p@.len() > 0,
    ensures
        r@ == strip_trailing(s@, p@),
{
    let cs = chars_of(s);
    let ps = chars_of(p);
    let mut end: usize = cs.len();
    assert(cs@.take(cs.len() as int) == cs@);
    loop
        invariant
            cs@ == s@,
            ps@ == p@,
            ps.len() > 0,
            end <= cs.len(),
            strip_trailing(cs@.take(end as int), p@) == strip_trailing(s@, p@),
        ensures
            cs@ == s@,
            end <= cs.len(),
            strip_trailing(cs@.take(end as int), p@) == strip_trailing(s@, p@),
            strip_trailing(cs@.take(end as int), p@) == cs@.take(end as int),
        decreases end,
    {
        let ghost t = cs@.take(end as int);
        if ps.len() > end {
            assert(strip_trailing(t, p@) == t);
            break;
        }
        let start = end - ps.len();
        let mut k: usize = 0;
        let mut same = true;
        while k < ps.len()
            invariant
                start + ps.len() == end,
                end <= cs.len(),
                k <= ps.len(),
                same == forall|j: int| 0 <= j < k ==> cs@[start + j] == ps@[j],
            decreases ps.len() - k,
        {
            if cs[start + k] != ps[k] {
                same = false;
            }
            k = k + 1;
        }
        if same {
            assert(t.skip(t.len() - p@.len()) == p@);
            assert(t.take(t.len() - p@.len()) == cs@.take(start as int));
            end = start;
        } else {
            assert(exists|j: int| 0 <= j < ps.len() && cs@[start + j] != ps@[j]);
            let ghost j = choose|j: int| 0 <= j < ps.len() && cs@[start + j] != ps@[j];
            assert(t.skip(t.len() - p@.len())[j] != p@[j]);
            assert(strip_trailing(t, p@) == t);
            break;
        }
    }
    assert(cs@.subrange(0, end as int) == cs@.take(end as int));
    string_from_chars(&cs, 0, end)
}

/// The repository path of a remote URL as the cache identity keeps it:
/// no leading `/`, no trailing `.git` or `/`, in ASCII lowercase.
pub open spec fn normalized_repo_path(path: Seq<char>) -> Seq<char> {
    lower(strip_trailing(strip_trailing(strip_leading(path, '/'), ".git"@), "/"@))
}

/// A remote repository path in the form the cache identity uses.
pub fn normalize_git_repo_path(path: &str) -> (r: String)
    ensures
        r@ == normalized_repo_path(path@),
{
    proof {
        reveal_strlit(".git");
        reveal_strlit("/");
    }
    let a = trim_start_char(path, '/');
    let b = trim_end_pattern(a.as_str(), ".git");
    let c = trim_end_pattern(b.as_str(), "/");
    crate::text::ascii_lowercase(c.as_str())
}

/// `s` with each `\` turned into `/`.
pub open spec fn forward_slashes(s: Seq<char>) -> Seq<char> {
    s.map_values(|c: char| if c == '\\' { '/' } else { c })
}

fn replace_backslashes(s: &str) -> (r: String)
    ensures
        r@ == forward_slashes(s@),
{
    let cs = chars_of(s);
    let mut out = String::new();
    let mut i: usize = 0;
    while i < cs.len()
        invariant
            i <= cs.len(),
            cs@ == s@,
            out@ == forward_slashes(s@).take(i as int),
        decreases cs.len() - i,
    {
        if cs[i] == '\\' {
            crate::text::push_char(&mut out, '/');
        } else {
            crate::text::push_char(&mut out, cs[i]);
        }
        assert(forward_slashes(s@).take(i + 1) == forward_slashes(s@).take(i as int).push(
            forward_slashes(s@)[i as int],
        ));
        i = i + 1;
    }
    assert(forward_slashes(s@).take(cs.len() as int) == forward_slashes(s@));
    out
}

/// A local repository path as the cache identity keeps it: the canonical
/// form of the path when `canonicalize` gives one, else the path as given,
/// with forward slashes.
pub fn normalize_local_git_path<C: Fn(&str) -> Option<String>>(path: &str, canonicalize: &C) -> (r:
    String)
    requires
        canonicalize.requires((path,)),
    ensures
        exists|c: Option<String>|
            #[trigger] canonicalize.ensures((path,), c) && r@ == forward_slashes(
                match c {
                    Some(s) => s@,
                    None => path@,
                },
            ),
{
    let c = canonicalize(path);
    match &c {
        Some(s) => replace_backslashes(s.as_str()),
        None => replace_backslashes(path),
    }
}

/// The first split of `s` at `c`, if `c` occurs (`split_once`).
pub open spec fn split_once(s: Seq<char>, c: char) -> Option<(Seq<char>, Seq<char>)> {
    let i = index_from(s, 0, c);
    if 0 <= i < s.len() {
        Some((s.take(i), s.skip(i + 1)))
    } else {
        None
    }
}

/// The text before and after the first `c` in `s`, if `c` occurs.
pub fn split_once_char(s: &str, c: char) -> (r: Option<(String, String)>)
    ensures
        match r {
            Some((a, b)) => split_once(s@, c) == Some((a@, b@)),
            None => split_once(s@, c) is None,
        },
{
    let cs = chars_of(s);
    match crate::text::find_char(&cs, 0, c) {
        Some(i) => {
            proof {
                lemma_index_from(s@, 0, c, i as int);
            }
            let a = string_from_chars(&cs, 0, i);
            let b = string_from_chars(&cs, i + 1, cs.len());
            assert(a@ == s@.take(i as int));
            assert(b@ == s@.skip(i + 1));
            Some((a, b))
        },
        None => {
            proof {
                lemma_index_from(s@, 0, c, s@.len() as int);
            }
            None
        },
    }
}

/// `s` after the prefix `p`, if `s` begins with it.
pub fn strip_prefix_str(s: &str, p: &str) -> (r: Option<String>)
    ensures
        match r {
            Some(rest) => has_prefix(s@, p@) && rest@ == s@.skip(p@.len() as int),
            None => !has_prefix(s@, p@),
        },
{
    if starts_with(s, p) {
        let cs = chars_of(s);
        let pl = chars_of(p).len();
        assert(cs@.subrange(pl as int, cs.len() as int) == s@.skip(p@.len() as int));
        Some(string_from_chars(&cs, pl, cs.len()))
    } else {
        None
    }
}

/// `host/path` of a remote URL, lowercase host and normalized path.
pub open spec fn remote_identity(host: Seq<char>, path: Seq<char>) -> Seq<char> {
    lower(host) + "/"@ + normalized_repo_path(path)
}

/// The identity of `url` when it names a remote repository: `git@host:path`,
/// or one of the `ssh://`, `https://`, `http://`, `git://` schemes with the
/// user part (up to the last `@`) dropped and the host ended by the first `/`.
pub open spec fn remote_git_identity(url: Seq<char>) -> Option<Seq<char>> {
    let t = trim(url);
    if has_prefix(t, "git@"@) && split_once(t.skip(4), ':') is Some {
        let (host, path) = split_once(t.skip(4), ':')->0;
        Some(remote_identity(host, path))
    } else {
        scheme_identity(t, 0)
    }
}

/// The URL schemes a remote identity is read from, in the order tried.
pub open spec fn remote_schemes() -> Seq<Seq<char>> {
    seq!["ssh://"@, "https://"@, "http://"@, "git://"@]
}

/// The identity read with the first scheme at or after `k` that fits `t`.
pub open spec fn scheme_identity(t: Seq<char>, k: int) -> Option<Seq<char>>
    decreases 4 - k,
{
    if k < 0 || k >= 4 {
        None
    } else {
        let p = remote_schemes()[k];
        if has_prefix(t, p) && split_once(split_on(t.skip(p.len() as int), '@').last(), '/') is Some {
            let (host, path) = split_once(split_on(t.skip(p.len() as int), '@').last(), '/')->0;
            Some(remote_identity(host, path))
        } else {
            scheme_identity(t, k + 1)
        }
    }
}

/// The local path that the cache identity of `url` is made from, when it
/// is not a remote URL: after `file://` if it has that prefix, else the
/// trimmed URL.
pub open spec fn local_git_path(url: Seq<char>) -> Seq<char> {
    let t = trim(url);
    if has_prefix(t, "file://"@) {
        t.skip(7)
    } else {
        t
    }
}

fn remote_git_identity_of(url: &str) -> (r: Option<String>)
    ensures
        match r {
            Some(s) => remote_git_identity(url@) == Some(s@),
            None => remote_git_identity(url@) is None,
        },
{
    proof {
        reveal_strlit("git@");
        reveal_strlit("/");
        reveal_strlit("ssh://");
        reveal_strlit("https://");
        reveal_strlit("http://");
        reveal_strlit("git://");
    }
    let trimmed = crate::text::trimmed(url);
    if let Some(rest) = strip_prefix_str(trimmed.as_str(), "git@") {
        if let Some((host, path)) = split_once_char(rest.as_str(), ':') {
            let mut out = crate::text::ascii_lowercase(host.as_str());
            out.append("/");
            let p = normalize_git_repo_path(path.as_str());
            out.append(p.as_str());
            return Some(out);
        }
    }
    let schemes = vec!["ssh://", "https://", "http://", "git://"];
    let ghost t = trim(url@);
    assert(!(has_prefix(t, "git@"@) && split_once(t.skip(4), ':') is Some) ==> remote_git_identity(url@) == scheme_identity(t, 0));
    let mut k: usize = 0;
    while k < 4
        invariant
            k <= 4,
            trimmed@ == t,
            t == trim(url@),
            schemes@.len() == 4,
            forall|j: int| 0 <= j < 4 ==> (#[trigger] schemes@[j])@ == remote_schemes()[j],
            remote_git_identity(url@) == scheme_identity(t, k as int),
        decreases 4 - k,
    {
        let scheme = schemes[k];
        if let Some(rest) = strip_prefix_str(trimmed.as_str(), scheme) {
            let pieces = split_str(rest.as_str(), '@');
            let last = &pieces[pieces.len() - 1];
            assert(last@ == split_on(t.skip(scheme@.len() as int), '@').last());
            if let Some((host, path)) = split_once_char(last.as_str(), '/') {
                let mut out = crate::text::ascii_lowercase(host.as_str());
                out.append("/");
                let p = normalize_git_repo_path(path.as_str());
                out.append(p.as_str());
                return Some(out);
            }
        }
        k = k + 1;
    }
    None
}

/// Whether `id` is an identity under which `url` may be cached: its remote
/// identity, or for a local path `local/` and the path's canonical form
/// (as one call of `canonicalize` gave it, the path itself where it gave
/// none), with forward slashes.
pub open spec fn cache_identity<C: Fn(&str) -> Option<String>>(
    url: Seq<char>,
    canonicalize: C,
    id: Seq<char>,
) -> bool {
    match remote_git_identity(url) {
        Some(remote) => id == remote,
        None => exists|p: &str, c: Option<String>|
            p@ == local_git_path(url) && #[trigger] canonicalize.ensures((p,), c) && id == "local/"@
                + forward_slashes(
                match c {
                    Some(s) => s@,
                    None => p@,
                },
            ),
    }
}

/// The identity under which a git provider source is cached: `host/path`
/// for a remote URL, else `local/` and the local path as
/// [`normalize_local_git_path`] gives it.
pub fn canonical_git_cache_identity<C: Fn(&str) -> Option<String>>(url: &str, canonicalize: &C) -> (r:
    String)
    requires
        forall|p: &str| canonicalize.requires((p,)),
    ensures
        cache_identity(url@, *canonicalize, r@),
{
    match remote_git_identity_of(url) {
        Some(id) => id,
        None => {
            proof {
                reveal_strlit("file://");
            }
            let trimmed = crate::text::trimmed(url);
            let local = match strip_prefix_str(trimmed.as_str(), "file://") {
                Some(rest) => rest,
                None => trimmed,
            };
            let n = normalize_local_git_path(local.as_str(), canonicalize);
            crate::text::cat("local/", n.as_str())
        },
    }
}

/// A cache directory name: each character other than an ASCII letter,
/// digit, `.`, `_` or `-` becomes `_`.
pub fn sanitize_cache_segment(value: &str) -> (r: String)
    ensures
        r@ == fill_unsafe(value@, '_'),
{
    replace_unsafe_chars(value, '_')
}

/// The git reference a source is checked out at: the given one, trimmed,
/// unless it is missing or blank, then `main`.
pub open spec fn effective_reference(reference: Option<Seq<char>>) -> Seq<char> {
    match reference {
        Some(r) => if trim(r).len() > 0 {
            trim(r)
        } else {
            "main"@
        },
        None => "main"@,
    }
}

/// `.effigy/cache/providers/git/<digest of id>/<reference>` under `repo_root`.
pub open spec fn git_cache_path(repo_root: Seq<char>, id: Seq<char>, reference: Seq<char>) -> Seq<char> {
    join_path(
        join_path(join_path(join_path(repo_root, ".effigy"@), "cache/providers/git"@), sha256_hex_of(id)),
        fill_unsafe(reference, '_'),
    )
}

/// Whether `checkout`, handed `url`, `reference` and `local`, may answer `out`.
pub open spec fn checkout_gave<K: Fn(&str, &str, &str) -> Result<(), RunnerError>>(
    checkout: K,
    url: Seq<char>,
    reference: Seq<char>,
    local: Seq<char>,
    out: Result<(), RunnerError>,
) -> bool {
    exists|u: &str, f: &str, l: &str|
        u@ == url && f@ == reference && l@ == local && #[trigger] checkout.ensures((u, f, l), out)
}

/// What resolving a git source gives: the cache path, once `checkout` has
/// brought the source there; or the error `checkout` reported.
pub open spec fn git_source_outcome<
    C: Fn(&str) -> Option<String>,
    K: Fn(&str, &str, &str) -> Result<(), RunnerError>,
>(
    repo_root: Seq<char>,
    url: Seq<char>,
    reference: Option<Seq<char>>,
    canonicalize: C,
    checkout: K,
    r: Result<String, RunnerError>,
) -> bool {
    exists|id: Seq<char>|
        #[trigger] cache_identity(url, canonicalize, id) && {
            let local = git_cache_path(repo_root, id, effective_reference(reference));
            match r {
                Ok(p) => p@ == local && checkout_gave(
                    checkout,
                    url,
                    effective_reference(reference),
                    local,
                    Ok(()),
                ),
                Err(e) => checkout_gave(checkout, url, effective_reference(reference), local, Err(e)),
            }
        }
}

/// The local checkout of a git provider source: a cache directory named by
/// the digest of the source's identity and by the reference, which
/// `checkout(url, reference, path)` fills.
pub fn resolve_git_provider_source<
    C: Fn(&str) -> Option<String>,
    K: Fn(&str, &str, &str) -> Result<(), RunnerError>,
>(
    repo_root: &str,
    url: &str,
    reference: Option<&str>,
    canonicalize: &C,
    checkout: &K,
) -> (r: Result<String, RunnerError>)
    requires
        forall|p: &str| canonicalize.requires((p,)),
        forall|u: &str, f: &str, l: &str| checkout.requires((u, f, l)),
    ensures
        git_source_outcome(
            repo_root@,
            url@,
            match reference {
                Some(f) => Some(f@),
                None => None,
            },
            *canonicalize,
            *checkout,
            r,
        ),
{
    let chosen: &str = match reference {
        Some(f) => {
            let t = crate::text::trim_str(f);
            if t.unicode_len() > 0 {
                t
            } else {
                "main"
            }
        },
        None => "main",
    };
    let id = canonical_git_cache_identity(url, canonicalize);
    let digest = sha256_hex(id.as_str());
    let segment = sanitize_cache_segment(chosen);
    let a = path_join(repo_root, ".effigy");
    let b = path_join(a.as_str(), "cache/providers/git");
    let c = path_join(b.as_str(), digest.as_str());
    let local = path_join(c.as_str(), segment.as_str());
    let ghost eff = effective_reference(
        match reference {
            Some(f) => Some(f@),
            None => None,
        },
    );
    assert(chosen@ == eff);
    assert(local@ == git_cache_path(repo_root@, id@, eff));
    match checkout(url, chosen, local.as_str()) {
        Ok(u) => {
            proof {
                crate::error::lemma_unit(u);
            }
            Ok(local)
        },
        Err(e) => Err(e),
    }
}

/// Why a descriptor read for `name` is refused, if it is.
pub open spec fn descriptor_error(name: Seq<char>, d: DeployProviderDescriptor) -> Option<Seq<char>> {
    if d.provider.schema@ != "effigy.deploy-provider.v1"@ {
        Some(provider_message(name, "descriptor has unsupported schema `"@ + d.provider.schema@ + "`"@))
    } else if d.provider.name@ != name {
        Some(provider_message(name, "resolved descriptor for `"@ + d.provider.name@ + "`"@))
    } else {
        None
    }
}

/// The message for a package with an OCI source.
pub open spec fn oci_message(name: Seq<char>, url: Seq<char>) -> Seq<char> {
    provider_message(
        name,
        "uses OCI source `"@ + url
            + "`, but provider OCI materialization is not implemented yet"@,
    )
}

/// What a package source resolves to: the directory under the repository,
/// the git checkout, or the refusal of an OCI source.
pub open spec fn source_outcome<
    C: Fn(&str) -> Option<String>,
    K: Fn(&str, &str, &str) -> Result<(), RunnerError>,
>(
    repo_root: Seq<char>,
    name: Seq<char>,
    source: DeployProviderSource,
    canonicalize: C,
    checkout: K,
    r: Result<String, RunnerError>,
) -> bool {
    match source {
        DeployProviderSource::Path { dir } => r matches Ok(p) && p@ == join_path(repo_root, dir@),
        DeployProviderSource::Git { url, reference } => git_source_outcome(
            repo_root,
            url@,
            match reference {
                Some(f) => Some(f@),
                None => None,
            },
            canonicalize,
            checkout,
            r,
        ),
        DeployProviderSource::Oci { url } => r matches Err(e) && is_invocation(
            e,
            oci_message(name, url@),
        ),
    }
}

/// Whether `read`, handed `root`, may answer `out`.
pub open spec fn read_gave<R: Fn(&str) -> Result<DeployProviderDescriptor, RunnerError>>(
    read: R,
    root: Seq<char>,
    out: Result<DeployProviderDescriptor, RunnerError>,
) -> bool {
    exists|p: &str| p@ == root && #[trigger] read.ensures((p,), out)
}

/// Whether every declared capability of `caps` names a file under `root`.
pub open spec fn capabilities_present<F: Fn(&str) -> bool>(
    root: Seq<char>,
    caps: DeployProviderCapabilities,
    is_file: F,
) -> bool {
    forall|i: int|
        0 <= i < 6 ==> ((#[trigger] capability_list(caps)[i]).1 matches Some(path) ==> exists|
            p: &str,
        | p@ == join_path(root, path@) && #[trigger] is_file.ensures((p,), true))
}

/// Whether `e` is the error for the first missing capability script.
pub open spec fn capability_missing<F: Fn(&str) -> bool>(
    root: Seq<char>,
    name: Seq<char>,
    caps: DeployProviderCapabilities,
    is_file: F,
    e: RunnerError,
) -> bool {
    exists|i: int, p: &str|
        {
            &&& 0 <= i < 6
            &&& (#[trigger] capability_list(caps)[i]).1 matches Some(path)
            &&& p@ == join_path(root, path@)
            &&& #[trigger] is_file.ensures((p,), false)
            &&& is_invocation(e, missing_script_message(name, capability_list(caps)[i].0, p@))
        }
}

/// The configured provider package of `provider_name`, if one is
/// configured: its source is resolved to a root directory (`checkout`
/// fetching a git source), its `provider.toml` read by `read_descriptor`,
/// and the descriptor must carry the provider schema, name this provider,
/// and point only at scripts that exist (`is_file`).
pub fn resolve_provider_package<
    C: Fn(&str) -> Option<String>,
    K: Fn(&str, &str, &str) -> Result<(), RunnerError>,
    R: Fn(&str) -> Result<DeployProviderDescriptor, RunnerError>,
    F: Fn(&str) -> bool,
>(
    repo_root: &str,
    provider_name: &str,
    providers: &Vec<(String, ManifestDeployProviderConfig)>,
    canonicalize: &C,
    checkout: &K,
    read_descriptor: &R,
    is_file: &F,
) -> (r: Result<Option<DeployProviderPackage>, RunnerError>)
    requires
        forall|p: &str| canonicalize.requires((p,)),
        forall|u: &str, f: &str, l: &str| checkout.requires((u, f, l)),
        forall|p: &str| read_descriptor.requires((p,)),
        forall|p: &str| is_file.requires((p,)),
    ensures
        match crate::text::key_index(providers@, provider_name@) {
            None => r matches Ok(None),
            Some(i) => {
                let source = providers@[i].1.source;
                &&& !(r matches Ok(None))
                &&& r matches Ok(Some(pkg)) ==> {
                    &&& source_outcome(
                        repo_root@,
                        provider_name@,
                        source,
                        *canonicalize,
                        *checkout,
                        Ok(pkg.root),
                    )
                    &&& read_gave(*read_descriptor, pkg.root@, Ok(pkg.descriptor))
                    &&& descriptor_error(provider_name@, pkg.descriptor) is None
                    &&& capabilities_present(pkg.root@, pkg.descriptor.capabilities, *is_file)
                }
                &&& r matches Err(e) ==> {
                    ||| source_outcome(
                        repo_root@,
                        provider_name@,
                        source,
                        *canonicalize,
                        *checkout,
                        Err(e),
                    )
                    ||| exists|root: String|
                        {
                            &&& #[trigger] source_outcome(
                                repo_root@,
                                provider_name@,
                                source,
                                *canonicalize,
                                *checkout,
                                Ok(root),
                            )
                            &&& {
                                ||| read_gave(*read_descriptor, root@, Err(e))
                                ||| exists|d: DeployProviderDescriptor|
                                    #[trigger] read_gave(*read_descriptor, root@, Ok(d)) && (
                                    match descriptor_error(provider_name@, d) {
                                        Some(m) => is_invocation(e, m),
                                        None => capability_missing(
                                            root@,
                                            provider_name@,
                                            d.capabilities,
                                            *is_file,
                                            e,
                                        ),
                                    })
                            }
                        }
                }
            },
        },
{
    let i = match crate::text::find_key(providers, provider_name) {
        Some(i) => i,
        None => return Ok(None),
    };
    let config = &providers[i].1;
    let root = match &config.source {
        DeployProviderSource::Path { dir } => path_join(repo_root, dir.as_str()),
        DeployProviderSource::Git { url, reference } => {
            let f: Option<&str> = match reference {
                Some(f) => Some(f.as_str()),
                None => None,
            };
            match resolve_git_provider_source(repo_root, url.as_str(), f, canonicalize, checkout) {
                Ok(p) => p,
                Err(e) => return Err(e),
            }
        },
        DeployProviderSource::Oci { url } => {
            let rest = crate::text::cat3("uses OCI source `", url.as_str(), "`, but provider OCI materialization is not implemented yet");
            return Err(provider_error(provider_name, rest));
        },
    };
    let ghost root_v = root;
    assert(source_outcome(
        repo_root@,
        provider_name@,
        config.source,
        *canonicalize,
        *checkout,
        Ok(root_v),
    ));
    let descriptor = match read_descriptor(root.as_str()) {
        Ok(d) => d,
        Err(e) => {
            assert(read_gave(*read_descriptor, root_v@, Err(e)));
            return Err(e);
        },
    };
    let ghost d_v = descriptor;
    assert(read_gave(*read_descriptor, root_v@, Ok(d_v)));
    if !str_eq(descriptor.provider.schema.as_str(), "effigy.deploy-provider.v1") {
        let rest = crate::text::cat3("descriptor has unsupported schema `", descriptor.provider.schema.as_str(), "`");
        return Err(provider_error(provider_name, rest));
    }
    if !str_eq(descriptor.provider.name.as_str(), provider_name) {
        let rest = crate::text::cat3("resolved descriptor for `", descriptor.provider.name.as_str(), "`");
        return Err(provider_error(provider_name, rest));
    }
    match validate_capability_paths(root.as_str(), provider_name, &descriptor.capabilities, is_file) {
        Ok(u) => {
            proof {
                crate::error::lemma_unit(u);
            }
        },
        Err(e) => return Err(e),
    }
    Ok(Some(DeployProviderPackage { root, descriptor }))
}

/// The message for a git run that failed: the arguments joined by spaces,
/// and git's own error output, trimmed, when it wrote any.
pub open spec fn git_failure_message(args: Seq<Seq<char>>, stderr: Seq<char>) -> Seq<char> {
    let head = "git "@ + crate::text::join_seq(args, " "@) + " failed for deploy provider package"@;
    if trim(stderr).len() == 0 {
        head
    } else {
        head + ": "@ + trim(stderr)
    }
}

/// The error for a git run with `args` that failed with error output
/// `stderr`.
pub fn git_failure_error(args: &Vec<String>, stderr: &str) -> (e: RunnerError)
    ensures
        is_invocation(e, git_failure_message(crate::text::views(args@), stderr@)),
{
    let detail = crate::text::trim_str(stderr);
    let mut m = "git ".to_owned();
    let joined = crate::text::join(args, " ");
    m.append(joined.as_str());
    m.append(" failed for deploy provider package");
    if detail.unicode_len() > 0 {
        m.append(": ");
        m.append(detail);
    }
    RunnerError::task_invocation(m.as_str())
}

/// The git runs that bring the checkout at `local_path` to `reference` of
/// `url`, each with the directory it runs in (`None`: the current one):
/// a clone without checkout when there is no checkout yet, then pointing
/// `origin` at `url`, a shallow fetch of `reference`, and a detached
/// checkout of what was fetched.
pub open spec fn git_checkout_steps(
    url: Seq<char>,
    reference: Seq<char>,
    local_path: Seq<char>,
    has_checkout: bool,
) -> Seq<(Option<Seq<char>>, Seq<Seq<char>>)> {
    let update = seq![
        (Some(local_path), seq!["remote"@, "set-url"@, "origin"@, url]),
        (Some(local_path), seq!["fetch"@, "--depth"@, "1"@, "origin"@, reference]),
        (Some(local_path), seq!["checkout"@, "--detach"@, "FETCH_HEAD"@]),
    ];
    if has_checkout {
        update
    } else {
        seq![(None::<Seq<char>>, seq!["clone"@, "--no-checkout"@, url, local_path])] + update
    }
}

/// Whether `run_git`, run in `cwd` with `args`, may have answered `out`.
pub open spec fn git_ran<G: Fn(Option<&str>, &Vec<String>) -> Result<(), RunnerError>>(
    run_git: G,
    cwd: Option<Seq<char>>,
    args: Seq<Seq<char>>,
    out: Result<(), RunnerError>,
) -> bool {
    exists|c: Option<&str>, a: &Vec<String>|
        crate::deferral::str_opt(c) == cwd && crate::text::views(a@) == args && #[trigger] run_git.ensures(
            (c, a),
            out,
        )
}

/// The message for a cache path that is taken by something other than a
/// directory.
pub open spec fn cache_path_message(name: Seq<char>, local_path: Seq<char>) -> Seq<char> {
    "deploy provider `"@ + name + "` cache path exists but is not a directory: "@ + local_path
}

/// Runs one git step, with its arguments as owned strings.
fn git_step<G: Fn(Option<&str>, &Vec<String>) -> Result<(), RunnerError>>(
    run_git: &G,
    cwd: Option<&str>,
    args: Vec<String>,
) -> (r: Result<(), RunnerError>)
    requires
        forall|c: Option<&str>, a: &Vec<String>| run_git.requires((c, a)),
    ensures
        git_ran(*run_git, crate::deferral::str_opt(cwd), crate::text::views(args@), r),
{
    let r = run_git(cwd, &args);
    assert(git_ran(*run_git, crate::deferral::str_opt(cwd), crate::text::views(args@), r));
    r
}

/// Brings the git checkout of a provider package at `local_path` to
/// `reference` of `url`. Where there is no checkout yet (`has_checkout`),
/// a path that exists but is no directory is refused; otherwise the parent
/// directory is created (`create_parent`) and the repository cloned. Then
/// the steps of `git_checkout_steps` run through `run_git`, in order,
/// stopping at the first that fails.
pub fn ensure_git_checkout<P, G>(
    provider_name: &str,
    url: &str,
    reference: &str,
    local_path: &str,
    has_checkout: bool,
    path_exists: bool,
    path_is_dir: bool,
    create_parent: P,
    run_git: &G,
) -> (r: Result<(), RunnerError>) where
    P: FnOnce() -> Result<(), RunnerError>,
    G: Fn(Option<&str>, &Vec<String>) -> Result<(), RunnerError>,

    requires
        create_parent.requires(()),
        forall|c: Option<&str>, a: &Vec<String>| run_git.requires((c, a)),
    ensures
        !has_checkout && path_exists && !path_is_dir ==> (r matches Err(e) && is_invocation(
            e,
            cache_path_message(provider_name@, local_path@),
        )),
        r is Ok ==> {
            let steps = git_checkout_steps(url@, reference@, local_path@, has_checkout);
            &&& !has_checkout ==> create_parent.ensures((), Ok(()))
            &&& forall|i: int|
                0 <= i < steps.len() ==> #[trigger] git_ran(*run_git, steps[i].0, steps[i].1, Ok(()))
        },
        r matches Err(e) ==> {
            let steps = git_checkout_steps(url@, reference@, local_path@, has_checkout);
            ||| (!has_checkout && path_exists && !path_is_dir)
            ||| (!has_checkout && create_parent.ensures((), Err(e)))
            ||| exists|i: int|
                0 <= i < steps.len() && (forall|j: int| 0 <= j < i ==> #[trigger] git_ran(*run_git, steps[j].0, steps[j].1, Ok(())))
                    && #[trigger] git_ran(*run_git, steps[i].0, steps[i].1, Err(e))
        },
{
    let ghost steps = git_checkout_steps(url@, reference@, local_path@, has_checkout);
    let ghost offset: int = if has_checkout { 0 } else { 1 };
    if !has_checkout {
        if path_exists && !path_is_dir {
            let mut m = crate::text::cat3("deploy provider `", provider_name, "` cache path exists but is not a directory: ");
            m.append(local_path);
            return Err(RunnerError::task_invocation(m.as_str()));
        }
        match create_parent() {
            Ok(u) => {
                proof {
                    crate::error::lemma_unit(u);
                }
            },
            Err(e) => return Err(e),
        }
        let clone = vec![
            "clone".to_owned(),
            "--no-checkout".to_owned(),
            owned(url),
            owned(local_path),
        ];
        assert(crate::text::views(clone@) == steps[0].1);
        match git_step(run_git, None, clone) {
            Ok(u) => {
                proof {
                    crate::error::lemma_unit(u);
                }
            },
            Err(e) => {
                assert(git_ran(*run_git, steps[0].0, steps[0].1, Err(e)));
                return Err(e);
            },
        }
        assert(git_ran(*run_git, steps[0].0, steps[0].1, Ok(())));
    }
    let remote = vec!["remote".to_owned(), "set-url".to_owned(), "origin".to_owned(), owned(url)];
    assert(crate::text::views(remote@) == steps[offset].1);
    match git_step(run_git, Some(local_path), remote) {
        Ok(u) => {
            proof {
                crate::error::lemma_unit(u);
            }
        },
        Err(e) => {
            assert(git_ran(*run_git, steps[offset].0, steps[offset].1, Err(e)));
            return Err(e);
        },
    }
    assert(git_ran(*run_git, steps[offset].0, steps[offset].1, Ok(())));
    let fetch = vec![
        "fetch".to_owned(),
        "--depth".to_owned(),
        "1".to_owned(),
        "origin".to_owned(),
        owned(reference),
    ];
    assert(crate::text::views(fetch@) == steps[offset + 1].1);
    match git_step(run_git, Some(local_path), fetch) {
        Ok(u) => {
            proof {
                crate::error::lemma_unit(u);
            }
        },
        Err(e) => {
            assert(git_ran(*run_git, steps[offset + 1].0, steps[offset + 1].1, Err(e)));
            return Err(e);
        },
    }
    assert(git_ran(*run_git, steps[offset + 1].0, steps[offset + 1].1, Ok(())));
    let checkout = vec!["checkout".to_owned(), "--detach".to_owned(), "FETCH_HEAD".to_owned()];
    assert(crate::text::views(checkout@) == steps[offset + 2].1);
    match git_step(run_git, Some(local_path), checkout) {
        Ok(u) => {
            proof {
                crate::error::lemma_unit(u);
            }
        },
        Err(e) => {
            assert(git_ran(*run_git, steps[offset + 2].0, steps[offset + 2].1, Err(e)));
            return Err(e);
        },
    }
    assert(git_ran(*run_git, steps[offset + 2].0, steps[offset + 2].1, Ok(())));
    Ok(())
}

} // verus!