//! Handing a request that no catalog defines to a deferred command: when to
//! try, which catalog's command to use, and the command line it becomes.
use vstd::prelude::*;
use crate::error::{is_invocation, RunnerError};
use crate::text::{has_prefix, has_suffix, seq_lt, str_eq, trim, trim_start, views};

verus! {

/// The commands the runner itself provides at the top level; a task of a
/// root manifest with one of these names is deferred, not run.
pub open spec fn builtin_commands() -> Seq<Seq<char>> {
    seq![
        "artifact"@, "bootstrap"@, "bundle"@, "changelog"@, "container"@, "contracts"@,
        "defer"@, "demo"@, "deploy"@, "distribution"@, "docs"@, "doctor"@, "exec"@,
        "gateway"@, "release"@, "service"@, "system"@, "tasks"@, "workspace"@,
    ]
}

/// Whether `name` is one of the runner's own top-level commands.
pub fn is_top_level_builtin_command(name: &str) -> (r: bool)
    ensures
        r == builtin_commands().contains(name@),
{
    let names = [
        "artifact", "bootstrap", "bundle", "changelog", "container", "contracts", "defer", "demo",
        "deploy", "distribution", "docs", "doctor", "exec", "gateway", "release", "service",
        "system", "tasks", "workspace",
    ];
    let ghost b = builtin_commands();
    assert(forall|k: int| 0 <= k < 19 ==> (#[trigger] names@[k])@ == b[k]);
    let mut i: usize = 0;
    while i < 19
        invariant
            i <= 19,
            b == builtin_commands(),
            forall|k: int| 0 <= k < 19 ==> (#[trigger] names@[k])@ == b[k],
            forall|k: int| 0 <= k < i ==> b[k] != name@,
        decreases 19 - i,
    {
        if str_eq(names[i], name) {
            assert(b[i as int] == name@);
            return true;
        }
        i = i + 1;
    }
    assert(!b.contains(name@));
    false
}

/// Whether a failed task selection is handed to a deferred command: only
/// when no catalog knows the task, and never from inside a deferral (when
/// the deferral depth is set).
pub open spec fn attempts_deferral(depth_set: bool, error: RunnerError) -> bool {
    !depth_set && (error is TaskNotFoundAny || error is TaskCatalogPrefixNotFound
        || error is TaskNotFound)
}

/// Whether to try a deferred command after `error`; `depth_set` tells
/// whether the deferral depth variable is set in the environment.
pub fn should_attempt_deferral(depth_set: bool, error: &RunnerError) -> (r: bool)
    ensures
        r == attempts_deferral(depth_set, *error),
{
    if depth_set {
        return false;
    }
    match error {
        RunnerError::TaskNotFoundAny { .. } => true,
        RunnerError::TaskCatalogPrefixNotFound { .. } => true,
        RunnerError::TaskNotFound { .. } => true,
        _ => false,
    }
}

/// What `str::parse::<u8>` gives for `s`.
pub open spec fn parse_u8(s: Seq<char>) -> Option<u8> {
    match crate::text::parse_unsigned(s) {
        Some(n) => if n <= 255 {
            Some(n as u8)
        } else {
            None
        },
        None => None,
    }
}

/// `s.parse::<u8>()`, as an option.
pub fn parse_depth(s: &str) -> (r: Option<u8>)
    ensures
        r == parse_u8(s@),
{
    match crate::text::parse_bounded(s, 255) {
        Some(n) => Some(n as u8),
        None => None,
    }
}

/// The deferral depth the environment records (`None` when unset), as the
/// runner reads it: a depth that does not parse counts as 0. A request
/// already deferred once is not deferred again.
pub fn check_defer_depth(depth: Option<&str>) -> (r: Result<u8, RunnerError>)
    ensures
        ({
            let current: u8 = match depth {
                Some(s) => match parse_u8(s@) {
                    Some(n) => n,
                    None => 0,
                },
                None => 0,
            };
            if current >= 1 {
                r matches Err(RunnerError::DeferLoopDetected { depth: d }) && d == current
            } else {
                r == Ok::<u8, RunnerError>(0)
            }
        }),
{
    let current: u8 = match depth {
        Some(s) => match parse_depth(s) {
            Some(n) => n,
            None => 0,
        },
        None => 0,
    };
    if current >= 1 {
        return Err(RunnerError::DeferLoopDetected { depth: current });
    }
    Ok(0)
}

/// The shell that runs a deferred command and the flag it takes the
/// command with: the configured shell unless it is blank (else `sh`), run
/// interactively (`-ic`) when it is zsh or bash so that their rc files apply.
pub open spec fn deferral_shell_spec(shell: Option<Seq<char>>) -> (Seq<char>, Seq<char>) {
    let sh = match shell {
        Some(s) => if trim(s).len() > 0 {
            s
        } else {
            "sh"@
        },
        None => "sh"@,
    };
    (sh, if has_suffix(sh, "zsh"@) || has_suffix(sh, "bash"@) {
        "-ic"@
    } else {
        "-c"@
    })
}

/// The shell and its command flag for a deferred command, from `$SHELL`.
pub fn deferral_shell(shell: Option<&str>) -> (r: (String, String))
    ensures
        (r.0@, r.1@) == deferral_shell_spec(
            match shell {
                Some(s) => Some(s@),
                None => None,
            },
        ),
{
    let sh = match shell {
        Some(s) => {
            let t = crate::text::trim_str(s);
            if t.unicode_len() > 0 {
                crate::text::owned(s)
            } else {
                "sh".to_owned()
            }
        },
        None => "sh".to_owned(),
    };
    let flag = if crate::text::ends_with(sh.as_str(), "zsh") || crate::text::ends_with(
        sh.as_str(),
        "bash",
    ) {
        "-ic".to_owned()
    } else {
        "-c".to_owned()
    };
    (sh, flag)
}

/// The `PATH` a deferred `composer global exec` command runs with: the
/// composer home's `vendor/bin` (`$COMPOSER_HOME`, else
/// `$HOME/.config/composer`) ahead of the current `PATH`. Other commands
/// keep the environment's `PATH`.
pub open spec fn deferral_path_spec(
    command: Seq<char>,
    composer_home: Option<Seq<char>>,
    home: Option<Seq<char>>,
    path: Option<Seq<char>>,
) -> Option<Seq<char>> {
    if !has_prefix(trim_start(command), "composer global exec "@) {
        None
    } else {
        let base = match composer_home {
            Some(c) => Some(c),
            None => match home {
                Some(h) => Some(crate::paths::join_path(h, ".config/composer"@)),
                None => None,
            },
        };
        match base {
            Some(b) => Some(
                crate::paths::join_path(b, "vendor/bin"@) + ":"@ + match path {
                    Some(p) => p,
                    None => Seq::empty(),
                },
            ),
            None => None,
        }
    }
}

/// The `PATH` override for a deferred command, if it needs one.
pub fn preferred_local_deferral_path(
    command: &str,
    composer_home: Option<&str>,
    home: Option<&str>,
    path: Option<&str>,
) -> (r: Option<String>)
    ensures
        crate::deploy::render::opt_view(r) == deferral_path_spec(
            command@,
            match composer_home {
                Some(s) => Some(s@),
                None => None,
            },
            match home {
                Some(s) => Some(s@),
                None => None,
            },
            match path {
                Some(s) => Some(s@),
                None => None,
            },
        ),
{
    let cs = crate::text::chars_of(command);
    let mut i: usize = 0;
    assert(cs@.skip(0) == cs@);
    while i < cs.len() && crate::text::char_is_whitespace(cs[i])
        invariant
            cs@ == command@,
            i <= cs.len(),
            trim_start(command@) == trim_start(cs@.skip(i as int)),
        decreases cs.len() - i,
    {
        assert(cs@.skip(i as int).drop_first() == cs@.skip(i + 1));
        i = i + 1;
    }
    let rest = crate::text::string_from_chars(&cs, i, cs.len());
    assert(rest@ == cs@.skip(i as int));
    assert(trim_start(cs@.skip(i as int)) == cs@.skip(i as int));
    if !crate::text::starts_with(rest.as_str(), "composer global exec ") {
        return None;
    }
    let base = match composer_home {
        Some(c) => crate::text::owned(c),
        None => match home {
            Some(h) => crate::paths::path_join(h, ".config/composer"),
            None => return None,
        },
    };
    let mut out = crate::paths::path_join(base.as_str(), "vendor/bin");
    out.append(":");
    match path {
        Some(p) => out.append(p),
        None => {},
    }
    Some(out)
}

/// Where the `composer global exec` `PATH` comes from: when `COMPOSER_HOME`
/// is set, the override starts with `COMPOSER_HOME`, is its `vendor/bin`
/// followed by `:` and the current `PATH`, and is the same whatever `HOME`
/// is; `HOME/.config/composer` is used only when `COMPOSER_HOME` is absent,
/// and with neither there is no override.
pub proof fn lemma_deferral_path_prefers_composer_home(
    command: Seq<char>,
    composer_home: Seq<char>,
    home: Option<Seq<char>>,
    other_home: Option<Seq<char>>,
    path: Option<Seq<char>>,
)
    requires
        has_prefix(trim_start(command), "composer global exec "@),
    ensures
        ({
            let rest = match path {
                Some(p) => p,
                None => Seq::<char>::empty(),
            };
            let r = deferral_path_spec(command, Some(composer_home), home, path);
            &&& r == Some(crate::paths::join_path(composer_home, "vendor/bin"@) + ":"@ + rest)
            &&& r.unwrap().take(composer_home.len() as int) == composer_home
            &&& r.unwrap().len() > composer_home.len()
        }),
        deferral_path_spec(command, Some(composer_home), home, path) == deferral_path_spec(
            command,
            Some(composer_home),
            other_home,
            path,
        ),
        forall|h: Seq<char>|
            #[trigger] deferral_path_spec(command, None, Some(h), path) == Some(
                crate::paths::join_path(
                    crate::paths::join_path(h, ".config/composer"@),
                    "vendor/bin"@,
                ) + ":"@ + match path {
                    Some(p) => p,
                    None => Seq::<char>::empty(),
                },
            ),
        deferral_path_spec(command, None, None, path) is None,
{
    reveal_strlit("vendor/bin");
    reveal_strlit(":");
    let rest = match path {
        Some(p) => p,
        None => Seq::<char>::empty(),
    };
    let j = crate::paths::join_path(composer_home, "vendor/bin"@);
    crate::paths::lemma_join_path_under_base(composer_home, "vendor/bin"@);
    assert(!crate::paths::is_absolute("vendor/bin"@));
    assert((j + ":"@ + rest).take(composer_home.len() as int) =~= j.take(
        composer_home.len() as int,
    ));
}

/// `s` with every occurrence of `p` replaced by `w`, left to right without
/// overlap (`str::replace`).
pub open spec fn replace_all(s: Seq<char>, p: Seq<char>, w: Seq<char>) -> Seq<char>
    decreases s.len(),
{
    if s.len() == 0 || p.len() == 0 {
        s
    } else if has_prefix(s, p) {
        w + replace_all(s.skip(p.len() as int), p, w)
    } else {
        seq![s[0]] + replace_all(s.drop_first(), p, w)
    }
}

/// `s.replace(p, w)` for a non-empty `p`.
pub fn replace_str(s: &str, p: &str, w: &str) -> (r: String)
    requires
        p@.len() > 0,
    ensures
        r@ == replace_all(s@, p@, w@),
{
    let cs = crate::text::chars_of(s);
    let ps = crate::text::chars_of(p);
    let mut out = String::new();
    let mut i: usize = 0;
    assert(cs@.skip(0) == cs@);
    assert(out@ + replace_all(cs@, ps@, w@) == replace_all(cs@, ps@, w@));
    while i < cs.len()
        invariant
            cs@ == s@,
            ps@ == p@,
            ps.len() > 0,
            i <= cs.len(),
            out@ + replace_all(cs@.skip(i as int), ps@, w@) == replace_all(cs@, ps@, w@),
        decreases cs.len() - i,
    {
        let ghost rest = cs@.skip(i as int);
        if crate::text::matches_at(&cs, i, &ps) {
            assert(rest.skip(ps.len() as int) == cs@.skip(i + ps.len()));
            let ghost before = out@;
            out.append(w);
            assert(out@ + replace_all(cs@.skip(i + ps.len()), ps@, w@) == before + (w@
                + replace_all(rest.skip(ps.len() as int), ps@, w@)));
            i = i + ps.len();
        } else {
            crate::text::push_char(&mut out, cs[i]);
            assert(rest.drop_first() == cs@.skip(i + 1));
            assert(rest[0] == cs@[i as int]);
            assert(out@ + replace_all(cs@.skip(i + 1), ps@, w@) == out@.drop_last() + (seq![
                cs@[i as int],
            ] + replace_all(rest.drop_first(), ps@, w@)));
            i = i + 1;
        }
    }
    assert(cs@.skip(cs.len() as int).len() == 0);
    assert(out@ + Seq::<char>::empty() == out@);
    out
}

/// The command line of a deferral: the template with `{request}`, then
/// `{args}` (the passthrough arguments joined by spaces), then `{repo}`
/// (the repository path, quoted for the shell) filled in.
pub open spec fn deferred_command_spec(
    template: Seq<char>,
    request: Seq<char>,
    args: Seq<Seq<char>>,
    quoted_repo: Seq<char>,
) -> Seq<char> {
    replace_all(
        replace_all(
            replace_all(template, "{request}"@, request),
            "{args}"@,
            crate::text::join_seq(args, " "@),
        ),
        "{repo}"@,
        quoted_repo,
    )
}

/// The command line a deferral runs for `request`.
pub fn build_deferred_command(
    template: &str,
    request: &str,
    passthrough: &Vec<String>,
    quoted_repo: &str,
) -> (r: String)
    ensures
        r@ == deferred_command_spec(template@, request@, views(passthrough@), quoted_repo@),
{
    proof {
        reveal_strlit("{request}");
        reveal_strlit("{args}");
        reveal_strlit("{repo}");
    }
    let args = crate::text::join(passthrough, " ");
    let a = replace_str(template, "{request}", request);
    let b = replace_str(a.as_str(), "{args}", args.as_str());
    replace_str(b.as_str(), "{repo}", quoted_repo)
}

/// Where a deferred command runs.
#[derive(Debug, Clone, Copy, PartialEq, Eq, Structural)]
pub enum DeferRunIn {
    Host,
    Container,
    Either,
}

/// A loaded task catalog, as deferral selection reads it.
#[derive(Debug)]
pub struct DeferralCatalog {
    pub alias: String,
    pub catalog_root: String,
    pub manifest_path: String,
    pub depth: usize,
    /// The catalog's `[defer].run` template, if it has one.
    pub defer_run: Option<String>,
    /// The catalog's `[defer].run_in`, if set.
    pub run_in: Option<DeferRunIn>,
}

/// The deferred command a catalog provides.
#[derive(Debug)]
pub struct DeferredCommand {
    pub template: String,
    pub working_dir: String,
    pub source: String,
    pub run_in: DeferRunIn,
}

/// The command `c` provides, when it has a `[defer].run` template: run in
/// its root, described by its alias and manifest, on the host unless it says.
pub open spec fn command_from(c: DeferralCatalog, d: DeferredCommand) -> bool {
    &&& c.defer_run matches Some(t) && d.template == t
    &&& d.working_dir == c.catalog_root
    &&& d.source@ == "catalog "@ + c.alias@ + " ("@ + c.manifest_path@ + ")"@
    &&& d.run_in == match c.run_in {
        Some(r) => r,
        None => DeferRunIn::Host,
    }
}

fn defer_command_from_catalog(c: &DeferralCatalog) -> (r: Option<DeferredCommand>)
    ensures
        match r {
            Some(d) => command_from(*c, d),
            None => c.defer_run is None,
        },
{
    match &c.defer_run {
        Some(t) => {
            let mut source = crate::text::cat3("catalog ", c.alias.as_str(), " (");
            source.append(c.manifest_path.as_str());
            source.append(")");
            Some(
                DeferredCommand {
                    template: t.clone(),
                    working_dir: c.catalog_root.clone(),
                    source,
                    run_in: match c.run_in {
                        Some(r) => r,
                        None => DeferRunIn::Host,
                    },
                },
            )
        },
        None => None,
    }
}

/// Whether `a` is chosen over `b` among the catalogs whose scope holds the
/// working directory: the deeper catalog, then the smaller alias, then the
/// smaller manifest path.
pub open spec fn in_scope_before(a: DeferralCatalog, b: DeferralCatalog) -> bool {
    ||| a.depth > b.depth
    ||| a.depth == b.depth && seq_lt(a.alias@, b.alias@)
    ||| a.depth == b.depth && a.alias@ == b.alias@ && seq_lt(a.manifest_path@, b.manifest_path@)
}

/// Whether `a` is chosen over `b` as the fallback: the shallower catalog,
/// then the smaller alias, then the smaller manifest path.
pub open spec fn fallback_before(a: DeferralCatalog, b: DeferralCatalog) -> bool {
    ||| a.depth < b.depth
    ||| a.depth == b.depth && seq_lt(a.alias@, b.alias@)
    ||| a.depth == b.depth && a.alias@ == b.alias@ && seq_lt(a.manifest_path@, b.manifest_path@)
}

/// Whether index `i` is the catalog that a stable sort by the order puts
/// first among those eligible.
pub open spec fn first_chosen(cs: Seq<DeferralCatalog>, cwd: Seq<char>, in_scope: bool, i: int) -> bool {
    &&& 0 <= i < cs.len() && eligible(cs[i], cwd, in_scope)
    &&& forall|j: int|
        0 <= j < cs.len() && j != i && eligible(#[trigger] cs[j], cwd, in_scope) ==> (if j < i {
            before_in(in_scope, cs[i], cs[j])
        } else {
            !before_in(in_scope, cs[j], cs[i])
        })
}

fn better(a: &DeferralCatalog, b: &DeferralCatalog, deeper: bool) -> (r: bool)
    ensures
        r == if deeper {
            in_scope_before(*a, *b)
        } else {
            fallback_before(*a, *b)
        },
{
    let depth_first = if deeper {
        a.depth > b.depth
    } else {
        a.depth < b.depth
    };
    if depth_first {
        return true;
    }
    if a.depth != b.depth {
        return false;
    }
    if crate::text::str_lt(a.alias.as_str(), b.alias.as_str()) {
        return true;
    }
    str_eq(a.alias.as_str(), b.alias.as_str()) && crate::text::str_lt(
        a.manifest_path.as_str(),
        b.manifest_path.as_str(),
    )
}

proof fn lemma_before_order(a: DeferralCatalog, b: DeferralCatalog, c: DeferralCatalog)
    ensures
        in_scope_before(a, b) && in_scope_before(b, c) ==> in_scope_before(a, c),
        in_scope_before(a, c) ==> in_scope_before(a, b) || in_scope_before(b, c),
        fallback_before(a, b) && fallback_before(b, c) ==> fallback_before(a, c),
        fallback_before(a, c) ==> fallback_before(a, b) || fallback_before(b, c),
{
    crate::text::lemma_seq_lt_order(a.alias@, b.alias@, c.alias@);
    crate::text::lemma_seq_lt_order(a.manifest_path@, b.manifest_path@, c.manifest_path@);
    crate::text::lemma_seq_lt_order(b.alias@, a.alias@, c.alias@);
    crate::text::lemma_seq_lt_order(b.manifest_path@, a.manifest_path@, c.manifest_path@);
    crate::text::lemma_seq_lt_order(a.alias@, c.alias@, b.alias@);
    crate::text::lemma_seq_lt_order(a.manifest_path@, c.manifest_path@, b.manifest_path@);
    crate::text::lemma_seq_lt_order(c.alias@, a.alias@, b.alias@);
    crate::text::lemma_seq_lt_order(c.manifest_path@, a.manifest_path@, b.manifest_path@);
    crate::text::lemma_seq_lt_order(b.alias@, c.alias@, a.alias@);
    crate::text::lemma_seq_lt_order(b.manifest_path@, c.manifest_path@, a.manifest_path@);
    crate::text::lemma_seq_lt_order(c.alias@, b.alias@, a.alias@);
    crate::text::lemma_seq_lt_order(c.manifest_path@, b.manifest_path@, a.manifest_path@);
}

/// The index of the catalog a stable sort by the order puts first among
/// those that have a deferred command (and, for `in_scope`, whose root
/// holds the working directory).
fn choose_catalog(catalogs: &Vec<DeferralCatalog>, cwd: &str, deeper: bool) -> (r: Option<usize>)
    ensures
        match r {
            Some(i) => first_chosen(catalogs@, cwd@, deeper, i as int),
            None => forall|j: int|
                0 <= j < catalogs@.len() ==> !eligible(#[trigger] catalogs@[j], cwd@, deeper),
        },
{
    let mut best: Option<usize> = None;
    let mut i: usize = 0;
    while i < catalogs.len()
        invariant
            i <= catalogs.len(),
            match best {
                Some(b) => b < i && eligible(catalogs@[b as int], cwd@, deeper) && forall|j: int|
                    0 <= j < i && j != b && eligible(#[trigger] catalogs@[j], cwd@, deeper) ==> (
                    if j < b {
                        before_in(deeper, catalogs@[b as int], catalogs@[j])
                    } else {
                        !before_in(deeper, catalogs@[j], catalogs@[b as int])
                    }),
                None => forall|j: int|
                    0 <= j < i ==> !eligible(#[trigger] catalogs@[j], cwd@, deeper),
            },
        decreases catalogs.len() - i,
    {
        let c = &catalogs[i];
        let ok = c.defer_run.is_some() && (!deeper || crate::paths::path_starts_with(
            cwd,
            c.catalog_root.as_str(),
        ));
        if ok {
            match best {
                None => {
                    best = Some(i);
                },
                Some(b) => {
                    if better(c, &catalogs[b], deeper) {
                        proof {
                            assert forall|j: int|
                                0 <= j < i + 1 && j != i && eligible(#[trigger] catalogs@[j], cwd@, deeper)
                                implies before_in(deeper, catalogs@[i as int], catalogs@[j]) by {
                                lemma_before_order(catalogs@[i as int], catalogs@[b as int], catalogs@[j]);
                                lemma_before_order(catalogs@[i as int], catalogs@[j], catalogs@[b as int]);
                            }
                        }
                        best = Some(i);
                    }
                },
            }
        }
        i = i + 1;
    }
    best
}

/// Whether a catalog can provide the deferral: it has a deferred command
/// and, when scope matters, its root holds the working directory.
pub open spec fn eligible(c: DeferralCatalog, cwd: Seq<char>, in_scope: bool) -> bool {
    c.defer_run is Some && (!in_scope || crate::paths::path_starts_with_view(cwd, c.catalog_root@))
}

pub open spec fn before_in(in_scope: bool, a: DeferralCatalog, b: DeferralCatalog) -> bool {
    if in_scope {
        in_scope_before(a, b)
    } else {
        fallback_before(a, b)
    }
}

/// The first catalog at or after `k` with alias `alias`.
pub open spec fn alias_index_from(cs: Seq<DeferralCatalog>, alias: Seq<char>, k: int) -> Option<int>
    decreases cs.len() - k,
{
    if k < 0 || k >= cs.len() {
        None
    } else if cs[k].alias@ == alias {
        Some(k)
    } else {
        alias_index_from(cs, alias, k + 1)
    }
}

/// The catalog a task selector's prefix names, when it has a deferred
/// command.
pub open spec fn explicit_choice(prefix: Option<Seq<char>>, cs: Seq<DeferralCatalog>) -> Option<int> {
    match prefix {
        Some(p) => match alias_index_from(cs, p, 0) {
            Some(i) => if cs[i].defer_run is Some {
                Some(i)
            } else {
                None
            },
            None => None,
        },
        None => None,
    }
}

/// Whether `d` is the command that catalog selection by `in_scope` order
/// picks, or there is none to pick and `d` is absent.
pub open spec fn picked(
    cs: Seq<DeferralCatalog>,
    cwd: Seq<char>,
    in_scope: bool,
    d: Option<DeferredCommand>,
) -> bool {
    match d {
        Some(d) => exists|i: int|
            #[trigger] first_chosen(cs, cwd, in_scope, i) && command_from(cs[i], d),
        None => forall|j: int| 0 <= j < cs.len() ==> !eligible(#[trigger] cs[j], cwd, in_scope),
    }
}

/// The deferred command for a request that no catalog could run: the one
/// of the catalog the selector's prefix names; else that of the deepest
/// catalog whose root holds `cwd`; else that of the shallowest catalog.
/// Ties go by alias, then manifest path.
pub fn select_deferral(prefix: Option<&str>, catalogs: &Vec<DeferralCatalog>, cwd: &str) -> (r: Option<
    DeferredCommand,
>)
    ensures
        ({
            let p = match prefix {
                Some(p) => Some(p@),
                None => None,
            };
            match explicit_choice(p, catalogs@) {
                Some(i) => r matches Some(d) && command_from(catalogs@[i], d),
                None => if exists|j: int|
                    0 <= j < catalogs@.len() && eligible(#[trigger] catalogs@[j], cwd@, true) {
                    picked(catalogs@, cwd@, true, r)
                } else {
                    picked(catalogs@, cwd@, false, r)
                },
            }
        }),
{
    if let Some(p) = prefix {
        let mut k: usize = 0;
        while k < catalogs.len()
            invariant
                k <= catalogs.len(),
                prefix == Some(p),
                alias_index_from(catalogs@, p@, 0) == alias_index_from(catalogs@, p@, k as int),
            ensures
                explicit_choice(Some(p@), catalogs@) is None,
            decreases catalogs.len() - k,
        {
            if str_eq(catalogs[k].alias.as_str(), p) {
                match defer_command_from_catalog(&catalogs[k]) {
                    Some(d) => {
                        assert(alias_index_from(catalogs@, p@, k as int) == Some(k as int));
                        return Some(d);
                    },
                    None => {
                        break;
                    },
                }
            }
            k = k + 1;
        }
    }
    let ghost pv = match prefix {
        Some(p) => Some(p@),
        None => None::<Seq<char>>,
    };
    assert(explicit_choice(pv, catalogs@) is None);
    match choose_catalog(catalogs, cwd, true) {
        Some(i) => {
            let d = defer_command_from_catalog(&catalogs[i]);
            assert(eligible(catalogs@[i as int], cwd@, true));
            return d;
        },
        None => {},
    }
    match choose_catalog(catalogs, cwd, false) {
        Some(i) => defer_command_from_catalog(&catalogs[i]),
        None => None,
    }
}

/// Strictly increasing: sorted, and nothing twice (a `BTreeSet`'s order).
pub open spec fn strictly_sorted(s: Seq<Seq<char>>) -> bool {
    forall|i: int, j: int| 0 <= i < j < s.len() ==> seq_lt(#[trigger] s[i], #[trigger] s[j])
}

/// Adds `x` to the sorted set `v` unless it is there.
fn insert_sorted(v: &mut Vec<String>, x: String)
    requires
        strictly_sorted(views(old(v)@)),
    ensures
        strictly_sorted(views(final(v)@)),
        views(final(v)@).to_set() == views(old(v)@).to_set().insert(x@),
{
    let mut p: usize = 0;
    while p < v.len() && crate::text::str_lt(v[p].as_str(), x.as_str())
        invariant
            p <= v.len(),
            forall|q: int| 0 <= q < p ==> seq_lt(#[trigger] v@[q]@, x@),
        decreases v.len() - p,
    {
        p = p + 1;
    }
    let ghost s = views(v@);
    if p < v.len() && str_eq(v[p].as_str(), x.as_str()) {
        assert(s.to_set().insert(x@) =~= s.to_set()) by {
            assert(s[p as int] == x@);
        }
        return;
    }
    let ghost xv = x@;
    v.insert(p, x);
    assert(views(v@) =~= s.insert(p as int, xv));
    proof {
        if p < s.len() {
            crate::text::lemma_seq_lt_order(s[p as int], xv, xv);
            assert(seq_lt(xv, s[p as int]));
        }
        let t = views(v@);
        assert forall|i: int, j: int| 0 <= i < j < t.len() implies seq_lt(
            #[trigger] t[i],
            #[trigger] t[j],
        ) by {
            if j < p {
                assert(t[i] == s[i] && t[j] == s[j]);
            } else if j == p {
                assert(t[i] == s[i] && t[j] == xv);
            } else if i > p {
                assert(t[i] == s[i - 1] && t[j] == s[j - 1]);
            } else if i == p {
                assert(t[j] == s[j - 1]);
                if j - 1 > p {
                    crate::text::lemma_seq_lt_order(xv, s[p as int], s[j - 1]);
                }
            } else {
                assert(t[i] == s[i] && t[j] == s[j - 1]);
                crate::text::lemma_seq_lt_order(s[i], xv, s[j - 1]);
                if j - 1 > p {
                    crate::text::lemma_seq_lt_order(s[i], s[p as int], s[j - 1]);
                }
            }
        }
        assert(t.to_set() =~= s.to_set().insert(xv)) by {
            assert forall|e: Seq<char>| t.to_set().contains(e) <==> s.to_set().insert(xv).contains(e) by {
                if t.to_set().contains(e) {
                    let k = choose|k: int| 0 <= k < t.len() && t[k] == e;
                    if k < p {
                        assert(s[k] == e);
                    } else if k > p {
                        assert(s[k - 1] == e);
                    }
                }
                if s.to_set().contains(e) {
                    let k = choose|k: int| 0 <= k < s.len() && s[k] == e;
                    if k < p {
                        assert(t[k] == e);
                    } else {
                        assert(t[k + 1] == e);
                    }
                }
                if e == xv {
                    assert(t[p as int] == e);
                }
            }
        }
    }
}

/// The runner commands a root manifest defers: those its `[defer]` section
/// names, and those its own tasks shadow, as a sorted set.
pub fn deferred_builtins(explicit: &Vec<String>, task_names: &Vec<String>) -> (r: Vec<String>)
    ensures
        strictly_sorted(views(r@)),
        forall|x: Seq<char>|
            views(r@).contains(x) <==> (views(explicit@).contains(x) || (views(
                task_names@,
            ).contains(x) && builtin_commands().contains(x))),
{
    let mut out: Vec<String> = Vec::new();
    let mut i: usize = 0;
    while i < explicit.len()
        invariant
            i <= explicit.len(),
            strictly_sorted(views(out@)),
            views(out@).to_set() == views(explicit@).take(i as int).to_set(),
        decreases explicit.len() - i,
    {
        insert_sorted(&mut out, explicit[i].clone());
        assert(views(explicit@).take(i + 1) == views(explicit@).take(i as int).push(explicit@[i as int]@));
        proof {
            views(explicit@).take(i as int).lemma_push_to_set_commute(explicit@[i as int]@);
        }
        i = i + 1;
    }
    assert(views(explicit@).take(explicit.len() as int) == views(explicit@));
    let ghost base = views(out@).to_set();
    let mut j: usize = 0;
    while j < task_names.len()
        invariant
            j <= task_names.len(),
            strictly_sorted(views(out@)),
            base == views(explicit@).to_set(),
            forall|x: Seq<char>|
                #[trigger] views(out@).to_set().contains(x) <==> (base.contains(x) || (views(task_names@).take(
                    j as int,
                ).to_set().contains(x) && builtin_commands().contains(x))),
        decreases task_names.len() - j,
    {
        assert(views(task_names@).take(j + 1) == views(task_names@).take(j as int).push(task_names@[j as int]@));
        proof {
            views(task_names@).take(j as int).lemma_push_to_set_commute(task_names@[j as int]@);
        }
        if is_top_level_builtin_command(task_names[j].as_str()) {
            insert_sorted(&mut out, task_names[j].clone());
        }
        j = j + 1;
    }
    assert(views(task_names@).take(task_names.len() as int) == views(task_names@));
    proof {
        assert forall|x: Seq<char>|
            #[trigger] views(out@).contains(x) <==> (views(explicit@).contains(x) || (views(
                task_names@,
            ).contains(x) && builtin_commands().contains(x))) by {
            assert(views(out@).to_set().contains(x) <==> (base.contains(x) || (views(task_names@).take(
                task_names.len() as int,
            ).to_set().contains(x) && builtin_commands().contains(x))));
        }
    }
    out
}

/// The workspace container binding a deferral's manifest resolves to.
#[derive(Debug, Clone, Copy, PartialEq, Eq)]
pub enum DeferBinding {
    /// No binding, or the host.
    Host,
    /// A named or inline workspace container.
    Container,
}

/// The failure of a request that needs a container where no manifest can
/// bind one.
pub open spec fn no_manifest_message(source: Seq<char>, working_dir: Seq<char>) -> Seq<char> {
    "deferred command from "@ + source
        + " sets `[defer].run_in = \"container\"`, but "@ + working_dir
        + " does not contain an `effigy.toml` manifest to resolve a workspace container binding"@
}

pub open spec fn missing_exec_dir_message(source: Seq<char>) -> Seq<char> {
    "deferred command from "@ + source
        + " resolved a container binding, but no exec working directory was available"@
}

pub open spec fn missing_policy_message(source: Seq<char>) -> Seq<char> {
    "deferred command from "@ + source
        + " resolved a container binding, but no effective container policy was available"@
}

/// The error of a container deferral whose binding gave no exec working
/// directory.
pub fn missing_exec_dir_error(source: &str) -> (e: RunnerError)
    ensures
        crate::error::is_invocation(e, missing_exec_dir_message(source@)),
{
    let m = crate::text::cat3(
        "deferred command from ",
        source,
        " resolved a container binding, but no exec working directory was available",
    );
    RunnerError::task_invocation(m.as_str())
}

/// The error of a container deferral whose binding gave no effective policy.
pub fn missing_policy_error(source: &str) -> (e: RunnerError)
    ensures
        crate::error::is_invocation(e, missing_policy_message(source@)),
{
    let m = crate::text::cat3(
        "deferred command from ",
        source,
        " resolved a container binding, but no effective container policy was available",
    );
    RunnerError::task_invocation(m.as_str())
}

/// A task request as the deferral command hands it on.
#[derive(Debug)]
pub struct DeferTaskRequest {
    pub name: String,
    pub args: Vec<String>,
}

/// The request `effigy defer` runs: the task with `--json` added in JSON
/// mode (unless the task already asks for it), then `--repo` and the
/// repository when one is given.
pub open spec fn normalized_defer_args(args: Seq<Seq<char>>, output_json: bool, repo_override: Option<Seq<char>>) -> Seq<Seq<char>> {
    let with_json = if output_json && !args.contains("--json"@) {
        args.push("--json"@)
    } else {
        args
    };
    match repo_override {
        Some(r) => with_json.push("--repo"@).push(r),
        None => with_json,
    }
}

/// The request `effigy defer` runs (`normalized_defer_args`).
pub fn normalize_defer_task(task: DeferTaskRequest, output_json: bool, repo_override: Option<&str>) -> (r: DeferTaskRequest)
    ensures
        r.name == task.name,
        views(r.args@) == normalized_defer_args(
            views(task.args@),
            output_json,
            match repo_override {
                Some(o) => Some(o@),
                None => None,
            },
        ),
{
    let mut task = task;
    let ghost start = views(task.args@);
    if output_json {
        let mut found = false;
        let mut i: usize = 0;
        while i < task.args.len()
            invariant
                i <= task.args.len(),
                views(task.args@) == start,
                found <==> exists|j: int| 0 <= j < i && #[trigger] views(task.args@)[j] == "--json"@,
            decreases task.args.len() - i,
        {
            let is_json = str_eq(task.args[i].as_str(), "--json");
            assert(views(task.args@)[i as int] == task.args@[i as int]@);
            if is_json {
                found = true;
            }
            proof {
                if found {
                    if !is_json {
                        let j = choose|j: int| 0 <= j < i && #[trigger] views(task.args@)[j] == "--json"@;
                        assert(0 <= j < i + 1 && views(task.args@)[j] == "--json"@);
                    }
                } else {
                    assert forall|j: int| 0 <= j < i + 1 implies #[trigger] views(task.args@)[j] != "--json"@ by {
                        if j < i {
                        }
                    }
                }
            }
            i = i + 1;
        }
        assert(found <==> start.contains("--json"@));
        if !found {
            task.args.push("--json".to_owned());
            assert(views(task.args@) =~= start.push("--json"@));
        }
    }
    let ghost mid = views(task.args@);
    if let Some(o) = repo_override {
        task.args.push("--repo".to_owned());
        task.args.push(o.to_owned());
        assert(views(task.args@) =~= mid.push("--repo"@).push(o@));
    }
    task
}

/// The arguments of `docker compose exec` that run a deferred command in
/// the workspace container: after the compose exec arguments, `-T` without
/// a terminal, the working directory, the workspace user and home when the
/// policy sets them, the color environment, the next deferral depth, then
/// the primary service running the command through `sh -lc`.
pub open spec fn deferred_container_args(
    compose_exec_args: Seq<Seq<char>>,
    primary_service: Seq<char>,
    workspace_user: Option<Seq<char>>,
    workspace_home: Option<Seq<char>>,
    color_env_args: Seq<Seq<char>>,
    container_command: Seq<char>,
    exec_working_dir: Seq<char>,
    current_depth: u8,
    tty: bool,
) -> Seq<Seq<char>> {
    compose_exec_args + (if tty {
        Seq::empty()
    } else {
        seq!["-T"@]
    }) + seq!["-w"@, exec_working_dir] + (match workspace_user {
        Some(u) => seq!["-u"@, u],
        None => Seq::empty(),
    }) + (match workspace_home {
        Some(h) => seq!["-e"@, "HOME="@ + h],
        None => Seq::empty(),
    }) + color_env_args + seq![
        "-e"@,
        "EFFIGY_DEFER_DEPTH="@ + crate::text::dec((current_depth + 1) as nat),
        primary_service,
        "sh"@,
        "-lc"@,
        container_command,
    ]
}

/// The compose arguments that run a deferred command in the workspace
/// container (`deferred_container_args`).
pub fn build_deferred_container_command_args(
    compose_exec_args: Vec<String>,
    policy: &crate::runtime_prep::ContainerPolicy,
    color_env_args: &Vec<String>,
    container_command: &str,
    exec_working_dir: &str,
    current_depth: u8,
    tty: bool,
) -> (r: Vec<String>)
    requires
        current_depth < 255,
    ensures
        views(r@) == deferred_container_args(
            views(compose_exec_args@),
            policy.primary_service@,
            match policy.workspace_user {
                Some(u) => Some(u@),
                None => None,
            },
            match policy.workspace_home {
                Some(h) => Some(h@),
                None => None,
            },
            views(color_env_args@),
            container_command@,
            exec_working_dir@,
            current_depth,
            tty,
        ),
{
    let mut args = compose_exec_args;
    let ghost e0 = views(args@);
    if !tty {
        args.push("-T".to_owned());
    }
    args.push("-w".to_owned());
    args.push(exec_working_dir.to_owned());
    if let Some(u) = &policy.workspace_user {
        args.push("-u".to_owned());
        args.push(crate::text::owned(u.as_str()));
    }
    if let Some(h) = &policy.workspace_home {
        args.push("-e".to_owned());
        args.push(crate::text::cat("HOME=", h.as_str()));
    }
    let ghost e1 = views(args@);
    assert(e1 =~= e0 + (if tty {
        Seq::empty()
    } else {
        seq!["-T"@]
    }) + seq!["-w"@, exec_working_dir@] + (match policy.workspace_user {
        Some(u) => seq!["-u"@, u@],
        None => Seq::empty(),
    }) + (match policy.workspace_home {
        Some(h) => seq!["-e"@, "HOME="@ + h@],
        None => Seq::empty(),
    }));
    let mut k: usize = 0;
    while k < color_env_args.len()
        invariant
            k <= color_env_args.len(),
            views(args@) == e1 + views(color_env_args@).take(k as int),
        decreases color_env_args.len() - k,
    {
        let ghost before = views(args@);
        args.push(crate::text::owned(color_env_args[k].as_str()));
        assert(views(args@) =~= before.push(views(color_env_args@)[k as int]));
        assert(views(color_env_args@).take(k + 1) =~= views(color_env_args@).take(k as int).push(
            views(color_env_args@)[k as int],
        ));
        k = k + 1;
    }
    assert(views(color_env_args@).take(color_env_args.len() as int) =~= views(color_env_args@));
    args.push("-e".to_owned());
    let mut depth = "EFFIGY_DEFER_DEPTH=".to_owned();
    crate::text::push_dec(&mut depth, (current_depth + 1) as u64);
    args.push(depth);
    args.push(crate::text::owned(policy.primary_service.as_str()));
    args.push("sh".to_owned());
    args.push("-lc".to_owned());
    args.push(container_command.to_owned());
    args
}

/// What running a deferred request came to.
#[derive(Debug)]
pub enum DeferredExecutionPlan {
    /// Run this command on the host.
    HostCommand(String),
    /// The request ran in the workspace container; this is its output.
    Completed(String),
}

/// The message when a request that needs a container resolves a host
/// binding.
pub open spec fn no_binding_message(source: Seq<char>, manifest_path: Seq<char>) -> Seq<char> {
    "deferred command from "@ + source
        + " sets `[defer].run_in = \"container\"`, but no default workspace container binding could be resolved from "@
        + manifest_path
}

/// Whether `build` may have answered `out` for working directory `dir`.
pub open spec fn build_gave<B: Fn(&str) -> Result<String, RunnerError>>(
    build: B,
    dir: Seq<char>,
    out: Result<String, RunnerError>,
) -> bool {
    exists|d: &str| d@ == dir && #[trigger] build.ensures((d,), out)
}

/// Whether `run` may have answered `out` for `command`.
pub open spec fn local_gave<L: FnOnce(&str) -> Result<String, RunnerError>>(
    run: L,
    command: Seq<char>,
    out: Result<String, RunnerError>,
) -> bool {
    exists|c: &str| c@ == command && #[trigger] run.ensures((c,), out)
}

/// Whether `exec` may have answered `out` for `command`.
pub open spec fn exec_gave<X: FnOnce(&str) -> Result<(bool, Option<i32>), RunnerError>>(
    exec: X,
    command: Seq<char>,
    out: Result<(bool, Option<i32>), RunnerError>,
) -> bool {
    exists|c: &str| c@ == command && #[trigger] exec.ensures((c,), out)
}

/// A host command built for `dir`, or the build's error.
pub open spec fn host_plan<B: Fn(&str) -> Result<String, RunnerError>>(
    build: B,
    dir: Seq<char>,
    r: Result<DeferredExecutionPlan, RunnerError>,
) -> bool {
    exists|b: Result<String, RunnerError>|
        #[trigger] build_gave(build, dir, b) && match b {
            Ok(c) => r == Ok::<DeferredExecutionPlan, RunnerError>(DeferredExecutionPlan::HostCommand(c)),
            Err(e) => r == Err::<DeferredExecutionPlan, RunnerError>(e),
        }
}

/// Running command `c` in the container, once its runtime is prepared:
/// `exec`'s error; a `TaskCommandFailure` with its exit code when it did
/// not succeed; else the completed run, its output the trace when
/// `verbose_root` asks for it, the lease notice shown when `prepare`
/// refreshed the lease.
pub open spec fn container_run<
    P: FnOnce() -> Result<Option<bool>, RunnerError>,
    X: FnOnce(&str) -> Result<(bool, Option<i32>), RunnerError>,
    N: FnOnce(),
    T: FnOnce(&str) -> String,
>(
    source: Seq<char>,
    c: String,
    verbose_root: bool,
    prepare: P,
    exec: X,
    lease_notice: N,
    trace: T,
    r: Result<DeferredExecutionPlan, RunnerError>,
) -> bool {
    exists|p: Result<Option<bool>, RunnerError>|
        #[trigger] prepare.ensures((), p) && match p {
            Err(e) => r == Err::<DeferredExecutionPlan, RunnerError>(e),
            Ok(None) => r matches Err(e) && is_invocation(e, missing_policy_message(source)),
            Ok(Some(refreshed)) => exists|x: Result<(bool, Option<i32>), RunnerError>|
                #[trigger] exec_gave(exec, c@, x) && match x {
                    Err(e) => r == Err::<DeferredExecutionPlan, RunnerError>(e),
                    Ok((false, code)) => r matches Err(
                        RunnerError::TaskCommandFailure { command, code: k, stdout, stderr },
                    ) && command == c && k == code && stdout@.len() == 0 && stderr@.len() == 0,
                    Ok((true, _)) => r matches Ok(DeferredExecutionPlan::Completed(out)) && (refreshed
                        ==> lease_notice.ensures((), ())) && (verbose_root ==> traced(trace, c@, out)) && (
                    !verbose_root ==> out@.len() == 0),
                },
        }
}

/// What running a deferred request with a binding answers, for each answer
/// of the closures it calls (see `run_deferred_request_with_binding`).
pub open spec fn binding_outcome<B, R, E, L, P, X, N, T>(
    source: Seq<char>,
    working_dir: Seq<char>,
    manifest_path: Seq<char>,
    manifest_present: bool,
    run_in: DeferRunIn,
    handoff_env_set: bool,
    verbose_root: bool,
    build_command: B,
    resolve_binding: R,
    exec_working_dir: E,
    run_locally: L,
    prepare: P,
    exec: X,
    lease_notice: N,
    trace: T,
    r: Result<DeferredExecutionPlan, RunnerError>,
) -> bool where
    B: Fn(&str) -> Result<String, RunnerError>,
    R: FnOnce() -> Result<DeferBinding, RunnerError>,
    E: FnOnce() -> Result<Option<String>, RunnerError>,
    L: FnOnce(&str) -> Result<String, RunnerError>,
    P: FnOnce() -> Result<Option<bool>, RunnerError>,
    X: FnOnce(&str) -> Result<(bool, Option<i32>), RunnerError>,
    N: FnOnce(),
    T: FnOnce(&str) -> String,
 {
    if !manifest_present {
        if run_in == DeferRunIn::Container {
            r matches Err(e) && is_invocation(e, no_manifest_message(source, working_dir))
        } else {
            host_plan(build_command, working_dir, r)
        }
    } else {
        exists|rb: Result<DeferBinding, RunnerError>|
            #[trigger] resolve_binding.ensures((), rb) && match rb {
                Err(e) => r == Err::<DeferredExecutionPlan, RunnerError>(e),
                Ok(DeferBinding::Host) => if run_in == DeferRunIn::Either {
                    host_plan(build_command, working_dir, r)
                } else {
                    r matches Err(e) && is_invocation(e, no_binding_message(source, manifest_path))
                },
                Ok(DeferBinding::Container) => exists|wd: Result<Option<String>, RunnerError>|
                    #[trigger] exec_working_dir.ensures((), wd) && match wd {
                        Err(e) => r == Err::<DeferredExecutionPlan, RunnerError>(e),
                        Ok(None) => r matches Err(e) && is_invocation(e, missing_exec_dir_message(source)),
                        Ok(Some(dir)) => exists|b: Result<String, RunnerError>|
                            #[trigger] build_gave(build_command, dir@, b) && match b {
                                Err(e) => r == Err::<DeferredExecutionPlan, RunnerError>(e),
                                Ok(c) => if handoff_env_set {
                                    exists|o: Result<String, RunnerError>|
                                        #[trigger] local_gave(run_locally, c@, o) && match o {
                                            Ok(out) => r == Ok::<DeferredExecutionPlan, RunnerError>(
                                                DeferredExecutionPlan::Completed(out),
                                            ),
                                            Err(e) => r == Err::<DeferredExecutionPlan, RunnerError>(e),
                                        }
                                } else {
                                    container_run(source, c, verbose_root, prepare, exec, lease_notice, trace, r)
                                },
                            },
                    },
            }
    }
}

/// Runs a deferred request where its `run_in` and the manifest's binding
/// put it: without a manifest, or with a host binding, a request that may
/// run either way becomes a host command built for the deferral's working
/// directory (`build_command`); one that needs a container fails. With a
/// container binding the command is built for the container's working
/// directory, then run right here when this process already is the
/// container's handoff (`run_locally`), else in the container once its
/// runtime is ready (`prepare` answers whether it refreshed the host
/// lease, or `None` without an effective policy), through `exec`. After a
/// successful exec the lease notice is shown when the lease was refreshed,
/// and the trace is the output when `verbose_root` asks for it.
pub fn run_deferred_request_with_binding<B, R, E, L, P, X, N, T>(
    source: &str,
    working_dir: &str,
    manifest_path: &str,
    manifest_present: bool,
    run_in: DeferRunIn,
    handoff_env_set: bool,
    verbose_root: bool,
    build_command: B,
    resolve_binding: R,
    exec_working_dir: E,
    run_locally: L,
    prepare: P,
    exec: X,
    lease_notice: N,
    trace: T,
) -> (r: Result<DeferredExecutionPlan, RunnerError>) where
    B: Fn(&str) -> Result<String, RunnerError>,
    R: FnOnce() -> Result<DeferBinding, RunnerError>,
    E: FnOnce() -> Result<Option<String>, RunnerError>,
    L: FnOnce(&str) -> Result<String, RunnerError>,
    P: FnOnce() -> Result<Option<bool>, RunnerError>,
    X: FnOnce(&str) -> Result<(bool, Option<i32>), RunnerError>,
    N: FnOnce(),
    T: FnOnce(&str) -> String,

    requires
        !manifest_present ==> run_in != DeferRunIn::Host,
        forall|d: &str| build_command.requires((d,)),
        resolve_binding.requires(()),
        exec_working_dir.requires(()),
        forall|c: &str| run_locally.requires((c,)),
        prepare.requires(()),
        forall|c: &str| exec.requires((c,)),
        lease_notice.requires(()),
        forall|c: &str| trace.requires((c,)),
    ensures
        binding_outcome(
            source@,
            working_dir@,
            manifest_path@,
            manifest_present,
            run_in,
            handoff_env_set,
            verbose_root,
            build_command,
            resolve_binding,
            exec_working_dir,
            run_locally,
            prepare,
            exec,
            lease_notice,
            trace,
            r,
        ),
{
    if !manifest_present {
        if run_in == DeferRunIn::Container {
            let mut m = crate::text::cat3("deferred command from ", source, " sets `[defer].run_in = \"container\"`, but ");
            m.append(working_dir);
            m.append(" does not contain an `effigy.toml` manifest to resolve a workspace container binding");
            return Err(RunnerError::task_invocation(m.as_str()));
        }
        let b = build_command(working_dir);
        assert(build_gave(build_command, working_dir@, b));
        return match b {
            Ok(c) => Ok(DeferredExecutionPlan::HostCommand(c)),
            Err(e) => Err(e),
        };
    }
    let rb = resolve_binding();
    assert(resolve_binding.ensures((), rb));
    let binding = match rb {
        Ok(b) => b,
        Err(e) => return Err(e),
    };
    match binding {
        DeferBinding::Host => {
            if run_in == DeferRunIn::Either {
                let b = build_command(working_dir);
                assert(build_gave(build_command, working_dir@, b));
                return match b {
                    Ok(c) => Ok(DeferredExecutionPlan::HostCommand(c)),
                    Err(e) => Err(e),
                };
            }
            let mut m = crate::text::cat3(
                "deferred command from ",
                source,
                " sets `[defer].run_in = \"container\"`, but no default workspace container binding could be resolved from ",
            );
            m.append(manifest_path);
            Err(RunnerError::task_invocation(m.as_str()))
        },
        DeferBinding::Container => {
            let wd = exec_working_dir();
            assert(exec_working_dir.ensures((), wd));
            let dir = match wd {
                Ok(Some(d)) => d,
                Ok(None) => return Err(missing_exec_dir_error(source)),
                Err(e) => return Err(e),
            };
            let d = dir.as_str();
            let b = build_command(d);
            assert(build_gave(build_command, dir@, b));
            let command = match b {
                Ok(c) => c,
                Err(e) => return Err(e),
            };
            if handoff_env_set {
                let c = command.as_str();
                let o = run_locally(c);
                assert(local_gave(run_locally, command@, o));
                return match o {
                    Ok(out) => Ok(DeferredExecutionPlan::Completed(out)),
                    Err(e) => Err(e),
                };
            }
            let p = prepare();
            assert(prepare.ensures((), p));
            let refreshed = match p {
                Ok(Some(refreshed)) => refreshed,
                Ok(None) => return Err(missing_policy_error(source)),
                Err(e) => return Err(e),
            };
            let c = command.as_str();
            let x = exec(c);
            assert(exec_gave(exec, command@, x));
            let (success, code) = match x {
                Ok(o) => o,
                Err(e) => {
                    assert(container_run(source@, command, verbose_root, prepare, exec, lease_notice, trace, Err(e)));
                    return Err(e);
                },
            };
            if success {
                if refreshed {
                    lease_notice();
                }
                let out = if verbose_root {
                    let t = trace(c);
                    assert(traced(trace, command@, t));
                    t
                } else {
                    String::new()
                };
                let res = Ok(DeferredExecutionPlan::Completed(out));
                assert(container_run(source@, command, verbose_root, prepare, exec, lease_notice, trace, res));
                return res;
            }
            let res = Err(RunnerError::TaskCommandFailure { command: command.clone(), code, stdout: String::new(), stderr: String::new() });
            assert(container_run(source@, command, verbose_root, prepare, exec, lease_notice, trace, res));
            res
        },
    }
}

/// Whether `build` may have built `c` for working directory `dir`.
pub open spec fn built<B: Fn(&str) -> Result<String, RunnerError>>(build: B, dir: Seq<char>, c: String) -> bool {
    exists|d: &str| d@ == dir && #[trigger] build.ensures((d,), Ok(c))
}

/// Whether `trace` may have rendered `out` for `command`.
pub open spec fn traced<T: FnOnce(&str) -> String>(trace: T, command: Seq<char>, out: String) -> bool {
    exists|c: &str| c@ == command && #[trigger] trace.ensures((c,), out)
}


/// Whether `spawn` may have run `command` through `shell` with `flag`, at
/// deferral depth `depth` and with `PATH` override `path`, reporting `out`.
pub open spec fn spawned<S: FnOnce(String, String, String, u8, Option<String>) -> Result<(bool, Option<i32>), RunnerError>>(
    spawn: S,
    shell: Seq<char>,
    flag: Seq<char>,
    command: Seq<char>,
    depth: u8,
    path: Option<Seq<char>>,
    out: Result<(bool, Option<i32>), RunnerError>,
) -> bool {
    exists|sh: String, f: String, c: String, p: Option<String>|
        sh@ == shell && f@ == flag && c@ == command && crate::deploy::render::opt_view(p) == path
            && #[trigger] spawn.ensures((sh, f, c, depth, p), out)
}

/// What a host run of `command` answers for the spawn's report `out`.
pub open spec fn local_run_result<T: FnOnce(&str) -> String>(
    out: Result<(bool, Option<i32>), RunnerError>,
    command: Seq<char>,
    verbose_root: bool,
    trace: T,
    r: Result<String, RunnerError>,
) -> bool {
    match out {
        Err(e) => r == Err::<String, RunnerError>(e),
        Ok((true, _)) => r matches Ok(o) && (if verbose_root {
            traced(trace, command, o)
        } else {
            o@.len() == 0
        }),
        Ok((false, code)) => r matches Err(RunnerError::TaskCommandFailure { command: c, code: k, stdout, stderr })
            && c@ == command && k == code && stdout@.len() == 0 && stderr@.len() == 0,
    }
}

/// The view of an optional string.
pub open spec fn str_opt(s: Option<&str>) -> Option<Seq<char>> {
    match s {
        Some(s) => Some(s@),
        None => None,
    }
}

/// Whether `r` is what running `command` on the host may answer: `spawn`
/// ran it through the shell and flag of `deferral_shell_spec`, at depth
/// `current_depth + 1`, with the `PATH` of `deferral_path_spec`, and `r`
/// follows from its report as `local_run_result` says.
pub open spec fn ran_on_host<
    S: FnOnce(String, String, String, u8, Option<String>) -> Result<(bool, Option<i32>), RunnerError>,
    T: FnOnce(&str) -> String,
>(
    spawn: S,
    trace: T,
    command: Seq<char>,
    current_depth: u8,
    verbose_root: bool,
    shell_env: Option<Seq<char>>,
    composer_home: Option<Seq<char>>,
    home: Option<Seq<char>>,
    path: Option<Seq<char>>,
    r: Result<String, RunnerError>,
) -> bool {
    let sh = deferral_shell_spec(shell_env);
    let p = deferral_path_spec(command, composer_home, home, path);
    exists|out: Result<(bool, Option<i32>), RunnerError>|
        #[trigger] spawned(spawn, sh.0, sh.1, command, (current_depth + 1) as u8, p, out)
            && local_run_result(out, command, verbose_root, trace, r)
}

/// Runs a deferred command on the host: through the configured shell and
/// its flag (`deferral_shell`), at a deferral depth one more than
/// `current_depth`, and with the composer `PATH` when the command needs it
/// (`preferred_local_deferral_path`). `spawn` runs it and reports whether it
/// succeeded and its exit code. On success the output is the trace when
/// `verbose_root` asks for it, else empty; a failed command is a
/// `TaskCommandFailure` with its exit code and no captured output.
pub fn run_deferred_request_locally<S, T>(
    command: &str,
    current_depth: u8,
    verbose_root: bool,
    shell_env: Option<&str>,
    composer_home: Option<&str>,
    home: Option<&str>,
    path: Option<&str>,
    spawn: S,
    trace: T,
) -> (r: Result<String, RunnerError>) where
    S: FnOnce(String, String, String, u8, Option<String>) -> Result<(bool, Option<i32>), RunnerError>,
    T: FnOnce(&str) -> String,

    requires
        current_depth < 255,
        forall|a: String, b: String, c: String, d: u8, e: Option<String>| spawn.requires((a, b, c, d, e)),
        forall|c: &str| trace.requires((c,)),
    ensures
        ran_on_host(
            spawn,
            trace,
            command@,
            current_depth,
            verbose_root,
            str_opt(shell_env),
            str_opt(composer_home),
            str_opt(home),
            str_opt(path),
            r,
        ),
{
    let (shell, flag) = deferral_shell(shell_env);
    let path_override = preferred_local_deferral_path(command, composer_home, home, path);
    let next_depth: u8 = current_depth + 1;
    let cmd = crate::text::owned(command);
    let ghost (gs, gf, gc, gp) = (shell, flag, cmd, path_override);
    let out = spawn(shell, flag, cmd, next_depth, path_override);
    assert(spawned(spawn, gs@, gf@, command@, next_depth, crate::deploy::render::opt_view(gp), out));
    let ghost gout = out;
    let res = match out {
        Err(e) => Err(e),
        Ok((true, _)) => {
            if verbose_root {
                let t = trace(command);
                assert(traced(trace, command@, t));
                Ok(t)
            } else {
                Ok(String::new())
            }
        },
        Ok((false, code)) => Err(
            RunnerError::TaskCommandFailure {
                command: crate::text::owned(command),
                code,
                stdout: String::new(),
                stderr: String::new(),
            },
        ),
    };
    assert(local_run_result(gout, command@, verbose_root, trace, res));
    proof {
        let sh = deferral_shell_spec(str_opt(shell_env));
        let p = deferral_path_spec(command@, str_opt(composer_home), str_opt(home), str_opt(path));
        assert(sh.0 == gs@ && sh.1 == gf@);
        assert(p == crate::deploy::render::opt_view(gp));
        assert(spawned(spawn, sh.0, sh.1, command@, (current_depth + 1) as u8, p, gout));
    }
    res
}

/// The deferral depth the environment records: unset or unparsable counts
/// as 0.
pub open spec fn recorded_depth(depth: Option<Seq<char>>) -> u8 {
    match depth {
        Some(s) => match parse_u8(s) {
            Some(n) => n,
            None => 0,
        },
        None => 0,
    }
}

/// Whether `run_host` may have answered `r` for `command` at `depth`.
pub open spec fn host_ran<H: FnOnce(&str, u8) -> Result<String, RunnerError>>(
    run_host: H,
    command: Seq<char>,
    depth: u8,
    r: Result<String, RunnerError>,
) -> bool {
    exists|c: &str| c@ == command && #[trigger] run_host.ensures((c, depth), r)
}

/// Runs a deferred request. A request that was already deferred once (the
/// depth `depth_env` records, as `check_defer_depth` reads it) is refused
/// as a loop. One whose `run_in` is the host runs the command built for the
/// deferral's working directory (`build_host`) through `run_host`; any
/// other goes through `with_binding`, and a host command that it hands
/// back runs through `run_host` as well, while the output of a run it
/// completed is the answer.
pub fn run_deferred_request<B, W, H>(
    depth_env: Option<&str>,
    run_in: DeferRunIn,
    build_host: B,
    with_binding: W,
    run_host: H,
) -> (r: Result<String, RunnerError>) where
    B: FnOnce() -> Result<String, RunnerError>,
    W: FnOnce(u8) -> Result<DeferredExecutionPlan, RunnerError>,
    H: FnOnce(&str, u8) -> Result<String, RunnerError>,

    requires
        build_host.requires(()),
        forall|d: u8| with_binding.requires((d,)),
        forall|c: &str, d: u8| run_host.requires((c, d)),
    ensures
        recorded_depth(str_opt(depth_env)) >= 1 ==> (r matches Err(RunnerError::DeferLoopDetected { depth: d })
            && d == recorded_depth(str_opt(depth_env))),
        recorded_depth(str_opt(depth_env)) == 0 && run_in == DeferRunIn::Host ==> exists|b: Result<String, RunnerError>|
            #[trigger] build_host.ensures((), b) && match b {
                Err(e) => r == Err::<String, RunnerError>(e),
                Ok(c) => host_ran(run_host, c@, 0, r),
            },
        recorded_depth(str_opt(depth_env)) == 0 && run_in != DeferRunIn::Host ==> exists|
            p: Result<DeferredExecutionPlan, RunnerError>,
        |
            #[trigger] with_binding.ensures((0u8,), p) && match p {
                Err(e) => r == Err::<String, RunnerError>(e),
                Ok(DeferredExecutionPlan::HostCommand(c)) => host_ran(run_host, c@, 0, r),
                Ok(DeferredExecutionPlan::Completed(out)) => r == Ok::<String, RunnerError>(out),
            },
{
    let depth = match check_defer_depth(depth_env) {
        Ok(d) => d,
        Err(e) => return Err(e),
    };
    if run_in == DeferRunIn::Host {
        let b = build_host();
        let ghost gb = b;
        let res = match b {
            Err(e) => Err(e),
            Ok(c) => {
                let out = run_host(c.as_str(), depth);
                assert(host_ran(run_host, c@, 0, out));
                out
            },
        };
        assert(build_host.ensures((), gb));
        return res;
    }
    let p = with_binding(depth);
    let ghost gp = p;
    let res = match p {
        Err(e) => Err(e),
        Ok(DeferredExecutionPlan::HostCommand(c)) => {
            let out = run_host(c.as_str(), depth);
            assert(host_ran(run_host, c@, 0, out));
            out
        },
        Ok(DeferredExecutionPlan::Completed(out)) => Ok(out),
    };
    assert(with_binding.ensures((0u8,), gp));
    res
}

} // verus!
