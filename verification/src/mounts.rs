//! Compose volume specs: which host directories a container runtime needs
//! before `compose up`, and which services depend on the primary service.
use vstd::prelude::*;
use crate::paths::{
    is_absolute, join_path, path_is_absolute, path_join, path_starts_with, path_starts_with_view,
    path_strip_prefix, path_strip_prefix_view, path_extension, path_extension_view,
};
use crate::text::{chars_of, find_char, owned, str_eq, trim, trim_str, views};

verus! {

/// The first index at or after `from` that holds `c`, or the length of `s`.
pub open spec fn first_index_from(s: Seq<char>, from: int, c: char) -> int
    decreases s.len() - from,
{
    if from >= s.len() {
        s.len() as int
    } else if s[from] == c {
        from
    } else {
        first_index_from(s, from + 1, c)
    }
}

pub proof fn lemma_first_index_from(s: Seq<char>, from: int, c: char, i: int)
    requires
        0 <= from <= i <= s.len(),
        forall|j: int| from <= j < i ==> s[j] != c,
        i == s.len() || s[i] == c,
    ensures
        first_index_from(s, from, c) == i,
    decreases i - from,
{
    if from < i {
        lemma_first_index_from(s, from + 1, c, i);
    }
}

/// The first `:`-separated field of a volume spec.
pub open spec fn host_part(s: Seq<char>) -> Seq<char> {
    s.take(first_index_from(s, 0, ':'))
}

/// A bind-mount host path starts with `/`, `.` or `~`.
pub open spec fn is_bind_host(h: Seq<char>) -> bool {
    h.len() > 0 && (h[0] == '/' || h[0] == '.' || h[0] == '~')
}

/// The host path of a bind-mount volume spec; `None` for a named volume.
pub open spec fn bind_mount_host(s: Seq<char>) -> Option<Seq<char>> {
    if is_bind_host(host_part(s)) {
        Some(host_part(s))
    } else {
        None
    }
}

/// `source:target[:options]`, each part trimmed; `None` without a `:`.
pub open spec fn mount_parts(s: Seq<char>) -> Option<(Seq<char>, Seq<char>, Option<Seq<char>>)> {
    let i1 = first_index_from(s, 0, ':');
    if i1 >= s.len() {
        None
    } else {
        let i2 = first_index_from(s, i1 + 1, ':');
        Some(
            (
                trim(s.take(i1)),
                trim(s.subrange(i1 + 1, i2)),
                if i2 >= s.len() {
                    None
                } else {
                    Some(trim(s.skip(i2 + 1)))
                },
            ),
        )
    }
}

pub open spec fn opt_view(o: Option<&str>) -> Option<Seq<char>> {
    match o {
        Some(s) => Some(s@),
        None => None,
    }
}

pub open spec fn parts_view(o: Option<(&str, &str, Option<&str>)>) -> Option<
    (Seq<char>, Seq<char>, Option<Seq<char>>),
> {
    match o {
        Some(p) => Some((p.0@, p.1@, opt_view(p.2))),
        None => None,
    }
}

/// A bind mount whose host path lies inside the repository: the mount's
/// source and its target inside the container.
pub open spec fn bind_root(root: Seq<char>, s: Seq<char>) -> Option<(Seq<char>, Seq<char>)> {
    match bind_mount_host(s) {
        Some(h) => match mount_parts(s) {
            Some(p) => if is_absolute(h) && path_starts_with_view(h, root) {
                Some((p.0, p.1))
            } else {
                None
            },
            None => None,
        },
        None => None,
    }
}

pub open spec fn pair_views(v: Seq<(String, String)>) -> Seq<(Seq<char>, Seq<char>)> {
    v.map_values(|p: (String, String)| (p.0@, p.1@))
}

/// The length in bytes of the UTF-8 encoding of `s` (`str::len`).
pub open spec fn utf8_len(s: Seq<char>) -> usize {
    vstd::utf8::encode_utf8(s).len() as usize
}

/// Among the bind roots whose container target is a prefix of `target`,
/// the one with the longest target; the last such on a tie (as
/// `Iterator::max_by_key` picks).
pub open spec fn best_root(roots: Seq<(Seq<char>, Seq<char>)>, target: Seq<char>) -> Option<int>
    decreases roots.len(),
{
    if roots.len() == 0 {
        None
    } else {
        let prev = best_root(roots.drop_last(), target);
        let last = roots.len() - 1;
        if path_strip_prefix_view(target, roots[last].1) is Some && (prev is None || utf8_len(
            roots[prev->0].1,
        ) <= utf8_len(roots[last].1)) {
            Some(last)
        } else {
            prev
        }
    }
}

pub proof fn lemma_best_root_bound(roots: Seq<(Seq<char>, Seq<char>)>, target: Seq<char>)
    ensures
        best_root(roots, target) matches Some(i) ==> 0 <= i < roots.len()
            && path_strip_prefix_view(target, roots[i].1) is Some,
    decreases roots.len(),
{
    if roots.len() > 0 {
        lemma_best_root_bound(roots.drop_last(), target);
    }
}

/// The host paths that a volume spec needs inside the repository: the host
/// path of a bind mount, or for a named volume mounted below a repository
/// bind mount, the matching path below that bind's source.
pub open spec fn candidate_paths(
    root: Seq<char>,
    s: Seq<char>,
    roots: Seq<(Seq<char>, Seq<char>)>,
) -> Seq<Seq<char>> {
    match bind_mount_host(s) {
        Some(h) => if is_absolute(h) && path_starts_with_view(h, root) {
            seq![h]
        } else {
            Seq::empty()
        },
        None => match mount_parts(s) {
            None => Seq::empty(),
            Some(p) => match best_root(roots, p.1) {
                None => Seq::empty(),
                Some(i) => if path_starts_with_view(roots[i].0, root) {
                    seq![join_path(roots[i].0, path_strip_prefix_view(p.1, roots[i].1)->0)]
                } else {
                    Seq::empty()
                },
            },
        },
    }
}

/// The host path of a bind-mount volume spec (`/…`, `./…` or `~/…`);
/// `None` for a named volume.
pub fn parse_bind_mount_host_path(spec: &str) -> (r: Option<&str>)
    ensures
        opt_view(r) == bind_mount_host(spec@),
{
    let cs = chars_of(spec);
    let end = match find_char(&cs, 0, ':') {
        Some(i) => i,
        None => cs.len(),
    };
    proof {
        lemma_first_index_from(cs@, 0, ':', end as int);
    }
    if end > 0 && (cs[0] == '/' || cs[0] == '.' || cs[0] == '~') {
        Some(spec.substring_char(0, end))
    } else {
        None
    }
}

/// Splits a volume spec into trimmed `source`, `target` and optional
/// `options`; `None` when there is no `:`.
pub fn parse_mount_parts(spec: &str) -> (r: Option<(&str, &str, Option<&str>)>)
    ensures
        parts_view(r) == mount_parts(spec@),
{
    let cs = chars_of(spec);
    let i1 = match find_char(&cs, 0, ':') {
        Some(i) => i,
        None => {
            proof {
                lemma_first_index_from(cs@, 0, ':', cs.len() as int);
            }
            return None;
        },
    };
    proof {
        lemma_first_index_from(cs@, 0, ':', i1 as int);
    }
    let i2 = match find_char(&cs, i1 + 1, ':') {
        Some(i) => i,
        None => cs.len(),
    };
    proof {
        lemma_first_index_from(cs@, i1 + 1, ':', i2 as int);
    }
    let source = trim_str(spec.substring_char(0, i1));
    let target = trim_str(spec.substring_char(i1 + 1, i2));
    let options = if i2 < cs.len() {
        Some(trim_str(spec.substring_char(i2 + 1, cs.len())))
    } else {
        None
    };
    proof {
        assert(spec@.skip(i2 + 1) == spec@.subrange(i2 + 1, cs.len() as int));
    }
    Some((source, target, options))
}

/// The source and container target of a bind mount whose host path is an
/// absolute path inside `repo_root`.
pub fn bind_mount_root(repo_root: &str, spec: &str) -> (r: Option<(String, String)>)
    ensures
        match r {
            Some(p) => bind_root(repo_root@, spec@) == Some((p.0@, p.1@)),
            None => bind_root(repo_root@, spec@) is None,
        },
{
    let host = match parse_bind_mount_host_path(spec) {
        Some(h) => h,
        None => return None,
    };
    let parts = match parse_mount_parts(spec) {
        Some(p) => p,
        None => return None,
    };
    if !path_is_absolute(host) || !path_starts_with(host, repo_root) {
        return None;
    }
    Some((owned(parts.0), owned(parts.1)))
}

/// The host directories that one volume spec needs, given the repository's
/// bind roots.
pub fn candidate_host_mount_paths(
    repo_root: &str,
    spec: &str,
    bind_roots: &Vec<(String, String)>,
) -> (r: Vec<String>)
    ensures
        views(r@) == candidate_paths(repo_root@, spec@, pair_views(bind_roots@)),
{
    let ghost roots = pair_views(bind_roots@);
    if let Some(host) = parse_bind_mount_host_path(spec) {
        let mut out: Vec<String> = Vec::new();
        if path_is_absolute(host) && path_starts_with(host, repo_root) {
            out.push(owned(host));
            assert(views(out@) == seq![host@]);
        } else {
            assert(views(out@) == Seq::<Seq<char>>::empty());
        }
        return out;
    }
    let parts = match parse_mount_parts(spec) {
        Some(p) => p,
        None => {
            let out: Vec<String> = Vec::new();
            assert(views(out@) == Seq::<Seq<char>>::empty());
            return out;
        },
    };
    let target = parts.1;
    let mut best: Option<usize> = None;
    let mut best_suffix: Option<String> = None;
    let mut i: usize = 0;
    while i < bind_roots.len()
        invariant
            i <= bind_roots.len(),
            roots == pair_views(bind_roots@),
            match best {
                Some(b) => best_root(roots.take(i as int), target@) == Some(b as int) && b < i
                    && (best_suffix matches Some(sfx) && path_strip_prefix_view(
                    target@,
                    roots[b as int].1,
                ) == Some(sfx@)),
                None => best_root(roots.take(i as int), target@) is None,
            },
        decreases bind_roots.len() - i,
    {
        let ghost t = roots.take(i + 1);
        assert(t.drop_last() == roots.take(i as int));
        assert(t[i as int] == roots[i as int]);
        assert(roots[i as int] == (bind_roots@[i as int].0@, bind_roots@[i as int].1@));
        let mounted = &bind_roots[i].1;
        match path_strip_prefix(target, mounted.as_str()) {
            Some(suffix) => {
                let take = match best {
                    None => true,
                    Some(b) => {
                        assert(t[b as int] == roots[b as int]);
                        assert(roots[b as int] == (
                            bind_roots@[b as int].0@,
                            bind_roots@[b as int].1@,
                        ));
                        bind_roots[b].1.as_str().len() <= mounted.as_str().len()
                    },
                };
                if take {
                    best = Some(i);
                    best_suffix = Some(suffix);
                }
            },
            None => {},
        }
        i = i + 1;
    }
    assert(roots.take(bind_roots.len() as int) == roots);
    let mut out: Vec<String> = Vec::new();
    match best {
        None => {
            assert(views(out@) == Seq::<Seq<char>>::empty());
        },
        Some(b) => {
            let source = &bind_roots[b].0;
            if path_starts_with(source.as_str(), repo_root) {
                let suffix = match &best_suffix {
                    Some(s) => s,
                    None => {
                        return out;
                    },
                };
                out.push(path_join(source.as_str(), suffix.as_str()));
                assert(views(out@) == seq![out@[0]@]);
            } else {
                assert(views(out@) == Seq::<Seq<char>>::empty());
            }
        },
    }
    out
}


/// The `depends_on` entry of a compose service.
#[derive(Debug)]
pub enum DependsOn {
    /// No `depends_on` key.
    Absent,
    /// A list of service names; `None` for an entry that is not a string.
    Sequence(Vec<Option<String>>),
    /// A map keyed by service name; `None` for a key that is not a string.
    Mapping(Vec<Option<String>>),
    /// Any other YAML value.
    Other,
}

/// One entry of a compose file's `services` map.
#[derive(Debug)]
pub struct ComposeService {
    /// The service's key; `None` when the key is not a string.
    pub name: Option<String>,
    pub depends_on: DependsOn,
    /// The `volumes` list; `None` when absent or not a list. An entry is
    /// `None` when it is not a string.
    pub volumes: Option<Vec<Option<String>>>,
}

/// A compose file as far as runtime preparation reads it. A file that
/// cannot be read or parsed, or has no `services` map, has no services.
#[derive(Debug)]
pub struct ComposeFile {
    pub services: Vec<ComposeService>,
}

/// A host directory to create before `compose up`.
#[derive(Debug)]
pub struct MountDirAction {
    pub path: String,
    /// Whether the directory lies under the repository's runtime data root,
    /// whose permissions are opened up for container users.
    pub relax_permissions: bool,
}

pub open spec fn names_contain(v: Seq<Option<String>>, name: Seq<char>) -> bool {
    exists|i: int| 0 <= i < v.len() && (#[trigger] v[i] matches Some(x) && x@ == name)
}

/// Whether a `depends_on` entry names `primary`, in list or map form.
pub open spec fn depends_on_primary(d: DependsOn, primary: Seq<char>) -> bool {
    match d {
        DependsOn::Sequence(v) => names_contain(v@, primary),
        DependsOn::Mapping(v) => names_contain(v@, primary),
        _ => false,
    }
}

pub open spec fn dep_step(acc: Seq<Seq<char>>, svc: ComposeService, primary: Seq<char>) -> Seq<
    Seq<char>,
> {
    match svc.name {
        Some(n) => if n@ != primary && depends_on_primary(svc.depends_on, primary)
            && !acc.contains(n@) {
            acc.push(n@)
        } else {
            acc
        },
        None => acc,
    }
}

pub open spec fn dep_fold(acc: Seq<Seq<char>>, svcs: Seq<ComposeService>, primary: Seq<char>) -> Seq<
    Seq<char>,
>
    decreases svcs.len(),
{
    if svcs.len() == 0 {
        acc
    } else {
        dep_step(dep_fold(acc, svcs.drop_last(), primary), svcs.last(), primary)
    }
}

/// The services, other than `primary`, that depend on `primary`, in file
/// and declaration order, each named once.
pub open spec fn dependents(files: Seq<ComposeFile>, primary: Seq<char>) -> Seq<Seq<char>>
    decreases files.len(),
{
    if files.len() == 0 {
        Seq::empty()
    } else {
        dep_fold(dependents(files.drop_last(), primary), files.last().services@, primary)
    }
}

fn names_contain_exec(v: &Vec<Option<String>>, name: &str) -> (r: bool)
    ensures
        r == names_contain(v@, name@),
{
    let mut i: usize = 0;
    while i < v.len()
        invariant
            i <= v.len(),
            forall|j: int| 0 <= j < i ==> !(#[trigger] v@[j] matches Some(x) && x@ == name@),
        decreases v.len() - i,
    {
        if let Some(x) = &v[i] {
            if str_eq(x.as_str(), name) {
                return true;
            }
        }
        i = i + 1;
    }
    false
}

/// Whether a compose service's `depends_on` names the primary service.
pub fn service_depends_on_primary(depends_on: &DependsOn, primary_service: &str) -> (r: bool)
    ensures
        r == depends_on_primary(*depends_on, primary_service@),
{
    match depends_on {
        DependsOn::Sequence(v) => names_contain_exec(v, primary_service),
        DependsOn::Mapping(v) => names_contain_exec(v, primary_service),
        _ => false,
    }
}

/// Whether `name` is one of the strings of `v`.
pub fn contains_name(v: &Vec<String>, name: &String) -> (r: bool)
    ensures
        r == views(v@).contains(name@),
{
    let mut i: usize = 0;
    while i < v.len()
        invariant
            i <= v.len(),
            forall|j: int| 0 <= j < i ==> v@[j]@ != name@,
        decreases v.len() - i,
    {
        if v[i] == *name {
            assert(views(v@)[i as int] == name@);
            return true;
        }
        i = i + 1;
    }
    proof {
        if views(v@).contains(name@) {
            let k = choose|k: int| 0 <= k < views(v@).len() && views(v@)[k] == name@;
            assert(v@[k]@ == name@);
        }
    }
    false
}

/// The services that depend on the primary service, across all compose
/// files, so that restarting the primary service can refresh them.
pub fn load_services_depending_on_primary(files: &Vec<ComposeFile>, primary_service: &str) -> (r:
    Vec<String>)
    ensures
        views(r@) == dependents(files@, primary_service@),
{
    let mut out: Vec<String> = Vec::new();
    let mut i: usize = 0;
    while i < files.len()
        invariant
            i <= files.len(),
            views(out@) == dependents(files@.take(i as int), primary_service@),
        decreases files.len() - i,
    {
        let svcs = &files[i].services;
        let ghost base = views(out@);
        assert(files@.take(i + 1).drop_last() == files@.take(i as int));
        let mut j: usize = 0;
        while j < svcs.len()
            invariant
                j <= svcs.len(),
                views(out@) == dep_fold(base, svcs@.take(j as int), primary_service@),
            decreases svcs.len() - j,
        {
            let svc = &svcs[j];
            assert(svcs@.take(j + 1).drop_last() == svcs@.take(j as int));
            if let Some(name) = &svc.name {
                if !str_eq(name.as_str(), primary_service) && service_depends_on_primary(
                    &svc.depends_on,
                    primary_service,
                ) && !contains_name(&out, name) {
                    out.push(name.clone());
                    assert(views(out@) == views(out@).drop_last().push(name@));
                }
            }
            j = j + 1;
        }
        assert(svcs@.take(svcs.len() as int) == svcs@);
        i = i + 1;
    }
    assert(files@.take(files.len() as int) == files@);
    out
}

/// The bind roots among `vols` (see `bind_root`), in order.
pub open spec fn roots_of(root: Seq<char>, vols: Seq<Option<String>>) -> Seq<(Seq<char>, Seq<char>)>
    decreases vols.len(),
{
    if vols.len() == 0 {
        Seq::empty()
    } else {
        let prev = roots_of(root, vols.drop_last());
        match vols.last() {
            Some(s) => match bind_root(root, s@) {
                Some(p) => prev.push(p),
                None => prev,
            },
            None => prev,
        }
    }
}

/// File extensions whose bind mounts name files, not directories.
pub open spec fn is_config_ext(e: Seq<char>) -> bool {
    e == "conf"@ || e == "yml"@ || e == "yaml"@ || e == "toml"@ || e == "json"@ || e == "sql"@
        || e == "ini"@ || e == "env"@
}

pub open spec fn path_actions(paths: Seq<Seq<char>>, runtime_root: Seq<char>) -> Seq<
    (Seq<char>, bool),
>
    decreases paths.len(),
{
    if paths.len() == 0 {
        Seq::empty()
    } else {
        let prev = path_actions(paths.drop_last(), runtime_root);
        let p = paths.last();
        if path_extension_view(p) matches Some(e) && is_config_ext(e) {
            prev
        } else {
            prev.push((p, path_starts_with_view(p, runtime_root)))
        }
    }
}

pub open spec fn volume_actions(
    root: Seq<char>,
    runtime_root: Seq<char>,
    vols: Seq<Option<String>>,
    roots: Seq<(Seq<char>, Seq<char>)>,
) -> Seq<(Seq<char>, bool)>
    decreases vols.len(),
{
    if vols.len() == 0 {
        Seq::empty()
    } else {
        volume_actions(root, runtime_root, vols.drop_last(), roots) + match vols.last() {
            Some(s) => path_actions(candidate_paths(root, s@, roots), runtime_root),
            None => Seq::empty(),
        }
    }
}

pub open spec fn service_actions(root: Seq<char>, runtime_root: Seq<char>, svc: ComposeService) -> Seq<
    (Seq<char>, bool),
> {
    match svc.volumes {
        Some(v) => volume_actions(root, runtime_root, v@, roots_of(root, v@)),
        None => Seq::empty(),
    }
}

pub open spec fn services_actions(
    root: Seq<char>,
    runtime_root: Seq<char>,
    svcs: Seq<ComposeService>,
) -> Seq<(Seq<char>, bool)>
    decreases svcs.len(),
{
    if svcs.len() == 0 {
        Seq::empty()
    } else {
        services_actions(root, runtime_root, svcs.drop_last()) + service_actions(
            root,
            runtime_root,
            svcs.last(),
        )
    }
}

/// The runtime data root of a repository.
pub open spec fn runtime_data_root(root: Seq<char>) -> Seq<char> {
    join_path(root, ".effigy/runtime/data"@)
}

/// The directories to create for every volume of every service, in order,
/// each with whether its permissions are to be relaxed.
pub open spec fn mount_dir_actions(root: Seq<char>, files: Seq<ComposeFile>) -> Seq<(Seq<char>, bool)>
    decreases files.len(),
{
    if files.len() == 0 {
        Seq::empty()
    } else {
        mount_dir_actions(root, files.drop_last()) + services_actions(
            root,
            runtime_data_root(root),
            files.last().services@,
        )
    }
}

pub open spec fn action_views(v: Seq<MountDirAction>) -> Seq<(Seq<char>, bool)> {
    v.map_values(|a: MountDirAction| (a.path@, a.relax_permissions))
}

fn is_config_extension(e: &str) -> (r: bool)
    ensures
        r == is_config_ext(e@),
{
    str_eq(e, "conf") || str_eq(e, "yml") || str_eq(e, "yaml") || str_eq(e, "toml") || str_eq(
        e,
        "json",
    ) || str_eq(e, "sql") || str_eq(e, "ini") || str_eq(e, "env")
}

fn bind_roots_of(repo_root: &str, vols: &Vec<Option<String>>) -> (r: Vec<(String, String)>)
    ensures
        pair_views(r@) == roots_of(repo_root@, vols@),
{
    let mut out: Vec<(String, String)> = Vec::new();
    let mut i: usize = 0;
    while i < vols.len()
        invariant
            i <= vols.len(),
            pair_views(out@) == roots_of(repo_root@, vols@.take(i as int)),
        decreases vols.len() - i,
    {
        assert(vols@.take(i + 1).drop_last() == vols@.take(i as int));
        if let Some(spec) = &vols[i] {
            if let Some(p) = bind_mount_root(repo_root, spec.as_str()) {
                out.push(p);
                assert(pair_views(out@) == pair_views(out@).drop_last().push(
                    (out@.last().0@, out@.last().1@),
                ));
            }
        }
        i = i + 1;
    }
    assert(vols@.take(vols.len() as int) == vols@);
    out
}

fn push_path_actions(
    out: &mut Vec<MountDirAction>,
    paths: &Vec<String>,
    runtime_root: &str,
)
    ensures
        action_views(final(out)@) == action_views(old(out)@) + path_actions(
            views(paths@),
            runtime_root@,
        ),
{
    let ghost base = action_views(out@);
    let mut i: usize = 0;
    while i < paths.len()
        invariant
            i <= paths.len(),
            action_views(out@) == base + path_actions(views(paths@).take(i as int), runtime_root@),
        decreases paths.len() - i,
    {
        let p = &paths[i];
        assert(views(paths@).take(i + 1).drop_last() == views(paths@).take(i as int));
        assert(views(paths@).take(i + 1).last() == p@);
        let skip = match path_extension(p.as_str()) {
            Some(e) => is_config_extension(e.as_str()),
            None => false,
        };
        let ghost prev = out@;
        let ghost pa = path_actions(views(paths@).take(i as int), runtime_root@);
        if !skip {
            let relax = path_starts_with(p.as_str(), runtime_root);
            out.push(MountDirAction { path: p.clone(), relax_permissions: relax });
            assert(action_views(out@) == action_views(prev).push((p@, relax)));
            assert(base + pa.push((p@, relax)) == (base + pa).push((p@, relax)));
        }
        i = i + 1;
    }
    assert(views(paths@).take(paths.len() as int) == views(paths@));
}

/// The host directories to create before bringing a compose runtime up:
/// the repository-owned bind-mount targets, and the targets of named
/// volumes mounted below a repository bind, skipping paths with a
/// configuration-file extension.
pub fn host_bind_mount_dirs(repo_root: &str, files: &Vec<ComposeFile>) -> (r: Vec<MountDirAction>)
    ensures
        action_views(r@) == mount_dir_actions(repo_root@, files@),
{
    let runtime_root = path_join(repo_root, ".effigy/runtime/data");
    let mut out: Vec<MountDirAction> = Vec::new();
    let mut i: usize = 0;
    while i < files.len()
        invariant
            i <= files.len(),
            runtime_root@ == runtime_data_root(repo_root@),
            action_views(out@) == mount_dir_actions(repo_root@, files@.take(i as int)),
        decreases files.len() - i,
    {
        assert(files@.take(i + 1).drop_last() == files@.take(i as int));
        let svcs = &files[i].services;
        let ghost base = action_views(out@);
        let mut j: usize = 0;
        while j < svcs.len()
            invariant
                j <= svcs.len(),
                runtime_root@ == runtime_data_root(repo_root@),
                action_views(out@) == base + services_actions(
                    repo_root@,
                    runtime_root@,
                    svcs@.take(j as int),
                ),
            decreases svcs.len() - j,
        {
            assert(svcs@.take(j + 1).drop_last() == svcs@.take(j as int));
            let ghost before = action_views(out@);
            if let Some(vols) = &svcs[j].volumes {
                let roots = bind_roots_of(repo_root, vols);
                let ghost vbase = action_views(out@);
                let mut k: usize = 0;
                while k < vols.len()
                    invariant
                        k <= vols.len(),
                        pair_views(roots@) == roots_of(repo_root@, vols@),
                        action_views(out@) == vbase + volume_actions(
                            repo_root@,
                            runtime_root@,
                            vols@.take(k as int),
                            pair_views(roots@),
                        ),
                    decreases vols.len() - k,
                {
                    assert(vols@.take(k + 1).drop_last() == vols@.take(k as int));
                    if let Some(spec) = &vols[k] {
                        let paths = candidate_host_mount_paths(repo_root, spec.as_str(), &roots);
                        push_path_actions(&mut out, &paths, runtime_root.as_str());
                    }
                    k = k + 1;
                }
                assert(vols@.take(vols.len() as int) == vols@);
            }
            j = j + 1;
        }
        assert(svcs@.take(svcs.len() as int) == svcs@);
        i = i + 1;
    }
    assert(files@.take(files.len() as int) == files@);
    out
}

} // verus!
