//! Deriving the deployment model from the composed `[deploy.model]` config
//! and each service's own task manifest.
use vstd::prelude::*;
use crate::deploy::model::{
    copy_opt, copy_strings, extend_warnings, is_missing_fallback_warning,
    missing_static_fallback_warning, DeployCommandStep, DeployHealth, DeployOutput,
    DeployService, DeployWarning,
};
use crate::error::{is_invocation, RunnerError};
use crate::text::{cat3, str_eq, owned, remove_all, remove_all_str, trim, trimmed};

verus! {

/// How a manifest task runs.
#[derive(Debug)]
pub enum TaskRun {
    /// A single shell command.
    Command(String),
    /// A sequence of steps.
    Sequence,
}

/// A task of a task manifest.
#[derive(Debug)]
pub struct TaskEntry {
    pub name: String,
    pub run: Option<TaskRun>,
}

/// A deployment step bound to a manifest task.
#[derive(Debug)]
pub struct TaskStepConfig {
    pub task: String,
    pub optional: Option<bool>,
    pub omit_service_if_missing: Option<bool>,
    pub warn_if_missing: Option<bool>,
    pub warning_code: Option<String>,
    pub warning_target: Option<String>,
    pub warning_message: Option<String>,
    pub warning_severity: Option<String>,
}

/// The health check of a configured service.
#[derive(Debug)]
pub struct HealthConfig {
    pub kind: String,
    pub path: String,
}

/// The output of a configured static service.
#[derive(Debug)]
pub struct OutputConfig {
    pub kind: String,
    pub path: String,
    pub fallback: Option<String>,
    pub detect_static_fallback: Option<bool>,
}

/// One service of `[deploy.model]`.
#[derive(Debug)]
pub struct ServiceConfig {
    pub name: String,
    pub role: String,
    pub runtime: String,
    pub source_root: String,
    pub build: Option<TaskStepConfig>,
    pub start: Option<TaskStepConfig>,
    pub release: Option<TaskStepConfig>,
    pub health: Option<HealthConfig>,
    pub output: Option<OutputConfig>,
    pub port: Option<u16>,
    pub domains: Vec<String>,
    pub env: Option<Vec<(String, String)>>,
    pub secret_refs: Option<Vec<String>>,
    pub volumes: Option<Vec<String>>,
    pub warnings: Option<Vec<DeployWarning>>,
}

/// A deployment step after its task was looked up.
#[derive(Debug)]
pub struct ResolvedTaskStep {
    pub command: Option<String>,
    pub warnings: Vec<DeployWarning>,
    pub omit_service: bool,
}

/// A task command without its `{args}` placeholder, trimmed.
pub open spec fn normalized_command(c: Seq<char>) -> Seq<char> {
    trim(remove_all(remove_all(c, " {args}"@), "{args}"@))
}

/// Removes the `{args}` placeholder (with the space before it) and trims.
pub fn normalize_task_command(command: &str) -> (r: String)
    ensures
        r@ == normalized_command(command@),
{
    let a = remove_all_str(command, " {args}");
    let b = remove_all_str(a.as_str(), "{args}");
    trimmed(b.as_str())
}

/// The index of the first task named `name`.
pub open spec fn task_index(tasks: Seq<TaskEntry>, name: Seq<char>) -> Option<int>
    decreases tasks.len(),
{
    if tasks.len() == 0 {
        None
    } else if tasks[0].name@ == name {
        Some(0)
    } else {
        match task_index(tasks.drop_first(), name) {
            Some(i) => Some(i + 1),
            None => None,
        }
    }
}

/// The normalized command of the task named `name`, when that task runs a
/// single command.
pub open spec fn task_command(tasks: Seq<TaskEntry>, name: Seq<char>) -> Option<Seq<char>> {
    match task_index(tasks, name) {
        Some(i) => match tasks[i].run {
            Some(TaskRun::Command(c)) => Some(normalized_command(c@)),
            _ => None,
        },
        None => None,
    }
}

proof fn lemma_task_index(tasks: Seq<TaskEntry>, name: Seq<char>, i: int)
    requires
        0 <= i <= tasks.len(),
        forall|j: int| 0 <= j < i ==> tasks[j].name@ != name,
    ensures
        i < tasks.len() && tasks[i].name@ == name ==> task_index(tasks, name) == Some(i),
        i == tasks.len() ==> task_index(tasks, name) is None,
    decreases i,
{
    if i > 0 {
        lemma_task_index(tasks.drop_first(), name, i - 1);
    }
}

/// The command of a manifest task, if it is a single-command task.
pub fn optional_task_command(tasks: &Vec<TaskEntry>, task_name: &str) -> (r: Option<String>)
    ensures
        match r {
            Some(c) => task_command(tasks@, task_name@) == Some(c@),
            None => task_command(tasks@, task_name@) is None,
        },
{
    let mut i: usize = 0;
    while i < tasks.len()
        invariant
            i <= tasks.len(),
            forall|j: int| 0 <= j < i ==> tasks@[j].name@ != task_name@,
        decreases tasks.len() - i,
    {
        if crate::text::str_eq(tasks[i].name.as_str(), task_name) {
            proof {
                lemma_task_index(tasks@, task_name@, i as int);
            }
            return match &tasks[i].run {
                Some(TaskRun::Command(c)) => Some(normalize_task_command(c.as_str())),
                _ => None,
            };
        }
        i = i + 1;
    }
    proof {
        lemma_task_index(tasks@, task_name@, i as int);
    }
    None
}

/// The value of an optional string, or `d`.
pub open spec fn opt_or(o: Option<String>, d: Seq<char>) -> Seq<char> {
    match o {
        Some(s) => s@,
        None => d,
    }
}

/// The message for a step whose task is missing or not a command.
pub open spec fn missing_task_message(prefix: Seq<char>, task: Seq<char>, dir: Seq<char>) -> Seq<
    char,
> {
    prefix + task + "` is missing or non-command in `"@ + dir + "/effigy.toml`"@
}

/// The warning for an optional step whose task is missing.
pub open spec fn is_missing_step_warning(w: DeployWarning, step: TaskStepConfig, dir: Seq<char>) -> bool {
    &&& w.code@ == opt_or(step.warning_code, "missing-task-hook"@)
    &&& w.scope@ == "service"@
    &&& w.target == step.warning_target
    &&& w.message@ == opt_or(
        step.warning_message,
        missing_task_message("Optional task `"@, step.task@, dir),
    )
    &&& w.severity@ == opt_or(step.warning_severity, "warn"@)
}

/// What a step resolves to: its command when the task has one; otherwise,
/// in this order of precedence, the service is omitted, a warning is
/// recorded, the step is skipped, or the step is reported as missing.
pub open spec fn step_resolved(
    step: Option<TaskStepConfig>,
    command: Option<String>,
    dir: Seq<char>,
    r: Result<ResolvedTaskStep, RunnerError>,
) -> bool {
    match step {
        None => r matches Ok(s) && s.command is None && s.warnings@.len() == 0 && !s.omit_service,
        Some(st) => match command {
            Some(c) => r matches Ok(s) && s.command == Some(c) && s.warnings@.len() == 0
                && !s.omit_service,
            None => if st.omit_service_if_missing == Some(true) {
                r matches Ok(s) && s.command is None && s.warnings@.len() == 0 && s.omit_service
            } else if st.warn_if_missing == Some(true) {
                r matches Ok(s) && s.command is None && s.warnings@.len() == 1
                    && is_missing_step_warning(s.warnings@[0], st, dir) && !s.omit_service
            } else if st.optional == Some(true) {
                r matches Ok(s) && s.command is None && s.warnings@.len() == 0 && !s.omit_service
            } else {
                r matches Err(e) && is_invocation(
                    e,
                    missing_task_message("required task `"@, st.task@, dir),
                )
            },
        },
    }
}

fn opt_string_or(o: &Option<String>, d: &str) -> (r: String)
    ensures
        r@ == opt_or(*o, d@),
{
    match o {
        Some(s) => s.clone(),
        None => owned(d),
    }
}

fn missing_message(prefix: &str, task: &str, dir: &str) -> (r: String)
    ensures
        r@ == missing_task_message(prefix@, task@, dir@),
{
    let mut m = cat3(prefix, task, "` is missing or non-command in `");
    m.append(dir);
    m.append("/effigy.toml`");
    m
}

fn flag(o: Option<bool>) -> (r: bool)
    ensures
        r == (o == Some(true)),
{
    match o {
        Some(b) => b,
        None => false,
    }
}

/// Resolves one deployment step of the service rooted at `dir`, given the
/// command that its task has in that service's manifest.
pub fn resolve_task_step(dir: &str, step: Option<&TaskStepConfig>, command: Option<String>) -> (r:
    Result<ResolvedTaskStep, RunnerError>)
    ensures
        step_resolved(
            match step {
                Some(s) => Some(*s),
                None => None,
            },
            command,
            dir@,
            r,
        ),
{
    let step = match step {
        Some(s) => s,
        None => {
            return Ok(ResolvedTaskStep { command: None, warnings: Vec::new(), omit_service: false });
        },
    };
    match command {
        Some(c) => Ok(ResolvedTaskStep { command: Some(c), warnings: Vec::new(), omit_service: false }),
        None => {
            if flag(step.omit_service_if_missing) {
                Ok(ResolvedTaskStep { command: None, warnings: Vec::new(), omit_service: true })
            } else if flag(step.warn_if_missing) {
                let message = match &step.warning_message {
                    Some(m) => m.clone(),
                    None => missing_message("Optional task `", step.task.as_str(), dir),
                };
                let w = DeployWarning {
                    code: opt_string_or(&step.warning_code, "missing-task-hook"),
                    scope: "service".to_owned(),
                    target: copy_opt(&step.warning_target),
                    message,
                    severity: opt_string_or(&step.warning_severity, "warn"),
                };
                let mut warnings: Vec<DeployWarning> = Vec::new();
                warnings.push(w);
                Ok(ResolvedTaskStep { command: None, warnings, omit_service: false })
            } else if flag(step.optional) {
                Ok(ResolvedTaskStep { command: None, warnings: Vec::new(), omit_service: false })
            } else {
                let m = missing_message("required task `", step.task.as_str(), dir);
                Err(RunnerError::task_invocation(m.as_str()))
            }
        },
    }
}

/// A step whose task is missing fails only when it is required: the
/// resolution is an error exactly when none of `optional`,
/// `omit_service_if_missing` and `warn_if_missing` is set, and a step that
/// is only `optional` resolves to no command, no warning, and the service
/// kept.
pub proof fn lemma_missing_step_fails_only_when_required(
    st: TaskStepConfig,
    dir: Seq<char>,
    r: Result<ResolvedTaskStep, RunnerError>,
)
    requires
        step_resolved(Some(st), None, dir, r),
    ensures
        r is Err <==> (st.optional != Some(true) && st.omit_service_if_missing != Some(true)
            && st.warn_if_missing != Some(true)),
        (st.optional == Some(true) && st.omit_service_if_missing != Some(true)
            && st.warn_if_missing != Some(true)) ==> (r matches Ok(s) && s.command is None
            && s.warnings@.len() == 0 && !s.omit_service),
        r matches Ok(s) ==> s.command is None,
{
}

/// The command of a step's task in `tasks`, when the step is configured.
pub open spec fn step_command(tasks: Seq<TaskEntry>, step: Option<TaskStepConfig>) -> Option<
    Seq<char>,
> {
    match step {
        Some(s) => task_command(tasks, s.task@),
        None => None,
    }
}

fn lookup_step_command(tasks: &Vec<TaskEntry>, step: Option<&TaskStepConfig>) -> (r: Option<
    String,
>)
    ensures
        match step {
            Some(s) => match r {
                Some(c) => task_command(tasks@, s.task@) == Some(c@),
                None => task_command(tasks@, s.task@) is None,
            },
            None => r is None,
        },
{
    match step {
        Some(s) => optional_task_command(tasks, s.task.as_str()),
        None => None,
    }
}

pub open spec fn opt_step(o: Option<TaskStepConfig>) -> Option<TaskStepConfig> {
    o
}

pub open spec fn step_view(s: Option<DeployCommandStep>) -> Option<Seq<char>> {
    match s {
        Some(c) => Some(c.command@),
        None => None,
    }
}

pub open spec fn opt_string_view(o: Option<String>) -> Option<Seq<char>> {
    match o {
        Some(s) => Some(s@),
        None => None,
    }
}

/// The views of key/value pairs.
pub open spec fn kv_view(s: Seq<(String, String)>) -> Seq<(Seq<char>, Seq<char>)> {
    s.map_values(|p: (String, String)| (p.0@, p.1@))
}

/// Keys strictly ascending: sorted, and no key twice.
pub open spec fn keys_sorted(s: Seq<(Seq<char>, Seq<char>)>) -> bool {
    forall|i: int, j: int| 0 <= i < j < s.len() ==> crate::text::seq_lt(#[trigger] s[i].0, #[trigger] s[j].0)
}

/// The map the pairs make, a later pair of a key overriding an earlier one.
pub open spec fn env_map(s: Seq<(Seq<char>, Seq<char>)>) -> Map<Seq<char>, Seq<char>>
    decreases s.len(),
{
    if s.len() == 0 {
        Map::empty()
    } else {
        env_map(s.drop_last()).insert(s.last().0, s.last().1)
    }
}

/// The map of pairs with ascending keys holds exactly those pairs.
pub proof fn lemma_sorted_env_map(s: Seq<(Seq<char>, Seq<char>)>)
    requires
        keys_sorted(s),
    ensures
        forall|i: int|
            0 <= i < s.len() ==> env_map(s).contains_key(#[trigger] s[i].0) && env_map(s)[s[i].0] == s[i].1,
        forall|x: Seq<char>| env_map(s).contains_key(x) ==> exists|i: int| 0 <= i < s.len() && #[trigger] s[i].0 == x,
    decreases s.len(),
{
    if s.len() > 0 {
        let t = s.drop_last();
        assert(keys_sorted(t)) by {
            assert forall|i: int, j: int| 0 <= i < j < t.len() implies crate::text::seq_lt(#[trigger] t[i].0, #[trigger] t[j].0) by {
                assert(t[i] == s[i] && t[j] == s[j]);
            }
        }
        lemma_sorted_env_map(t);
        assert(env_map(s) == env_map(t).insert(s.last().0, s.last().1));
        assert forall|i: int| 0 <= i < s.len() implies env_map(s).contains_key(#[trigger] s[i].0) && env_map(s)[s[i].0]
            == s[i].1 by {
            if i < s.len() - 1 {
                assert(t[i] == s[i]);
                assert(crate::text::seq_lt(s[i].0, s[s.len() - 1].0));
                crate::text::lemma_seq_lt_order(s[i].0, s[s.len() - 1].0, s[i].0);
            }
        }
        assert forall|x: Seq<char>| env_map(s).contains_key(x) implies exists|i: int| 0 <= i < s.len() && #[trigger] s[i].0 == x by {
            if x != s.last().0 {
                let i = choose|i: int| 0 <= i < t.len() && #[trigger] t[i].0 == x;
                assert(s[i] == t[i]);
            } else {
                assert(s[s.len() - 1].0 == x);
            }
        }
    }
}

/// Puts `k = v` into pairs with ascending keys, replacing the value of a
/// key already there.
fn insert_env(r: &mut Vec<(String, String)>, k: String, v: String)
    requires
        keys_sorted(kv_view(old(r)@)),
    ensures
        keys_sorted(kv_view(final(r)@)),
        env_map(kv_view(final(r)@)) == env_map(kv_view(old(r)@)).insert(k@, v@),
{
    let ghost s = kv_view(r@);
    let mut p: usize = 0;
    while p < r.len() && crate::text::str_lt(r[p].0.as_str(), k.as_str())
        invariant
            p <= r.len(),
            s == kv_view(r@),
            forall|q: int| 0 <= q < p ==> crate::text::seq_lt(#[trigger] s[q].0, k@),
        decreases r.len() - p,
    {
        p = p + 1;
    }
    let ghost kv = (k@, v@);
    let replace = p < r.len() && str_eq(r[p].0.as_str(), k.as_str());
    proof {
        lemma_sorted_env_map(s);
        if p < s.len() && !replace {
            crate::text::lemma_seq_lt_order(s[p as int].0, k@, k@);
            assert(crate::text::seq_lt(k@, s[p as int].0));
        }
    }
    if replace {
        r.set(p, (k, v));
    } else {
        r.insert(p, (k, v));
    }
    proof {
        let t = kv_view(r@);
        if replace {
            assert(t =~= s.update(p as int, kv));
            assert forall|i: int, j: int| 0 <= i < j < t.len() implies crate::text::seq_lt(#[trigger] t[i].0, #[trigger] t[j].0) by {
                assert(t[i].0 == s[i].0 && t[j].0 == s[j].0);
            }
        } else {
            assert(t =~= s.insert(p as int, kv));
            assert forall|i: int, j: int| 0 <= i < j < t.len() implies crate::text::seq_lt(#[trigger] t[i].0, #[trigger] t[j].0) by {
                if j < p {
                    assert(t[i] == s[i] && t[j] == s[j]);
                } else if j == p {
                    assert(t[i] == s[i]);
                } else if i > p {
                    assert(t[i] == s[i - 1] && t[j] == s[j - 1]);
                } else if i == p {
                    assert(t[j] == s[j - 1]);
                    if j - 1 > p {
                        assert(crate::text::seq_lt(s[p as int].0, s[j - 1].0));
                        crate::text::lemma_seq_lt_order(k@, s[p as int].0, s[j - 1].0);
                    }
                } else {
                    assert(t[i] == s[i] && t[j] == s[j - 1]);
                    assert(crate::text::seq_lt(s[i].0, k@));
                    if j - 1 > p {
                        crate::text::lemma_seq_lt_order(s[i].0, s[p as int].0, s[j - 1].0);
                    }
                    crate::text::lemma_seq_lt_order(s[i].0, k@, s[j - 1].0);
                    if j - 1 == p {
                        crate::text::lemma_seq_lt_order(s[i].0, k@, s[p as int].0);
                    }
                }
            }
        }
        lemma_sorted_env_map(t);
        let m = env_map(s).insert(k@, v@);
        assert forall|x: Seq<char>| #[trigger] env_map(t).contains_key(x) <==> m.contains_key(x) by {
            if env_map(t).contains_key(x) {
                let i = choose|i: int| 0 <= i < t.len() && #[trigger] t[i].0 == x;
                if x != k@ {
                    if replace {
                        assert(s[i] == t[i]);
                    } else if i < p {
                        assert(s[i] == t[i]);
                    } else {
                        assert(s[i - 1] == t[i]);
                    }
                }
            }
            if m.contains_key(x) && x != k@ {
                let j = choose|j: int| 0 <= j < s.len() && #[trigger] s[j].0 == x;
                if replace || j < p {
                    assert(t[j].0 == x);
                } else {
                    assert(t[j + 1] == s[j]);
                }
            }
            if x == k@ {
                assert(t[p as int].0 == k@);
            }
        }
        assert forall|x: Seq<char>| #[trigger] env_map(t).contains_key(x) implies env_map(t)[x] == m[x] by {
            let i = choose|i: int| 0 <= i < t.len() && #[trigger] t[i].0 == x;
            if x == k@ {
                if i != p {
                    if replace {
                        assert(s[i].0 == x && s[p as int].0 == x);
                        if i < p {
                            assert(crate::text::seq_lt(s[i].0, s[p as int].0));
                        } else {
                            assert(crate::text::seq_lt(s[p as int].0, s[i].0));
                        }
                        crate::text::lemma_seq_lt_order(x, x, x);
                    } else {
                        if i < p {
                            assert(crate::text::seq_lt(t[i].0, t[p as int].0));
                        } else {
                            assert(crate::text::seq_lt(t[p as int].0, t[i].0));
                        }
                        crate::text::lemma_seq_lt_order(x, x, x);
                    }
                }
            } else if replace || i < p {
                assert(s[i] == t[i]);
            } else {
                assert(s[i - 1] == t[i]);
            }
        }
        assert(env_map(t) =~= m);
    }
}

/// The pairs sorted by key, a later pair of a key overriding an earlier one
/// (the pairs as a map, in key order).
pub fn sorted_env(v: &Vec<(String, String)>) -> (r: Vec<(String, String)>)
    ensures
        keys_sorted(kv_view(r@)),
        env_map(kv_view(r@)) == env_map(kv_view(v@)),
{
    let mut out: Vec<(String, String)> = Vec::new();
    let mut i: usize = 0;
    while i < v.len()
        invariant
            i <= v.len(),
            keys_sorted(kv_view(out@)),
            env_map(kv_view(out@)) == env_map(kv_view(v@).take(i as int)),
        decreases v.len() - i,
    {
        assert(kv_view(v@).take(i + 1).drop_last() == kv_view(v@).take(i as int));
        insert_env(&mut out, crate::text::owned(v[i].0.as_str()), crate::text::owned(v[i].1.as_str()));
        i = i + 1;
    }
    assert(kv_view(v@).take(v.len() as int) == kv_view(v@));
    out
}

fn copy_warnings(v: &Vec<DeployWarning>) -> (r: Vec<DeployWarning>)
    ensures
        r@ == v@,
{
    let mut out: Vec<DeployWarning> = Vec::new();
    extend_warnings(&mut out, v);
    out
}

/// What deriving `service` from the manifest `tasks` may answer: the
/// service with its configuration and resolved step commands; no service
/// when a missing step asks to omit it; or the error for a missing
/// required step.
pub open spec fn service_outcome<D: Fn(&str) -> Option<String>>(
    service: ServiceConfig,
    tasks: Seq<TaskEntry>,
    detect_fallback: D,
    r: Result<Option<DeployService>, RunnerError>,
) -> bool {
    match r {
        Ok(Some(d)) => {
            &&& d.name == service.name && d.role == service.role
            &&& d.runtime == service.runtime && d.source_root == service.source_root
            &&& step_view(d.build) == step_command(tasks, service.build)
            &&& step_view(d.start) == step_command(tasks, service.start)
            &&& step_view(d.release) == step_command(tasks, service.release)
            &&& match service.health {
                Some(h) => d.health matches Some(dh) && dh.kind == h.kind && dh.path == h.path,
                None => d.health is None,
            }
            &&& match service.output {
                Some(o) => d.output matches Some(dout) && dout.kind == o.kind && dout.path
                    == o.path && (o.fallback is Some ==> dout.fallback == o.fallback) && ((
                o.fallback is None && o.detect_static_fallback != Some(true))
                    ==> dout.fallback is None) && ((o.fallback is None
                    && o.detect_static_fallback == Some(true)) ==> exists|d: &str|
                    d@ == service.source_root@ && detect_fallback.ensures((d,), dout.fallback)),
                None => d.output is None,
            }
            &&& d.port == service.port
            &&& d.domains@ == service.domains@
            &&& keys_sorted(kv_view(d.env@))
            &&& env_map(kv_view(d.env@)) == match service.env {
                Some(e) => env_map(kv_view(e@)),
                None => Map::empty(),
            }
            &&& d.secret_refs@ == match service.secret_refs {
                Some(e) => e@,
                None => Seq::empty(),
            }
            &&& d.volumes@ == match service.volumes {
                Some(e) => e@,
                None => Seq::empty(),
            }
            &&& d.warnings@.len() >= match service.warnings {
                Some(w) => w@.len(),
                None => 0,
            }
            &&& d.warnings@.take(
                match service.warnings {
                    Some(w) => w@.len() as int,
                    None => 0,
                },
            ) == match service.warnings {
                Some(w) => w@,
                None => Seq::empty(),
            }
        },
        Ok(None) => {
            ||| (service.build matches Some(b) && step_command(tasks, service.build) is None
                && b.omit_service_if_missing == Some(true))
            ||| (service.start matches Some(b) && step_command(tasks, service.start) is None
                && b.omit_service_if_missing == Some(true))
            ||| (service.release matches Some(b) && step_command(tasks, service.release)
                is None && b.omit_service_if_missing == Some(true))
        },
        Err(e) => {
            ||| (service.build matches Some(b) && step_command(tasks, service.build) is None
                && is_invocation(
                e,
                missing_task_message("required task `"@, b.task@, service.source_root@),
            ))
            ||| (service.start matches Some(b) && step_command(tasks, service.start) is None
                && is_invocation(
                e,
                missing_task_message("required task `"@, b.task@, service.source_root@),
            ))
            ||| (service.release matches Some(b) && step_command(tasks, service.release)
                is None && is_invocation(
                e,
                missing_task_message("required task `"@, b.task@, service.source_root@),
            ))
        },
    }
}

/// Derives one service of the model from its configuration and the tasks
/// of its own manifest. `detect_fallback` reads the service's static
/// fallback from its framework config; it runs only for a static output
/// with no declared fallback that asks for detection.
pub fn derive_service<D>(service: &ServiceConfig, tasks: &Vec<TaskEntry>, detect_fallback: &D) -> (r:
    Result<Option<DeployService>, RunnerError>) where D: Fn(&str) -> Option<String>,
    requires
        forall|d: &str| detect_fallback.requires((d,)),
    ensures
        service_outcome(*service, tasks@, *detect_fallback, r),
{
    let dir = service.source_root.as_str();
    let build_cmd = lookup_step_command(tasks, service.build.as_ref());
    let build = match resolve_task_step(dir, service.build.as_ref(), build_cmd) {
        Ok(s) => s,
        Err(e) => return Err(e),
    };
    let start_cmd = lookup_step_command(tasks, service.start.as_ref());
    let start = match resolve_task_step(dir, service.start.as_ref(), start_cmd) {
        Ok(s) => s,
        Err(e) => return Err(e),
    };
    let release_cmd = lookup_step_command(tasks, service.release.as_ref());
    let release = match resolve_task_step(dir, service.release.as_ref(), release_cmd) {
        Ok(s) => s,
        Err(e) => return Err(e),
    };
    if build.omit_service || start.omit_service || release.omit_service {
        return Ok(None);
    }
    let mut warnings: Vec<DeployWarning> = match &service.warnings {
        Some(w) => copy_warnings(w),
        None => Vec::new(),
    };
    let ghost base = warnings@;
    extend_warnings(&mut warnings, &build.warnings);
    extend_warnings(&mut warnings, &start.warnings);
    extend_warnings(&mut warnings, &release.warnings);
    let ghost before_output = warnings@;
    let output = match &service.output {
        Some(o) => {
            let mut fallback = copy_opt(&o.fallback);
            if fallback.is_none() && flag(o.detect_static_fallback) {
                fallback = detect_fallback(dir);
                let missing = missing_static_fallback_warning(
                    service.name.as_str(),
                    fallback.is_none(),
                );
                extend_warnings(&mut warnings, &missing);
            }
            Some(DeployOutput { kind: o.kind.clone(), path: o.path.clone(), fallback })
        },
        None => None,
    };
    proof {
        assert(warnings@.take(base.len() as int) == base);
    }
    let health = match &service.health {
        Some(h) => Some(DeployHealth { kind: h.kind.clone(), path: h.path.clone() }),
        None => None,
    };
    let build_step = match build.command {
        Some(c) => Some(DeployCommandStep { command: c }),
        None => None,
    };
    let start_step = match start.command {
        Some(c) => Some(DeployCommandStep { command: c }),
        None => None,
    };
    let release_step = match release.command {
        Some(c) => Some(DeployCommandStep { command: c }),
        None => None,
    };
    let env = match &service.env {
        Some(e) => sorted_env(e),
        None => Vec::new(),
    };
    assert(kv_view(Seq::<(String, String)>::empty()) =~= Seq::empty());
    let secret_refs = match &service.secret_refs {
        Some(s) => copy_strings(s),
        None => Vec::new(),
    };
    let volumes = match &service.volumes {
        Some(s) => copy_strings(s),
        None => Vec::new(),
    };
    Ok(
        Some(
            DeployService {
                name: service.name.clone(),
                role: service.role.clone(),
                runtime: service.runtime.clone(),
                source_root: service.source_root.clone(),
                build: build_step,
                start: start_step,
                release: release_step,
                health,
                output,
                port: service.port,
                domains: copy_strings(&service.domains),
                env,
                secret_refs,
                volumes,
                warnings,
            },
        ),
    )
}


/// `[deploy.model].app`.
#[derive(Debug)]
pub struct AppConfig {
    pub project_name: String,
    pub bundle: Option<String>,
    pub source_root: Option<String>,
    pub notes: Option<String>,
}

/// A backing service of `[deploy.model]`.
#[derive(Debug)]
pub struct BackingServiceConfig {
    pub name: String,
    pub kind: String,
    pub mode: String,
    pub required: bool,
    pub consumers: Vec<String>,
    pub warnings: Option<Vec<DeployWarning>>,
}

/// A domain of `[deploy.model]`.
#[derive(Debug)]
pub struct DomainConfig {
    pub host: String,
    pub service: String,
    pub tls: String,
}

/// A secret of `[deploy.model]`.
#[derive(Debug)]
pub struct SecretConfig {
    pub name: String,
    pub services: Vec<String>,
    pub required: bool,
    pub source: String,
    pub notes: Option<String>,
}

/// The composed `[deploy.model]` configuration.
#[derive(Debug)]
pub struct ModelConfig {
    pub app: AppConfig,
    pub services: Vec<ServiceConfig>,
    pub backing_services: Vec<BackingServiceConfig>,
    pub domains: Vec<DomainConfig>,
    pub secrets: Vec<SecretConfig>,
    pub warnings: Option<Vec<DeployWarning>>,
}

/// The default of `required` for backing services and secrets.
pub fn default_true() -> (r: bool)
    ensures
        r,
{
    true
}

pub open spec fn warnings_or_empty(o: Option<Vec<DeployWarning>>) -> Seq<DeployWarning> {
    match o {
        Some(w) => w@,
        None => Seq::empty(),
    }
}

pub open spec fn backing_matches(b: crate::deploy::model::DeployBackingService, c: BackingServiceConfig) -> bool {
    b.name == c.name && b.kind == c.kind && b.mode == c.mode && b.required == c.required
        && b.consumers@ == c.consumers@ && b.warnings@ == warnings_or_empty(c.warnings)
}

pub open spec fn secret_matches(s: crate::deploy::model::DeploySecret, c: SecretConfig) -> bool {
    s.name == c.name && s.services@ == c.services@ && s.required == c.required && s.source
        == c.source && s.notes == c.notes
}

fn copy_backing(c: &BackingServiceConfig) -> (r: crate::deploy::model::DeployBackingService)
    ensures
        backing_matches(r, *c),
{
    crate::deploy::model::DeployBackingService {
        name: c.name.clone(),
        kind: c.kind.clone(),
        mode: c.mode.clone(),
        required: c.required,
        consumers: copy_strings(&c.consumers),
        warnings: match &c.warnings {
            Some(w) => copy_warnings(w),
            None => Vec::new(),
        },
    }
}

fn copy_secret(c: &SecretConfig) -> (r: crate::deploy::model::DeploySecret)
    ensures
        secret_matches(r, *c),
{
    crate::deploy::model::DeploySecret {
        name: c.name.clone(),
        services: copy_strings(&c.services),
        required: c.required,
        source: c.source.clone(),
        notes: copy_opt(&c.notes),
    }
}

/// The services present among `outs`, in order.
pub open spec fn present_services(outs: Seq<Option<DeployService>>) -> Seq<DeployService>
    decreases outs.len(),
{
    if outs.len() == 0 {
        Seq::empty()
    } else {
        present_services(outs.drop_last()) + match outs.last() {
            Some(d) => seq![d],
            None => Seq::<DeployService>::empty(),
        }
    }
}

/// Whether `out` is what deriving `service` gives, its manifest's tasks
/// loaded by `load_tasks` from its source root.
pub open spec fn service_derived<L: Fn(&str) -> Result<Vec<TaskEntry>, RunnerError>, D: Fn(&str) -> Option<String>>(
    load_tasks: L,
    detect_fallback: D,
    service: ServiceConfig,
    out: Option<DeployService>,
) -> bool {
    exists|d: &str, t: Vec<TaskEntry>|
        d@ == service.source_root@ && #[trigger] load_tasks.ensures((d,), Ok(t)) && service_outcome(
            service,
            t@,
            detect_fallback,
            Ok(out),
        )
}

/// Whether deriving `service` may succeed, with or without a service.
pub open spec fn service_derivable<L: Fn(&str) -> Result<Vec<TaskEntry>, RunnerError>, D: Fn(&str) -> Option<String>>(
    load_tasks: L,
    detect_fallback: D,
    service: ServiceConfig,
) -> bool {
    exists|o: Option<DeployService>| #[trigger] service_derived(load_tasks, detect_fallback, service, o)
}

/// Whether deriving `service` may fail with `e`: loading its tasks, or
/// deriving it from them.
pub open spec fn service_failed<L: Fn(&str) -> Result<Vec<TaskEntry>, RunnerError>, D: Fn(&str) -> Option<String>>(
    load_tasks: L,
    detect_fallback: D,
    service: ServiceConfig,
    e: RunnerError,
) -> bool {
    exists|d: &str, loaded: Result<Vec<TaskEntry>, RunnerError>|
        d@ == service.source_root@ && #[trigger] load_tasks.ensures((d,), loaded) && match loaded {
            Err(x) => x == e,
            Ok(t) => service_outcome(service, t@, detect_fallback, Err(e)),
        }
}

/// Derives the deployment model from `[deploy.model]`: each configured
/// service is derived from its own manifest (loaded through `load_tasks`)
/// unless one of its steps omits it; app, backing services, domains,
/// secrets and warnings are taken over as configured.
pub fn derive_model_from_config<L, D>(
    repo_name: String,
    config: &ModelConfig,
    load_tasks: &L,
    detect_fallback: &D,
) -> (r: Result<crate::deploy::model::DeployModel, RunnerError>) where
    L: Fn(&str) -> Result<Vec<TaskEntry>, RunnerError>,
    D: Fn(&str) -> Option<String>,

    requires
        forall|d: &str| load_tasks.requires((d,)),
        forall|d: &str| detect_fallback.requires((d,)),
    ensures
        r matches Ok(m) ==> {
            &&& m.schema@ == "deploy.model.v1"@ && m.schema_version == 1
            &&& m.app.name == repo_name && m.app.bundle == config.app.bundle
            &&& m.app.project_name == config.app.project_name
            &&& m.app.source_root == config.app.source_root && m.app.notes == config.app.notes
            &&& exists|outs: Seq<Option<DeployService>>|
                outs.len() == config.services@.len() && (forall|i: int|
                    0 <= i < outs.len() ==> #[trigger] service_derived(
                        *load_tasks,
                        *detect_fallback,
                        config.services@[i],
                        outs[i],
                    )) && m.services@ == present_services(outs)
            &&& m.backing_services@.len() == config.backing_services@.len()
            &&& forall|i: int|
                0 <= i < m.backing_services@.len() ==> #[trigger] backing_matches(
                    m.backing_services@[i],
                    config.backing_services@[i],
                )
            &&& m.domains@.len() == config.domains@.len()
            &&& forall|i: int|
                0 <= i < m.domains@.len() ==> (#[trigger] m.domains@[i]).host
                    == config.domains@[i].host && m.domains@[i].service
                    == config.domains@[i].service && m.domains@[i].tls == config.domains@[i].tls
            &&& m.secrets@.len() == config.secrets@.len()
            &&& forall|i: int|
                0 <= i < m.secrets@.len() ==> #[trigger] secret_matches(
                    m.secrets@[i],
                    config.secrets@[i],
                )
            &&& m.warnings@ == warnings_or_empty(config.warnings)
        },
        r matches Err(e) ==> exists|i: int|
            0 <= i < config.services@.len() && (forall|j: int|
                0 <= j < i ==> #[trigger] service_derivable(*load_tasks, *detect_fallback, config.services@[j]))
                && #[trigger] service_failed(*load_tasks, *detect_fallback, config.services@[i], e),
{
    let mut services: Vec<DeployService> = Vec::new();
    let ghost mut outs: Seq<Option<DeployService>> = Seq::empty();
    let mut i: usize = 0;
    while i < config.services.len()
        invariant
            i <= config.services.len(),
            outs.len() == i,
            forall|k: int|
                0 <= k < i ==> #[trigger] service_derived(
                    *load_tasks,
                    *detect_fallback,
                    config.services@[k],
                    outs[k],
                ),
            services@ == present_services(outs),
            forall|k: int| 0 <= k < i ==> #[trigger] service_derivable(*load_tasks, *detect_fallback, config.services@[k]),
            forall|d: &str| load_tasks.requires((d,)),
            forall|d: &str| detect_fallback.requires((d,)),
        decreases config.services.len() - i,
    {
        let svc = &config.services[i];
        let dir = svc.source_root.as_str();
        let tasks = match load_tasks(dir) {
            Ok(t) => t,
            Err(e) => {
                assert(service_failed(*load_tasks, *detect_fallback, config.services@[i as int], e));
                return Err(e);
            },
        };
        assert(load_tasks.ensures((dir,), Ok(tasks)));
        let out = derive_service(svc, &tasks, detect_fallback);
        match out {
            Ok(Some(d)) => {
                proof {
                    assert(service_derived(*load_tasks, *detect_fallback, config.services@[i as int], Some(d)));
                    assert(outs.push(Some(d)).drop_last() == outs);
                    outs = outs.push(Some(d));
                }
                services.push(d);
            },
            Ok(None) => {
                proof {
                    assert(service_derived(*load_tasks, *detect_fallback, config.services@[i as int], None));
                    assert(outs.push(None).drop_last() == outs);
                    outs = outs.push(None);
                }
            },
            Err(e) => {
                assert(service_failed(*load_tasks, *detect_fallback, config.services@[i as int], e));
                return Err(e);
            },
        }
        i = i + 1;
    }
    let mut backing: Vec<crate::deploy::model::DeployBackingService> = Vec::new();
    let mut j: usize = 0;
    while j < config.backing_services.len()
        invariant
            j <= config.backing_services.len(),
            backing@.len() == j,
            forall|k: int|
                0 <= k < j ==> #[trigger] backing_matches(backing@[k], config.backing_services@[k]),
        decreases config.backing_services.len() - j,
    {
        backing.push(copy_backing(&config.backing_services[j]));
        j = j + 1;
    }
    let mut domains: Vec<crate::deploy::model::DeployDomain> = Vec::new();
    let mut k: usize = 0;
    while k < config.domains.len()
        invariant
            k <= config.domains.len(),
            domains@.len() == k,
            forall|x: int|
                0 <= x < k ==> (#[trigger] domains@[x]).host == config.domains@[x].host
                    && domains@[x].service == config.domains@[x].service && domains@[x].tls
                    == config.domains@[x].tls,
        decreases config.domains.len() - k,
    {
        let d = &config.domains[k];
        domains.push(
            crate::deploy::model::DeployDomain {
                host: d.host.clone(),
                service: d.service.clone(),
                tls: d.tls.clone(),
            },
        );
        k = k + 1;
    }
    let mut secrets: Vec<crate::deploy::model::DeploySecret> = Vec::new();
    let mut x: usize = 0;
    while x < config.secrets.len()
        invariant
            x <= config.secrets.len(),
            secrets@.len() == x,
            forall|y: int| 0 <= y < x ==> #[trigger] secret_matches(secrets@[y], config.secrets@[y]),
        decreases config.secrets.len() - x,
    {
        secrets.push(copy_secret(&config.secrets[x]));
        x = x + 1;
    }
    let warnings = match &config.warnings {
        Some(w) => copy_warnings(w),
        None => Vec::new(),
    };
    Ok(
        crate::deploy::model::DeployModel {
            schema: "deploy.model.v1".to_owned(),
            schema_version: 1,
            app: crate::deploy::model::DeployApp {
                name: repo_name,
                bundle: copy_opt(&config.app.bundle),
                project_name: config.app.project_name.clone(),
                source_root: copy_opt(&config.app.source_root),
                notes: copy_opt(&config.app.notes),
            },
            services,
            backing_services: backing,
            domains,
            secrets,
            warnings,
        },
    )
}

} // verus!
