//! The shipped `underlay` bundle: its inputs, and the deployment model it
//! implies.
use vstd::prelude::*;
use crate::deploy::derive::{missing_task_message, optional_task_command, task_command, TaskEntry};
use crate::deploy::model::{
    is_missing_fallback_warning, missing_static_fallback_warning, DeployApp, DeployBackingService,
    DeployCommandStep, DeployDomain, DeployHealth, DeployModel, DeployOutput, DeploySecret,
    DeployService, DeployWarning,
};
use crate::error::{is_invocation, RunnerError};
use crate::text::{cat, cat3, owned, split_on, split_str, str_eq, trim, trim_str, views};

verus! {

/// A TOML value of a bundle's inputs, as far as deployment reads it.
#[derive(Debug)]
pub enum BundleValue {
    Str(String),
    Int(i64),
    Array(Vec<BundleValue>),
    Table(Vec<(String, BundleValue)>),
    /// Any other TOML value (float, boolean, datetime).
    Other,
}


/// The value of the first entry keyed `key`.
pub open spec fn table_get(t: Seq<(String, BundleValue)>, key: Seq<char>) -> Option<BundleValue>
    decreases t.len(),
{
    if t.len() == 0 {
        None
    } else if t[0].0@ == key {
        Some(t[0].1)
    } else {
        table_get(t.drop_first(), key)
    }
}

/// The value reached from `v` through the tables named by `parts`.
pub open spec fn path_get(v: BundleValue, parts: Seq<Seq<char>>) -> Option<BundleValue>
    decreases parts.len(),
{
    if parts.len() == 0 {
        Some(v)
    } else {
        match v {
            BundleValue::Table(t) => match table_get(t@, parts[0]) {
                Some(x) => path_get(x, parts.drop_first()),
                None => None,
            },
            _ => None,
        }
    }
}

/// A bundle input: the entry keyed `key` itself, or else the value reached
/// through the dotted path that `key` spells.
pub open spec fn bundle_lookup(inputs: Seq<(String, BundleValue)>, key: Seq<char>) -> Option<
    BundleValue,
> {
    match table_get(inputs, key) {
        Some(v) => Some(v),
        None => {
            let parts = split_on(key, '.');
            match table_get(inputs, parts[0]) {
                Some(v) => path_get(v, parts.drop_first()),
                None => None,
            }
        },
    }
}

pub fn table_get_exec<'a>(t: &'a Vec<(String, BundleValue)>, key: &str) -> (r: Option<&'a BundleValue>)
    ensures
        match r {
            Some(v) => table_get(t@, key@) == Some(*v),
            None => table_get(t@, key@) is None,
        },
{
    let mut i: usize = 0;
    assert(t@.skip(0) == t@);
    while i < t.len()
        invariant
            i <= t.len(),
            table_get(t@, key@) == table_get(t@.skip(i as int), key@),
        decreases t.len() - i,
    {
        assert(t@.skip(i as int).drop_first() == t@.skip(i + 1));
        if str_eq(t[i].0.as_str(), key) {
            return Some(&t[i].1);
        }
        i = i + 1;
    }
    None
}

/// Looks up a bundle input by key or dotted path.
pub fn bundle_value<'a>(inputs: &'a Vec<(String, BundleValue)>, key: &str) -> (r: Option<
    &'a BundleValue,
>)
    ensures
        match r {
            Some(v) => bundle_lookup(inputs@, key@) == Some(*v),
            None => bundle_lookup(inputs@, key@) is None,
        },
{
    assert(inputs@.skip(0) == inputs@);
    if let Some(v) = table_get_exec(inputs, key) {
        return Some(v);
    }
    let parts = split_str(key, '.');
    let ghost ps = views(parts@);
    let mut value = match table_get_exec(inputs, parts[0].as_str()) {
        Some(v) => v,
        None => return None,
    };
    let mut k: usize = 1;
    while k < parts.len()
        invariant
            1 <= k <= parts.len(),
            ps == views(parts@),
            ps == split_on(key@, '.'),
            table_get(inputs@, key@) is None,
            table_get(inputs@, ps[0]) matches Some(v0) && path_get(v0, ps.drop_first())
                == path_get(*value, ps.skip(k as int)),
        decreases parts.len() - k,
    {
        assert(ps.skip(k as int).drop_first() == ps.skip(k + 1));
        assert(ps.skip(k as int)[0] == parts@[k as int]@);
        match value {
            BundleValue::Table(t) => {
                assert(t@.skip(0) == t@);
                match table_get_exec(t, parts[k].as_str()) {
                    Some(x) => {
                        value = x;
                    },
                    None => return None,
                }
            },
            _ => return None,
        }
        k = k + 1;
    }
    assert(ps.skip(k as int).len() == 0);
    Some(value)
}

/// The message for a bundle input that is absent or has the wrong kind.
pub open spec fn missing_input_message(key: Seq<char>) -> Seq<char> {
    "missing required bundle input `"@ + key + "`"@
}

pub open spec fn input_message(key: Seq<char>, what: Seq<char>) -> Seq<char> {
    "bundle input `"@ + key + what
}

fn missing_input(key: &str) -> (r: RunnerError)
    ensures
        is_invocation(r, missing_input_message(key@)),
{
    let m = cat3("missing required bundle input `", key, "`");
    RunnerError::task_invocation(m.as_str())
}

fn input_error(key: &str, what: &str) -> (r: RunnerError)
    ensures
        is_invocation(r, input_message(key@, what@)),
{
    let m = cat3("bundle input `", key, what);
    RunnerError::task_invocation(m.as_str())
}

/// A string input that must be present.
pub fn required_bundle_string(inputs: &Vec<(String, BundleValue)>, key: &str) -> (r: Result<
    String,
    RunnerError,
>)
    ensures
        match bundle_lookup(inputs@, key@) {
            Some(BundleValue::Str(s)) => r == Ok::<String, RunnerError>(s),
            _ => r matches Err(e) && is_invocation(e, missing_input_message(key@)),
        },
{
    match bundle_value(inputs, key) {
        Some(BundleValue::Str(s)) => Ok(s.clone()),
        _ => Err(missing_input(key)),
    }
}

pub open spec fn all_strings(items: Seq<BundleValue>) -> bool {
    forall|i: int| 0 <= i < items.len() ==> #[trigger] items[i] is Str
}

pub open spec fn string_items(items: Seq<BundleValue>) -> Seq<Seq<char>> {
    items.map_values(|v: BundleValue| v->Str_0@)
}

/// A non-empty list of strings that must be present.
pub fn required_bundle_string_list(inputs: &Vec<(String, BundleValue)>, key: &str) -> (r: Result<
    Vec<String>,
    RunnerError,
>)
    ensures
        match bundle_lookup(inputs@, key@) {
            Some(BundleValue::Array(items)) => if !all_strings(items@) {
                r matches Err(e) && is_invocation(e, input_message(key@, "` must be a string list"@))
            } else if items@.len() == 0 {
                r matches Err(e) && is_invocation(e, input_message(key@, "` must not be empty"@))
            } else {
                r matches Ok(v) && views(v@) == string_items(items@)
            },
            _ => r matches Err(e) && is_invocation(e, missing_input_message(key@)),
        },
{
    let items = match bundle_value(inputs, key) {
        Some(BundleValue::Array(items)) => items,
        _ => return Err(missing_input(key)),
    };
    let mut out: Vec<String> = Vec::new();
    let mut i: usize = 0;
    while i < items.len()
        invariant
            i <= items.len(),
            bundle_lookup(inputs@, key@) == Some(BundleValue::Array(*items)),
            forall|j: int| 0 <= j < i ==> #[trigger] items@[j] is Str,
            views(out@) == string_items(items@.take(i as int)),
        decreases items.len() - i,
    {
        match &items[i] {
            BundleValue::Str(s) => {
                out.push(s.clone());
                assert(string_items(items@.take(i + 1)) == string_items(items@.take(i as int)).push(
                    s@,
                ));
                assert(views(out@) == views(out@).drop_last().push(s@));
            },
            _ => {
                assert(!(items@[i as int] is Str));
                return Err(input_error(key, "` must be a string list"));
            },
        }
        i = i + 1;
    }
    assert(items@.take(items.len() as int) == items@);
    if out.len() == 0 {
        return Err(input_error(key, "` must not be empty"));
    }
    Ok(out)
}

/// A `u16` input with a default.
pub fn bundle_integer_or_default(inputs: &Vec<(String, BundleValue)>, key: &str, default: u16) -> (r:
    Result<u16, RunnerError>)
    ensures
        match bundle_lookup(inputs@, key@) {
            None => r == Ok::<u16, RunnerError>(default),
            Some(BundleValue::Int(n)) => if 0 <= n <= 65535 {
                r == Ok::<u16, RunnerError>(n as u16)
            } else {
                r matches Err(e) && is_invocation(e, input_message(key@, "` must fit into a u16"@))
            },
            Some(_) => r matches Err(e) && is_invocation(
                e,
                input_message(key@, "` must be an integer"@),
            ),
        },
{
    match bundle_value(inputs, key) {
        None => Ok(default),
        Some(BundleValue::Int(n)) => {
            if 0 <= *n && *n <= 65535 {
                Ok(*n as u16)
            } else {
                Err(input_error(key, "` must fit into a u16"))
            }
        },
        Some(_) => Err(input_error(key, "` must be an integer")),
    }
}

/// A string input with a default.
pub fn bundle_string_or_default(inputs: &Vec<(String, BundleValue)>, key: &str, default: &str) -> (r:
    Result<String, RunnerError>)
    ensures
        match bundle_lookup(inputs@, key@) {
            None => r matches Ok(s) && s@ == default@,
            Some(BundleValue::Str(s)) => r == Ok::<String, RunnerError>(s),
            Some(_) => r matches Err(e) && is_invocation(e, input_message(key@, "` must be a string"@)),
        },
{
    match bundle_value(inputs, key) {
        None => Ok(owned(default)),
        Some(BundleValue::Str(s)) => Ok(s.clone()),
        Some(_) => Err(input_error(key, "` must be a string")),
    }
}

/// The domain of a route: the host itself for an empty label, otherwise
/// the trimmed label as a subdomain of the host.
pub open spec fn route_domain_spec(host: Seq<char>, label: Seq<char>) -> Seq<char> {
    if trim(label).len() == 0 {
        host
    } else {
        trim(label) + "."@ + host
    }
}

/// The public domain of a bundle route.
pub fn route_domain(host: &str, label: &str) -> (r: String)
    ensures
        r@ == route_domain_spec(host@, label@),
{
    let t = trim_str(label);
    if t.unicode_len() == 0 {
        owned(host)
    } else {
        cat3(t, ".", host)
    }
}


/// A task command that the bundle requires.
pub fn required_task_command(tasks: &Vec<TaskEntry>, task_name: &str, dir: &str) -> (r: Result<
    String,
    RunnerError,
>)
    ensures
        match task_command(tasks@, task_name@) {
            Some(c) => r matches Ok(s) && s@ == c,
            None => r matches Err(e) && is_invocation(
                e,
                missing_task_message("required task `"@, task_name@, dir@),
            ),
        },
{
    match optional_task_command(tasks, task_name) {
        Some(c) => Ok(c),
        None => {
            let mut m = cat3("required task `", task_name, "` is missing or non-command in `");
            m.append(dir);
            m.append("/effigy.toml`");
            Err(RunnerError::task_invocation(m.as_str()))
        },
    }
}

/// Everything the `underlay` model is made of, once read from the bundle
/// inputs and the three service manifests.
#[derive(Debug)]
pub struct UnderlayParts {
    pub repo_name: String,
    pub project_name: String,
    pub front_dir: String,
    pub admin_dir: String,
    pub api_dir: String,
    pub databases: Vec<String>,
    pub api_port: u16,
    pub front_domain: String,
    pub admin_domain: String,
    pub api_domain: String,
    pub front_build: String,
    pub admin_build: String,
    pub api_build: String,
    pub api_start: String,
    pub api_release: Option<String>,
    pub jobs_start: Option<String>,
    pub front_fallback: Option<String>,
    pub admin_fallback: Option<String>,
}

pub open spec fn cmd_is(s: Option<DeployCommandStep>, c: Seq<char>) -> bool {
    s matches Some(x) && x.command@ == c
}

pub open spec fn one_string(v: Seq<String>, s: Seq<char>) -> bool {
    v.len() == 1 && v[0]@ == s
}

/// A static `node` service publishing `build/` from `dir`.
pub open spec fn is_static_service(
    s: DeployService,
    name: Seq<char>,
    dir: Seq<char>,
    build: Seq<char>,
    fallback: Option<String>,
    domain: Seq<char>,
) -> bool {
    &&& s.name@ == name && s.role@ == "static"@ && s.runtime@ == "node"@ && s.source_root@ == dir
    &&& cmd_is(s.build, build) && s.start is None && s.release is None && s.health is None
    &&& s.output matches Some(o) && o.kind@ == "directory"@ && o.path@ == "build"@ && o.fallback
        == fallback
    &&& s.port is None && one_string(s.domains@, domain)
    &&& s.env@.len() == 0 && s.secret_refs@.len() == 0 && s.volumes@.len() == 0
    &&& if fallback is None {
        s.warnings@.len() == 1 && is_missing_fallback_warning(s.warnings@[0], name)
    } else {
        s.warnings@.len() == 0
    }
}

/// The warning for an `underlay` API without a migration command.
pub open spec fn is_missing_release_warning(w: DeployWarning) -> bool {
    &&& w.code@ == "missing-release-hook"@
    &&& w.scope@ == "service"@
    &&& w.target matches Some(t) && t@ == "api"@
    &&& w.message@
        == "No explicit `db:migrate` release or migration command is promoted into the deployment model yet"@
    &&& w.severity@ == "warn"@
}

/// The model of an `underlay` bundle: two static front ends, a Rust API,
/// an optional Rust jobs worker, managed Postgres and its connection
/// secret.
pub open spec fn is_underlay_model(m: DeployModel, p: UnderlayParts) -> bool {
    let has_jobs = p.jobs_start is Some;
    let consumers_ok = |v: Seq<String>|
        if has_jobs {
            v.len() == 2 && v[0]@ == "api"@ && v[1]@ == "jobs"@
        } else {
            one_string(v, "api"@)
        };
    &&& m.schema@ == "deploy.model.v1"@ && m.schema_version == 1
    &&& m.app.name == p.repo_name && (m.app.bundle matches Some(b) && b@ == "underlay"@)
    &&& m.app.project_name == p.project_name
    &&& (m.app.source_root matches Some(r) && r@ == "."@) && m.app.notes is None
    &&& m.services@.len() == if has_jobs {
        4int
    } else {
        3int
    }
    &&& is_static_service(
        m.services@[0],
        "front"@,
        p.front_dir@,
        p.front_build@,
        p.front_fallback,
        p.front_domain@,
    )
    &&& is_static_service(
        m.services@[1],
        "admin"@,
        p.admin_dir@,
        p.admin_build@,
        p.admin_fallback,
        p.admin_domain@,
    )
    &&& {
        let api = m.services@[2];
        &&& api.name@ == "api"@ && api.role@ == "web"@ && api.runtime@ == "rust"@
        &&& api.source_root@ == p.api_dir@
        &&& cmd_is(api.build, p.api_build@) && cmd_is(api.start, p.api_start@)
        &&& match p.api_release {
            Some(c) => cmd_is(api.release, c@),
            None => api.release is None,
        }
        &&& api.health matches Some(h) && h.kind@ == "http"@ && h.path@ == "/v1/health"@
        &&& api.output is None && api.port == Some(p.api_port)
        &&& one_string(api.domains@, p.api_domain@)
        &&& api.env@.len() == 0 && one_string(api.secret_refs@, "DATABASE_URL"@)
        &&& api.volumes@.len() == 0
        &&& if p.api_release is None {
            api.warnings@.len() == 1 && is_missing_release_warning(api.warnings@[0])
        } else {
            api.warnings@.len() == 0
        }
    }
    &&& match p.jobs_start {
        Some(j) => {
            let jobs = m.services@[3];
            &&& jobs.name@ == "jobs"@ && jobs.role@ == "worker"@ && jobs.runtime@ == "rust"@
            &&& jobs.source_root@ == p.api_dir@
            &&& cmd_is(jobs.build, p.api_build@) && cmd_is(jobs.start, j@)
            &&& jobs.release is None && jobs.health is None && jobs.output is None
            &&& jobs.port is None && jobs.domains@.len() == 0 && jobs.env@.len() == 0
            &&& one_string(jobs.secret_refs@, "DATABASE_URL"@) && jobs.volumes@.len() == 0
            &&& jobs.warnings@.len() == 0
        },
        None => true,
    }
    &&& m.backing_services@.len() == 1
    &&& {
        let b = m.backing_services@[0];
        &&& b.name@ == "postgres"@ && b.kind@ == "postgres"@ && b.mode@ == "managed"@
        &&& b.required && consumers_ok(b.consumers@) && b.warnings@.len() == 0
    }
    &&& m.domains@.len() == 3
    &&& m.domains@[0].host == p.front_domain && m.domains@[0].service@ == "front"@
    &&& m.domains@[1].host == p.admin_domain && m.domains@[1].service@ == "admin"@
    &&& m.domains@[2].host == p.api_domain && m.domains@[2].service@ == "api"@
    &&& forall|i: int| 0 <= i < 3 ==> #[trigger] m.domains@[i].tls@ == "provider_managed"@
    &&& m.secrets@.len() == 1
    &&& {
        let s = m.secrets@[0];
        &&& s.name@ == "DATABASE_URL"@ && consumers_ok(s.services@) && s.required
        &&& s.source@ == "operator"@
        &&& s.notes matches Some(n) && n@ == "Managed Postgres connection string for primary database `"@
            + (if p.databases@.len() > 0 {
            p.databases@[0]@
        } else {
            "app"@
        }) + "`"@
    }
    &&& m.warnings@.len() == 0
}

fn one(s: String) -> (r: Vec<String>)
    ensures
        r@ == seq![s],
{
    let mut v: Vec<String> = Vec::new();
    v.push(s);
    v
}

fn static_service(
    name: &str,
    dir: &String,
    build: &String,
    fallback: &Option<String>,
    domain: &String,
) -> (r: DeployService)
    ensures
        is_static_service(r, name@, dir@, build@, *fallback, domain@),
{
    let fb = crate::deploy::model::copy_opt(fallback);
    let missing = fb.is_none();
    DeployService {
        name: owned(name),
        role: "static".to_owned(),
        runtime: "node".to_owned(),
        source_root: dir.clone(),
        build: Some(DeployCommandStep { command: build.clone() }),
        start: None,
        release: None,
        health: None,
        output: Some(
            DeployOutput { kind: "directory".to_owned(), path: "build".to_owned(), fallback: fb },
        ),
        port: None,
        domains: one(domain.clone()),
        env: Vec::new(),
        secret_refs: Vec::new(),
        volumes: Vec::new(),
        warnings: missing_static_fallback_warning(name, missing),
    }
}

fn opt_step(c: &Option<String>) -> (r: Option<DeployCommandStep>)
    ensures
        match *c {
            Some(x) => cmd_is(r, x@),
            None => r is None,
        },
{
    match c {
        Some(x) => Some(DeployCommandStep { command: x.clone() }),
        None => None,
    }
}

fn domain(host: &String, service: &str) -> (r: DeployDomain)
    ensures
        r.host == *host && r.service@ == service@ && r.tls@ == "provider_managed"@,
{
    DeployDomain { host: host.clone(), service: owned(service), tls: "provider_managed".to_owned() }
}

/// Assembles the `underlay` model from its parts.
pub fn underlay_model(p: &UnderlayParts) -> (m: DeployModel)
    ensures
        is_underlay_model(m, *p),
{
    let front = static_service("front", &p.front_dir, &p.front_build, &p.front_fallback, &p.front_domain);
    let admin = static_service("admin", &p.admin_dir, &p.admin_build, &p.admin_fallback, &p.admin_domain);
    let mut api_warnings: Vec<DeployWarning> = Vec::new();
    if p.api_release.is_none() {
        api_warnings.push(
            DeployWarning {
                code: "missing-release-hook".to_owned(),
                scope: "service".to_owned(),
                target: Some("api".to_owned()),
                message: "No explicit `db:migrate` release or migration command is promoted into the deployment model yet".to_owned(),
                severity: "warn".to_owned(),
            },
        );
    }
    let api = DeployService {
        name: "api".to_owned(),
        role: "web".to_owned(),
        runtime: "rust".to_owned(),
        source_root: p.api_dir.clone(),
        build: Some(DeployCommandStep { command: p.api_build.clone() }),
        start: Some(DeployCommandStep { command: p.api_start.clone() }),
        release: opt_step(&p.api_release),
        health: Some(DeployHealth { kind: "http".to_owned(), path: "/v1/health".to_owned() }),
        output: None,
        port: Some(p.api_port),
        domains: one(p.api_domain.clone()),
        env: Vec::new(),
        secret_refs: one("DATABASE_URL".to_owned()),
        volumes: Vec::new(),
        warnings: api_warnings,
    };
    let mut services: Vec<DeployService> = Vec::new();
    services.push(front);
    services.push(admin);
    services.push(api);
    let mut consumers: Vec<String> = Vec::new();
    consumers.push("api".to_owned());
    if let Some(j) = &p.jobs_start {
        services.push(
            DeployService {
                name: "jobs".to_owned(),
                role: "worker".to_owned(),
                runtime: "rust".to_owned(),
                source_root: p.api_dir.clone(),
                build: Some(DeployCommandStep { command: p.api_build.clone() }),
                start: Some(DeployCommandStep { command: j.clone() }),
                release: None,
                health: None,
                output: None,
                port: None,
                domains: Vec::new(),
                env: Vec::new(),
                secret_refs: one("DATABASE_URL".to_owned()),
                volumes: Vec::new(),
                warnings: Vec::new(),
            },
        );
        consumers.push("jobs".to_owned());
    }
    let first_db = if p.databases.len() > 0 {
        p.databases[0].clone()
    } else {
        "app".to_owned()
    };
    let notes = cat3("Managed Postgres connection string for primary database `", first_db.as_str(), "`");
    let mut backing: Vec<DeployBackingService> = Vec::new();
    backing.push(
        DeployBackingService {
            name: "postgres".to_owned(),
            kind: "postgres".to_owned(),
            mode: "managed".to_owned(),
            required: true,
            consumers: crate::deploy::model::copy_strings(&consumers),
            warnings: Vec::new(),
        },
    );
    let mut domains: Vec<DeployDomain> = Vec::new();
    domains.push(domain(&p.front_domain, "front"));
    domains.push(domain(&p.admin_domain, "admin"));
    domains.push(domain(&p.api_domain, "api"));
    let mut secrets: Vec<DeploySecret> = Vec::new();
    secrets.push(
        DeploySecret {
            name: "DATABASE_URL".to_owned(),
            services: consumers,
            required: true,
            source: "operator".to_owned(),
            notes: Some(notes),
        },
    );
    DeployModel {
        schema: "deploy.model.v1".to_owned(),
        schema_version: 1,
        app: DeployApp {
            name: p.repo_name.clone(),
            bundle: Some("underlay".to_owned()),
            project_name: p.project_name.clone(),
            source_root: Some(".".to_owned()),
            notes: None,
        },
        services,
        backing_services: backing,
        domains,
        secrets,
        warnings: Vec::new(),
    }
}


/// Whether the input `key` is a string.
pub open spec fn is_str_input(inputs: Seq<(String, BundleValue)>, key: Seq<char>) -> bool {
    bundle_lookup(inputs, key) matches Some(BundleValue::Str(_))
}

/// The string that an input holds, or `d` when it is absent.
pub open spec fn string_or(inputs: Seq<(String, BundleValue)>, key: Seq<char>, d: Seq<char>) -> Seq<
    char,
> {
    match bundle_lookup(inputs, key) {
        Some(BundleValue::Str(s)) => s@,
        _ => d,
    }
}

/// Whether the parts of an `underlay` model were read from these inputs:
/// required strings, directories and routes with their defaults, the
/// database list and the API port (default 41001).
pub open spec fn parts_from_inputs(p: UnderlayParts, inputs: Seq<(String, BundleValue)>) -> bool {
    &&& bundle_lookup(inputs, "host"@) matches Some(BundleValue::Str(host))
    &&& bundle_lookup(inputs, "project_name"@) == Some(BundleValue::Str(p.project_name))
    &&& p.front_dir@ == string_or(inputs, "dirs.front"@, "app-front"@)
    &&& p.admin_dir@ == string_or(inputs, "dirs.admin"@, "app-admin"@)
    &&& p.api_dir@ == string_or(inputs, "dirs.api"@, "app-api"@)
    &&& (bundle_lookup(inputs, "databases"@) matches Some(BundleValue::Array(items)) && views(
        p.databases@,
    ) == string_items(items@))
    &&& p.api_port == match bundle_lookup(inputs, "api_port"@) {
        Some(BundleValue::Int(n)) => n as u16,
        _ => 41001u16,
    }
    &&& p.front_domain@ == route_domain_spec(host@, string_or(inputs, "routes.front"@, ""@))
    &&& p.admin_domain@ == route_domain_spec(host@, string_or(inputs, "routes.admin"@, "admin"@))
    &&& p.api_domain@ == route_domain_spec(host@, string_or(inputs, "routes.api"@, "api"@))
}

/// Whether the task commands of the parts came from the manifests that
/// `load` gave for the three service directories, and the fallbacks from
/// `detect`.
pub open spec fn parts_from_manifests<L, D>(p: UnderlayParts, load: L, detect: D) -> bool where
    L: Fn(&str) -> Result<Vec<TaskEntry>, RunnerError>,
    D: Fn(&str) -> Option<String>,
 {
    &&& exists|d: &str, t: Vec<TaskEntry>|
        d@ == p.front_dir@ && load.ensures((d,), Ok(t)) && task_command(t@, "build"@) == Some(
            p.front_build@,
        )
    &&& exists|d: &str, t: Vec<TaskEntry>|
        d@ == p.admin_dir@ && load.ensures((d,), Ok(t)) && task_command(t@, "build"@) == Some(
            p.admin_build@,
        )
    &&& exists|d: &str, t: Vec<TaskEntry>|
        {
            &&& d@ == p.api_dir@ && load.ensures((d,), Ok(t))
            &&& task_command(t@, "build"@) == Some(p.api_build@)
            &&& task_command(t@, "api"@) == Some(p.api_start@)
            &&& match p.api_release {
                Some(c) => task_command(t@, "db:migrate"@) == Some(c@),
                None => task_command(t@, "db:migrate"@) is None,
            }
            &&& match p.jobs_start {
                Some(c) => task_command(t@, "jobs"@) == Some(c@),
                None => task_command(t@, "jobs"@) is None,
            }
        }
    &&& exists|d: &str| d@ == p.front_dir@ && detect.ensures((d,), p.front_fallback)
    &&& exists|d: &str| d@ == p.admin_dir@ && detect.ensures((d,), p.admin_fallback)
}

/// The refusal of a string input with a default: present but no string.
pub open spec fn string_input_error(inputs: Seq<(String, BundleValue)>, key: Seq<char>) -> Option<Seq<char>> {
    match bundle_lookup(inputs, key) {
        None => None,
        Some(BundleValue::Str(_)) => None,
        Some(_) => Some(input_message(key, "` must be a string"@)),
    }
}

/// The refusal of a required non-empty string list input.
pub open spec fn list_input_error(inputs: Seq<(String, BundleValue)>, key: Seq<char>) -> Option<Seq<char>> {
    match bundle_lookup(inputs, key) {
        Some(BundleValue::Array(items)) => if !all_strings(items@) {
            Some(input_message(key, "` must be a string list"@))
        } else if items@.len() == 0 {
            Some(input_message(key, "` must not be empty"@))
        } else {
            None
        },
        _ => Some(missing_input_message(key)),
    }
}

/// The refusal of a `u16` input with a default.
pub open spec fn port_input_error(inputs: Seq<(String, BundleValue)>, key: Seq<char>) -> Option<Seq<char>> {
    match bundle_lookup(inputs, key) {
        None => None,
        Some(BundleValue::Int(n)) => if 0 <= n <= 65535 {
            None
        } else {
            Some(input_message(key, "` must fit into a u16"@))
        },
        Some(_) => Some(input_message(key, "` must be an integer"@)),
    }
}

/// `a`, else `b`.
pub open spec fn first_error(a: Option<Seq<char>>, b: Option<Seq<char>>) -> Option<Seq<char>> {
    match a {
        Some(m) => Some(m),
        None => b,
    }
}

/// The first refusal of the `underlay` inputs read before the manifests
/// are loaded, in the order they are read: `host`, `project_name`, the
/// three `dirs.*`, `databases`, `api_port`.
pub open spec fn underlay_input_error(inputs: Seq<(String, BundleValue)>) -> Option<Seq<char>> {
    if !is_str_input(inputs, "host"@) {
        Some(missing_input_message("host"@))
    } else if !is_str_input(inputs, "project_name"@) {
        Some(missing_input_message("project_name"@))
    } else {
        first_error(
            string_input_error(inputs, "dirs.front"@),
            first_error(
                string_input_error(inputs, "dirs.admin"@),
                first_error(
                    string_input_error(inputs, "dirs.api"@),
                    first_error(list_input_error(inputs, "databases"@), port_input_error(inputs, "api_port"@)),
                ),
            ),
        )
    }
}

/// The first refusal of the three `routes.*` inputs.
pub open spec fn underlay_route_error(inputs: Seq<(String, BundleValue)>) -> Option<Seq<char>> {
    first_error(
        string_input_error(inputs, "routes.front"@),
        first_error(string_input_error(inputs, "routes.admin"@), string_input_error(inputs, "routes.api"@)),
    )
}

/// The first task command missing from the manifests: the `build` of
/// front, admin and API, then the API's `api`.
pub open spec fn underlay_task_error(
    front: Seq<TaskEntry>,
    admin: Seq<TaskEntry>,
    api: Seq<TaskEntry>,
    front_dir: Seq<char>,
    admin_dir: Seq<char>,
    api_dir: Seq<char>,
) -> Option<Seq<char>> {
    if task_command(front, "build"@) is None {
        Some(missing_task_message("required task `"@, "build"@, front_dir))
    } else if task_command(admin, "build"@) is None {
        Some(missing_task_message("required task `"@, "build"@, admin_dir))
    } else if task_command(api, "build"@) is None {
        Some(missing_task_message("required task `"@, "build"@, api_dir))
    } else if task_command(api, "api"@) is None {
        Some(missing_task_message("required task `"@, "api"@, api_dir))
    } else {
        None
    }
}

/// Whether `load` may have answered `out` for directory `dir`.
pub open spec fn load_gave<L: Fn(&str) -> Result<Vec<TaskEntry>, RunnerError>>(
    load: L,
    dir: Seq<char>,
    out: Result<Vec<TaskEntry>, RunnerError>,
) -> bool {
    exists|d: &str| d@ == dir && #[trigger] load.ensures((d,), out)
}

/// What deriving the `underlay` model answers once its first inputs are
/// accepted, for each answer of `load` for the front, admin and API
/// directories: a load's error; else a route refusal; else a missing task
/// command; else a model.
pub open spec fn underlay_loaded<L: Fn(&str) -> Result<Vec<TaskEntry>, RunnerError>>(
    inputs: Seq<(String, BundleValue)>,
    load: L,
    r: Result<DeployModel, RunnerError>,
) -> bool {
    let front = string_or(inputs, "dirs.front"@, "app-front"@);
    let admin = string_or(inputs, "dirs.admin"@, "app-admin"@);
    let api = string_or(inputs, "dirs.api"@, "app-api"@);
    exists|lf: Result<Vec<TaskEntry>, RunnerError>|
        #[trigger] load_gave(load, front, lf) && match lf {
            Err(e) => r == Err::<DeployModel, RunnerError>(e),
            Ok(ft) => exists|la: Result<Vec<TaskEntry>, RunnerError>|
                #[trigger] load_gave(load, admin, la) && match la {
                    Err(e) => r == Err::<DeployModel, RunnerError>(e),
                    Ok(at) => exists|lp: Result<Vec<TaskEntry>, RunnerError>|
                        #[trigger] load_gave(load, api, lp) && match lp {
                            Err(e) => r == Err::<DeployModel, RunnerError>(e),
                            Ok(pt) => match underlay_route_error(inputs) {
                                Some(m) => r matches Err(e) && is_invocation(e, m),
                                None => match underlay_task_error(ft@, at@, pt@, front, admin, api) {
                                    Some(m) => r matches Err(e) && is_invocation(e, m),
                                    None => r is Ok,
                                },
                            },
                        },
                },
        }
}

/// Derives the `underlay` model from the bundle inputs, loading each
/// service manifest through `load_tasks` and detecting static fallbacks
/// through `detect_fallback`. Inputs are checked first, then the three
/// manifests are loaded, then the routes and task commands are read.
pub fn derive_underlay_model<L, D>(
    repo_name: String,
    inputs: &Vec<(String, BundleValue)>,
    load_tasks: L,
    detect_fallback: D,
) -> (r: Result<DeployModel, RunnerError>) where
    L: Fn(&str) -> Result<Vec<TaskEntry>, RunnerError>,
    D: Fn(&str) -> Option<String>,

    requires
        forall|d: &str| load_tasks.requires((d,)),
        forall|d: &str| detect_fallback.requires((d,)),
    ensures
        underlay_input_error(inputs@) matches Some(m) ==> (r matches Err(e) && is_invocation(e, m)),
        underlay_input_error(inputs@) is None ==> underlay_loaded(inputs@, load_tasks, r),
        r matches Ok(m) ==> exists|p: UnderlayParts|
            #![trigger is_underlay_model(m, p)]
            is_underlay_model(m, p) && p.repo_name == repo_name && parts_from_inputs(p, inputs@)
                && parts_from_manifests(p, load_tasks, detect_fallback),
{
    let host = match required_bundle_string(inputs, "host") {
        Ok(h) => h,
        Err(e) => return Err(e),
    };
    let project_name = match required_bundle_string(inputs, "project_name") {
        Ok(h) => h,
        Err(e) => return Err(e),
    };
    let front_dir = match bundle_string_or_default(inputs, "dirs.front", "app-front") {
        Ok(h) => h,
        Err(e) => return Err(e),
    };
    let admin_dir = match bundle_string_or_default(inputs, "dirs.admin", "app-admin") {
        Ok(h) => h,
        Err(e) => return Err(e),
    };
    let api_dir = match bundle_string_or_default(inputs, "dirs.api", "app-api") {
        Ok(h) => h,
        Err(e) => return Err(e),
    };
    let databases = match required_bundle_string_list(inputs, "databases") {
        Ok(h) => h,
        Err(e) => return Err(e),
    };
    let api_port = match bundle_integer_or_default(inputs, "api_port", 41001) {
        Ok(h) => h,
        Err(e) => return Err(e),
    };
    let front_loaded = load_tasks(front_dir.as_str());
    assert(load_gave(load_tasks, front_dir@, front_loaded));
    let front_tasks = match front_loaded {
        Ok(t) => t,
        Err(e) => return Err(e),
    };
    let admin_loaded = load_tasks(admin_dir.as_str());
    assert(load_gave(load_tasks, admin_dir@, admin_loaded));
    let admin_tasks = match admin_loaded {
        Ok(t) => t,
        Err(e) => return Err(e),
    };
    let api_loaded = load_tasks(api_dir.as_str());
    assert(load_gave(load_tasks, api_dir@, api_loaded));
    let api_tasks = match api_loaded {
        Ok(t) => t,
        Err(e) => return Err(e),
    };
    let front_label = match bundle_string_or_default(inputs, "routes.front", "") {
        Ok(h) => h,
        Err(e) => return Err(e),
    };
    let front_domain = route_domain(host.as_str(), front_label.as_str());
    let admin_label = match bundle_string_or_default(inputs, "routes.admin", "admin") {
        Ok(h) => h,
        Err(e) => return Err(e),
    };
    let admin_domain = route_domain(host.as_str(), admin_label.as_str());
    let api_label = match bundle_string_or_default(inputs, "routes.api", "api") {
        Ok(h) => h,
        Err(e) => return Err(e),
    };
    let api_domain = route_domain(host.as_str(), api_label.as_str());
    let front_build = match required_task_command(&front_tasks, "build", front_dir.as_str()) {
        Ok(c) => c,
        Err(e) => return Err(e),
    };
    let admin_build = match required_task_command(&admin_tasks, "build", admin_dir.as_str()) {
        Ok(c) => c,
        Err(e) => return Err(e),
    };
    let api_build = match required_task_command(&api_tasks, "build", api_dir.as_str()) {
        Ok(c) => c,
        Err(e) => return Err(e),
    };
    let api_start = match required_task_command(&api_tasks, "api", api_dir.as_str()) {
        Ok(c) => c,
        Err(e) => return Err(e),
    };
    let api_release = optional_task_command(&api_tasks, "db:migrate");
    let jobs_start = optional_task_command(&api_tasks, "jobs");
    let front_fallback = detect_fallback(front_dir.as_str());
    let admin_fallback = detect_fallback(admin_dir.as_str());
    let parts = UnderlayParts {
        repo_name,
        project_name,
        front_dir,
        admin_dir,
        api_dir,
        databases,
        api_port,
        front_domain,
        admin_domain,
        api_domain,
        front_build,
        admin_build,
        api_build,
        api_start,
        api_release,
        jobs_start,
        front_fallback,
        admin_fallback,
    };
    let m = underlay_model(&parts);
    Ok(m)
}

} // verus!
