//! The Render blueprint (`render.yaml`) of a deployment model.
use vstd::prelude::*;
use crate::deploy::model::{
    collect_model_warnings, copy_strings, model_warnings, DeployModel, DeployService, DeployWarning,
};
use crate::error::{is_invocation, RunnerError};
use crate::text::{cat, cat3, owned, str_eq};

verus! {

/// Where a Render variable takes its value from a database.
#[derive(Debug)]
pub struct RenderFromDatabase {
    pub name: String,
    pub property: String,
}

/// A Render environment variable.
#[derive(Debug)]
pub struct RenderEnvVar {
    pub key: String,
    pub value: Option<String>,
    pub sync: Option<bool>,
    pub from_database: Option<RenderFromDatabase>,
}

/// A Render route.
#[derive(Debug)]
pub struct RenderRoute {
    pub route_type: String,
    pub source: String,
    pub destination: String,
}

/// A Render service.
#[derive(Debug)]
pub struct RenderService {
    pub name: String,
    pub service_type: String,
    pub runtime: Option<String>,
    pub root_dir: Option<String>,
    pub build_command: Option<String>,
    pub start_command: Option<String>,
    pub pre_deploy_command: Option<String>,
    pub static_publish_path: Option<String>,
    pub health_check_path: Option<String>,
    pub domains: Vec<String>,
    pub routes: Vec<RenderRoute>,
    pub env_vars: Vec<RenderEnvVar>,
}

/// A Render managed database.
#[derive(Debug)]
pub struct RenderDatabase {
    pub name: String,
    pub plan: String,
    pub database_name: Option<String>,
}

/// The content of `render.yaml`.
#[derive(Debug)]
pub struct RenderBlueprint {
    pub services: Vec<RenderService>,
    pub databases: Vec<RenderDatabase>,
}

/// A Render blueprint with the model's warnings.
#[derive(Debug)]
pub struct RenderExportPlan {
    pub blueprint: RenderBlueprint,
    pub warnings: Vec<DeployWarning>,
}

pub open spec fn quoted(prefix: Seq<char>, name: Seq<char>, suffix: Seq<char>) -> Seq<char> {
    prefix + name + suffix
}

/// A plain variable from the service's environment.
pub open spec fn is_plain_var(v: RenderEnvVar, key: String, value: String) -> bool {
    v.key == key && v.value == Some(value) && v.sync is None && v.from_database is None
}

/// A variable for a referenced secret: `DATABASE_URL` comes from the
/// managed database's connection string; any other secret is left for the
/// operator to set (`sync: false`).
pub open spec fn is_secret_var(v: RenderEnvVar, key: String, database: Option<Seq<char>>) -> bool {
    &&& v.key == key && v.value is None
    &&& if key@ == "DATABASE_URL"@ {
        v.sync is None && (v.from_database matches Some(f) && database == Some(f.name@)
            && f.property@ == "connectionString"@)
    } else {
        v.sync == Some(false) && v.from_database is None
    }
}

pub open spec fn opt_str(o: Option<&str>) -> Option<Seq<char>> {
    match o {
        Some(s) => Some(s@),
        None => None,
    }
}

pub open spec fn has_database_url(refs: Seq<String>) -> bool {
    exists|i: int| 0 <= i < refs.len() && (#[trigger] refs[i])@ == "DATABASE_URL"@
}

/// Render variables follow the service's environment in key order: when a
/// service's variables are its environment pairs (as `render_env_vars` and
/// `render_service_from_model` give them) and the environment's keys
/// ascend (as `derive_service` leaves them), the variables' keys ascend.
pub proof fn lemma_env_vars_in_key_order(env: Seq<(String, String)>, vars: Seq<RenderEnvVar>)
    requires
        crate::deploy::derive::keys_sorted(crate::deploy::derive::kv_view(env)),
        vars.len() >= env.len(),
        forall|i: int| 0 <= i < env.len() ==> #[trigger] is_plain_var(vars[i], env[i].0, env[i].1),
    ensures
        forall|i: int, j: int| 0 <= i < j < env.len() ==> crate::text::seq_lt(#[trigger] vars[i].key@, #[trigger] vars[j].key@),
{
    let kv = crate::deploy::derive::kv_view(env);
    assert forall|i: int, j: int| 0 <= i < j < env.len() implies crate::text::seq_lt(#[trigger] vars[i].key@, #[trigger] vars[j].key@) by {
        assert(is_plain_var(vars[i], env[i].0, env[i].1));
        assert(is_plain_var(vars[j], env[j].0, env[j].1));
        assert(kv[i].0 == env[i].0@ && kv[j].0 == env[j].0@);
    }
}

/// The Render variables of a service: its environment, then one per secret
/// reference.
pub fn render_env_vars(service: &DeployService, database_name: Option<&str>) -> (r: Result<
    Vec<RenderEnvVar>,
    RunnerError,
>)
    ensures
        match r {
            Ok(vars) => {
                &&& !(has_database_url(service.secret_refs@) && database_name is None)
                &&& vars@.len() == service.env@.len() + service.secret_refs@.len()
                &&& forall|i: int|
                    0 <= i < service.env@.len() ==> #[trigger] is_plain_var(
                        vars@[i],
                        service.env@[i].0,
                        service.env@[i].1,
                    )
                &&& forall|j: int|
                    0 <= j < service.secret_refs@.len() ==> #[trigger] is_secret_var(
                        vars@[service.env@.len() + j],
                        service.secret_refs@[j],
                        opt_str(database_name),
                    )
            },
            Err(e) => has_database_url(service.secret_refs@) && database_name is None
                && is_invocation(
                e,
                quoted(
                    "render export cannot satisfy `DATABASE_URL` for `"@,
                    service.name@,
                    "` without managed postgres"@,
                ),
            ),
        },
{
    let mut vars: Vec<RenderEnvVar> = Vec::new();
    let mut i: usize = 0;
    while i < service.env.len()
        invariant
            i <= service.env.len(),
            vars@.len() == i,
            forall|k: int|
                0 <= k < i ==> #[trigger] is_plain_var(
                    vars@[k],
                    service.env@[k].0,
                    service.env@[k].1,
                ),
        decreases service.env.len() - i,
    {
        vars.push(
            RenderEnvVar {
                key: service.env[i].0.clone(),
                value: Some(service.env[i].1.clone()),
                sync: None,
                from_database: None,
            },
        );
        i = i + 1;
    }
    let n = service.env.len();
    let mut j: usize = 0;
    while j < service.secret_refs.len()
        invariant
            n == service.env@.len(),
            j <= service.secret_refs.len(),
            vars@.len() == n + j,
            forall|k: int|
                0 <= k < n ==> #[trigger] is_plain_var(
                    vars@[k],
                    service.env@[k].0,
                    service.env@[k].1,
                ),
            forall|k: int|
                0 <= k < j ==> #[trigger] is_secret_var(
                    vars@[n + k],
                    service.secret_refs@[k],
                    opt_str(database_name),
                ),
            database_name is None ==> forall|k: int|
                0 <= k < j ==> (#[trigger] service.secret_refs@[k])@ != "DATABASE_URL"@,
        decreases service.secret_refs.len() - j,
    {
        let key = &service.secret_refs[j];
        if str_eq(key.as_str(), "DATABASE_URL") {
            match database_name {
                None => {
                    let m = cat3(
                        "render export cannot satisfy `DATABASE_URL` for `",
                        service.name.as_str(),
                        "` without managed postgres",
                    );
                    return Err(RunnerError::task_invocation(m.as_str()));
                },
                Some(db) => {
                    vars.push(
                        RenderEnvVar {
                            key: key.clone(),
                            value: None,
                            sync: None,
                            from_database: Some(
                                RenderFromDatabase {
                                    name: owned(db),
                                    property: "connectionString".to_owned(),
                                },
                            ),
                        },
                    );
                },
            }
        } else {
            vars.push(
                RenderEnvVar { key: key.clone(), value: None, sync: Some(false), from_database: None },
            );
        }
        j = j + 1;
    }
    Ok(vars)
}

/// The message for a missing piece of service metadata.
pub open spec fn requires_message(what: Seq<char>, name: Seq<char>) -> Seq<char> {
    "render export requires "@ + what + " metadata for `"@ + name + "`"@
}

fn requires_error(what: &str, name: &str) -> (r: RunnerError)
    ensures
        is_invocation(r, requires_message(what@, name@)),
{
    let mut m = cat3("render export requires ", what, " metadata for `");
    m.append(name);
    m.append("`");
    RunnerError::task_invocation(m.as_str())
}

pub open spec fn opt_cmd(s: Option<crate::deploy::model::DeployCommandStep>) -> Option<Seq<char>> {
    match s {
        Some(c) => Some(c.command@),
        None => None,
    }
}

pub open spec fn opt_view(o: Option<String>) -> Option<Seq<char>> {
    match o {
        Some(s) => Some(s@),
        None => None,
    }
}

/// The Render service for a model service, by role.
pub open spec fn render_service_ok(s: DeployService, r: RenderService) -> bool {
    &&& r.name == s.name
    &&& r.root_dir == Some(s.source_root)
    &&& opt_view(r.build_command) == opt_cmd(s.build) && s.build is Some
    &&& if s.role@ == "static"@ {
        &&& r.service_type@ == "web"@ && opt_view(r.runtime) == Some("static"@)
        &&& r.start_command is None && r.pre_deploy_command is None
        &&& (s.output matches Some(o) && (o.fallback matches Some(fb) && {
            &&& opt_view(r.static_publish_path) == Some(s.source_root@ + "/"@ + o.path@)
            &&& r.routes@.len() == 1 && r.routes@[0].route_type@ == "rewrite"@
            &&& r.routes@[0].source@ == "/*"@ && r.routes@[0].destination@ == "/"@ + fb@
        }))
        &&& r.health_check_path is None && r.domains@ == s.domains@
    } else if s.role@ == "web"@ {
        &&& r.service_type@ == "web"@ && r.runtime == Some(s.runtime)
        &&& opt_view(r.start_command) == opt_cmd(s.start) && s.start is Some
        &&& opt_view(r.pre_deploy_command) == opt_cmd(s.release)
        &&& r.static_publish_path is None
        &&& r.health_check_path == match s.health {
            Some(h) => Some(h.path),
            None => None,
        }
        &&& r.domains@ == s.domains@ && r.routes@.len() == 0
    } else {
        &&& s.role@ == "worker"@
        &&& r.service_type@ == "worker"@ && r.runtime == Some(s.runtime)
        &&& opt_view(r.start_command) == opt_cmd(s.start) && s.start is Some
        &&& r.pre_deploy_command is None && r.static_publish_path is None
        &&& r.health_check_path is None && r.domains@.len() == 0 && r.routes@.len() == 0
    }
}

/// The error for a model service that Render cannot take: persistent
/// volumes, a variable it cannot satisfy, missing metadata for its role, or
/// an unsupported role.
pub open spec fn render_service_err(s: DeployService, db: Option<Seq<char>>, e: RunnerError) -> bool {
    if s.volumes@.len() != 0 {
        is_invocation(
            e,
            quoted("render export does not support persistent app volumes yet (`"@, s.name@, "`)"@),
        )
    } else if has_database_url(s.secret_refs@) && db is None {
        is_invocation(
            e,
            quoted(
                "render export cannot satisfy `DATABASE_URL` for `"@,
                s.name@,
                "` without managed postgres"@,
            ),
        )
    } else if s.role@ == "static"@ {
        if s.output is None {
            is_invocation(e, requires_message("static output"@, s.name@))
        } else if s.output->0.fallback is None {
            is_invocation(e, requires_message("static fallback"@, s.name@))
        } else {
            s.build is None && is_invocation(e, requires_message("build"@, s.name@))
        }
    } else if s.role@ == "web"@ || s.role@ == "worker"@ {
        if s.build is None {
            is_invocation(e, requires_message("build"@, s.name@))
        } else {
            s.start is None && is_invocation(e, requires_message("start"@, s.name@))
        }
    } else if s.role@ == "cron"@ {
        is_invocation(e, "render export does not support `cron` services yet"@)
    } else {
        is_invocation(e, quoted("render export does not support service role `"@, s.role@, "` yet"@))
    }
}

/// The Render service for one model service.
pub fn render_service_from_model(service: &DeployService, database_name: Option<&str>) -> (r: Result<
    RenderService,
    RunnerError,
>)
    ensures
        match r {
            Ok(rs) => {
                &&& service.volumes@.len() == 0 && render_service_ok(*service, rs)
                &&& !(has_database_url(service.secret_refs@) && database_name is None)
                &&& rs.env_vars@.len() == service.env@.len() + service.secret_refs@.len()
                &&& forall|i: int|
                    0 <= i < service.env@.len() ==> #[trigger] is_plain_var(
                        rs.env_vars@[i],
                        service.env@[i].0,
                        service.env@[i].1,
                    )
                &&& forall|j: int|
                    0 <= j < service.secret_refs@.len() ==> #[trigger] is_secret_var(
                        rs.env_vars@[service.env@.len() + j],
                        service.secret_refs@[j],
                        opt_str(database_name),
                    )
            },
            Err(e) => render_service_err(*service, opt_str(database_name), e),
        },
{
    if service.volumes.len() != 0 {
        let m = cat3(
            "render export does not support persistent app volumes yet (`",
            service.name.as_str(),
            "`)",
        );
        return Err(RunnerError::task_invocation(m.as_str()));
    }
    let env_vars = match render_env_vars(service, database_name) {
        Ok(v) => v,
        Err(e) => return Err(e),
    };
    let name = service.name.as_str();
    if str_eq(service.role.as_str(), "static") {
        let output = match &service.output {
            Some(o) => o,
            None => return Err(requires_error("static output", name)),
        };
        let fallback = match &output.fallback {
            Some(f) => f,
            None => return Err(requires_error("static fallback", name)),
        };
        let build = match &service.build {
            Some(b) => b,
            None => return Err(requires_error("build", name)),
        };
        let mut routes: Vec<RenderRoute> = Vec::new();
        routes.push(
            RenderRoute {
                route_type: "rewrite".to_owned(),
                source: "/*".to_owned(),
                destination: cat("/", fallback.as_str()),
            },
        );
        Ok(
            RenderService {
                name: service.name.clone(),
                service_type: "web".to_owned(),
                runtime: Some("static".to_owned()),
                root_dir: Some(service.source_root.clone()),
                build_command: Some(build.command.clone()),
                start_command: None,
                pre_deploy_command: None,
                static_publish_path: Some(
                    cat3(service.source_root.as_str(), "/", output.path.as_str()),
                ),
                health_check_path: None,
                domains: copy_strings(&service.domains),
                routes,
                env_vars,
            },
        )
    } else if str_eq(service.role.as_str(), "web") {
        let build = match &service.build {
            Some(b) => b,
            None => return Err(requires_error("build", name)),
        };
        let start = match &service.start {
            Some(b) => b,
            None => return Err(requires_error("start", name)),
        };
        Ok(
            RenderService {
                name: service.name.clone(),
                service_type: "web".to_owned(),
                runtime: Some(service.runtime.clone()),
                root_dir: Some(service.source_root.clone()),
                build_command: Some(build.command.clone()),
                start_command: Some(start.command.clone()),
                pre_deploy_command: match &service.release {
                    Some(s) => Some(s.command.clone()),
                    None => None,
                },
                static_publish_path: None,
                health_check_path: match &service.health {
                    Some(h) => Some(h.path.clone()),
                    None => None,
                },
                domains: copy_strings(&service.domains),
                routes: Vec::new(),
                env_vars,
            },
        )
    } else if str_eq(service.role.as_str(), "worker") {
        let build = match &service.build {
            Some(b) => b,
            None => return Err(requires_error("build", name)),
        };
        let start = match &service.start {
            Some(b) => b,
            None => return Err(requires_error("start", name)),
        };
        Ok(
            RenderService {
                name: service.name.clone(),
                service_type: "worker".to_owned(),
                runtime: Some(service.runtime.clone()),
                root_dir: Some(service.source_root.clone()),
                build_command: Some(build.command.clone()),
                start_command: Some(start.command.clone()),
                pre_deploy_command: None,
                static_publish_path: None,
                health_check_path: None,
                domains: Vec::new(),
                routes: Vec::new(),
                env_vars,
            },
        )
    } else if str_eq(service.role.as_str(), "cron") {
        Err(RunnerError::task_invocation("render export does not support `cron` services yet"))
    } else {
        let m = cat3(
            "render export does not support service role `",
            service.role.as_str(),
            "` yet",
        );
        Err(RunnerError::task_invocation(m.as_str()))
    }
}


pub open spec fn has_required_postgres(m: DeployModel) -> bool {
    exists|i: int|
        0 <= i < m.backing_services@.len() && (#[trigger] m.backing_services@[i]).kind@
            == "postgres"@ && m.backing_services@[i].required
}

/// The database a model's blueprint provides: `<app>-postgres` when the
/// model requires Postgres.
pub open spec fn render_database(m: DeployModel) -> Option<Seq<char>> {
    if has_required_postgres(m) {
        Some(m.app.name@ + "-postgres"@)
    } else {
        None
    }
}

/// The blueprint of a model: a Render service for each model service, the
/// database when one is required, and the model's warnings.
pub open spec fn render_export_ok(m: DeployModel, p: RenderExportPlan) -> bool {
    &&& p.blueprint.services@.len() == m.services@.len()
    &&& forall|i: int|
        0 <= i < m.services@.len() ==> render_service_ok(
            m.services@[i],
            #[trigger] p.blueprint.services@[i],
        )
    &&& if has_required_postgres(m) {
        &&& p.blueprint.databases@.len() == 1
        &&& Some(p.blueprint.databases@[0].name@) == render_database(m)
        &&& p.blueprint.databases@[0].plan@ == "basic-256mb"@
        &&& opt_view(p.blueprint.databases@[0].database_name) == Some("app"@)
    } else {
        p.blueprint.databases@.len() == 0
    }
    &&& p.warnings@ == model_warnings(m)
}

/// Why Render cannot take a model: one of its services cannot be rendered.
pub open spec fn render_export_err(m: DeployModel, e: RunnerError) -> bool {
    exists|i: int|
        0 <= i < m.services@.len() && render_service_err(
            #[trigger] m.services@[i],
            render_database(m),
            e,
        )
}

/// The Render blueprint of a model: one Render service per model service,
/// plus a managed database named `<app>-postgres` when the model requires
/// Postgres; the first service that Render cannot take fails the export.
pub fn build_render_export(model: &DeployModel) -> (r: Result<RenderExportPlan, RunnerError>)
    ensures
        match r {
            Ok(p) => render_export_ok(*model, p),
            Err(e) => render_export_err(*model, e),
        },
{
    let mut has_pg = false;
    let mut b: usize = 0;
    while b < model.backing_services.len()
        invariant
            b <= model.backing_services.len(),
            has_pg == exists|i: int|
                0 <= i < b && (#[trigger] model.backing_services@[i]).kind@ == "postgres"@
                    && model.backing_services@[i].required,
        decreases model.backing_services.len() - b,
    {
        let s = &model.backing_services[b];
        if str_eq(s.kind.as_str(), "postgres") && s.required {
            has_pg = true;
        }
        b = b + 1;
    }
    assert(has_pg == has_required_postgres(*model));
    let database_name: Option<String> = if has_pg {
        Some(cat(model.app.name.as_str(), "-postgres"))
    } else {
        None
    };
    let db_ref: Option<&str> = match &database_name {
        Some(d) => Some(d.as_str()),
        None => None,
    };
    let mut services: Vec<RenderService> = Vec::new();
    let mut i: usize = 0;
    while i < model.services.len()
        invariant
            i <= model.services.len(),
            services@.len() == i,
            opt_str(db_ref) == if has_required_postgres(*model) {
                Some(model.app.name@ + "-postgres"@)
            } else {
                None
            },
            forall|k: int|
                0 <= k < i ==> render_service_ok(model.services@[k], #[trigger] services@[k]),
        decreases model.services.len() - i,
    {
        match render_service_from_model(&model.services[i], db_ref) {
            Ok(s) => services.push(s),
            Err(e) => return Err(e),
        }
        i = i + 1;
    }
    let mut databases: Vec<RenderDatabase> = Vec::new();
    if let Some(name) = database_name {
        databases.push(
            RenderDatabase {
                name,
                plan: "basic-256mb".to_owned(),
                database_name: Some("app".to_owned()),
            },
        );
    }
    let warnings = collect_model_warnings(model);
    Ok(RenderExportPlan { blueprint: RenderBlueprint { services, databases }, warnings })
}

} // verus!
