//! The Railway export of a deployment model: one `railway.toml` per
//! service and an operator report.
use vstd::prelude::*;
use crate::deploy::model::{
    collect_model_warnings, copy_strings, model_warnings, DeployModel, DeployService, DeployWarning,
};
use crate::deploy::render::{opt_cmd, opt_view, quoted};
use crate::error::{is_invocation, RunnerError};
use crate::text::{cat3, owned, str_eq};

verus! {

/// `[build]` of `railway.toml`.
#[derive(Debug)]
pub struct RailwayBuildConfig {
    pub builder: String,
    pub build_command: Option<String>,
}

/// `[deploy]` of `railway.toml`.
#[derive(Debug)]
pub struct RailwayDeployConfig {
    pub start_command: Option<String>,
    pub pre_deploy_command: Option<String>,
    pub healthcheck_path: Option<String>,
    pub healthcheck_timeout: Option<u64>,
    pub restart_policy_type: Option<String>,
    pub restart_policy_max_retries: Option<u64>,
}

/// One service's `railway.toml`.
#[derive(Debug)]
pub struct RailwayConfigFile {
    pub build: RailwayBuildConfig,
    pub deploy: RailwayDeployConfig,
}

/// A service in the Railway report.
#[derive(Debug)]
pub struct RailwayReportService {
    pub name: String,
    pub role: String,
    pub source_root: String,
    pub config_path: String,
    pub start_command: Option<String>,
    pub domains: Vec<String>,
    pub operator_steps: Vec<String>,
}

/// A provider resource the operator must create or attach.
#[derive(Debug)]
pub struct RailwayReportResource {
    pub kind: String,
    pub name: String,
    pub required: bool,
    pub consumers: Vec<String>,
    pub action: String,
    pub notes: Option<String>,
}

/// A variable the operator must set.
#[derive(Debug)]
pub struct RailwayReportVariable {
    pub service: String,
    pub name: String,
    pub source: String,
    pub required: bool,
    pub notes: Option<String>,
}

/// Domains the operator must attach.
#[derive(Debug)]
pub struct RailwayReportDomain {
    pub service: String,
    pub hosts: Vec<String>,
    pub action: String,
}

/// `report.json` of a Railway export.
#[derive(Debug)]
pub struct RailwayExportReport {
    pub schema: String,
    pub schema_version: u64,
    pub app_name: String,
    pub path: String,
    pub services: Vec<RailwayReportService>,
    pub required_resources: Vec<RailwayReportResource>,
    pub required_variables: Vec<RailwayReportVariable>,
    pub required_domains: Vec<RailwayReportDomain>,
    pub warnings: Vec<DeployWarning>,
}

/// The files and report of a Railway export, before encoding.
#[derive(Debug)]
pub struct RailwayExportPlan {
    /// Each service's config, with its path relative to the export root.
    pub configs: Vec<(String, RailwayConfigFile)>,
    pub report: RailwayExportReport,
    pub warnings: Vec<DeployWarning>,
}

pub open spec fn railway_requires_message(what: Seq<char>, name: Seq<char>) -> Seq<char> {
    "railway export requires "@ + what + " metadata for `"@ + name + "`"@
}

fn railway_requires(what: &str, name: &str) -> (r: RunnerError)
    ensures
        is_invocation(r, railway_requires_message(what@, name@)),
{
    let mut m = cat3("railway export requires ", what, " metadata for `");
    m.append(name);
    m.append("`");
    RunnerError::task_invocation(m.as_str())
}

/// The `railway.toml` of a service, by role.
pub open spec fn railway_file_ok(s: DeployService, f: RailwayConfigFile) -> bool {
    &&& f.build.builder@ == "RAILPACK"@ && opt_view(f.build.build_command) == opt_cmd(s.build)
    &&& s.build is Some
    &&& if s.role@ == "static"@ {
        &&& s.output matches Some(o) && o.fallback is Some
        &&& f.deploy.start_command is None && f.deploy.pre_deploy_command is None
        &&& f.deploy.healthcheck_path is None && f.deploy.healthcheck_timeout is None
        &&& f.deploy.restart_policy_type is None && f.deploy.restart_policy_max_retries is None
    } else if s.role@ == "web"@ {
        &&& s.start is Some && opt_view(f.deploy.start_command) == opt_cmd(s.start)
        &&& opt_view(f.deploy.pre_deploy_command) == opt_cmd(s.release)
        &&& f.deploy.healthcheck_path == match s.health {
            Some(h) => Some(h.path),
            None => None,
        }
        &&& f.deploy.healthcheck_timeout == Some(100u64)
        &&& opt_view(f.deploy.restart_policy_type) == Some("ON_FAILURE"@)
        &&& f.deploy.restart_policy_max_retries == Some(10u64)
    } else {
        &&& s.role@ == "worker"@
        &&& s.start is Some && opt_view(f.deploy.start_command) == opt_cmd(s.start)
        &&& f.deploy.pre_deploy_command is None && f.deploy.healthcheck_path is None
        &&& f.deploy.healthcheck_timeout is None
        &&& opt_view(f.deploy.restart_policy_type) == Some("ON_FAILURE"@)
        &&& f.deploy.restart_policy_max_retries == Some(10u64)
    }
}

/// Why Railway cannot take a service.
pub open spec fn railway_file_err(s: DeployService, e: RunnerError) -> bool {
    if s.build is None {
        is_invocation(e, railway_requires_message("build"@, s.name@))
    } else if s.role@ == "static"@ {
        if s.output is None {
            is_invocation(e, railway_requires_message("static output"@, s.name@))
        } else {
            s.output->0.fallback is None && is_invocation(
                e,
                railway_requires_message("static fallback"@, s.name@),
            )
        }
    } else if s.role@ == "web"@ || s.role@ == "worker"@ {
        s.start is None && is_invocation(e, railway_requires_message("start"@, s.name@))
    } else if s.role@ == "cron"@ {
        is_invocation(e, "railway export does not support `cron` services yet"@)
    } else {
        is_invocation(e, quoted("railway export does not support service role `"@, s.role@, "` yet"@))
    }
}

/// The `railway.toml` of one model service.
pub fn railway_file_from_model(service: &DeployService) -> (r: Result<RailwayConfigFile, RunnerError>)
    ensures
        match r {
            Ok(f) => railway_file_ok(*service, f),
            Err(e) => railway_file_err(*service, e),
        },
{
    let name = service.name.as_str();
    let build = match &service.build {
        Some(b) => b,
        None => return Err(railway_requires("build", name)),
    };
    let build_config = RailwayBuildConfig {
        builder: "RAILPACK".to_owned(),
        build_command: Some(build.command.clone()),
    };
    if str_eq(service.role.as_str(), "static") {
        let output = match &service.output {
            Some(o) => o,
            None => return Err(railway_requires("static output", name)),
        };
        if output.fallback.is_none() {
            return Err(railway_requires("static fallback", name));
        }
        Ok(
            RailwayConfigFile {
                build: build_config,
                deploy: RailwayDeployConfig {
                    start_command: None,
                    pre_deploy_command: None,
                    healthcheck_path: None,
                    healthcheck_timeout: None,
                    restart_policy_type: None,
                    restart_policy_max_retries: None,
                },
            },
        )
    } else if str_eq(service.role.as_str(), "web") {
        let start = match &service.start {
            Some(s) => s,
            None => return Err(railway_requires("start", name)),
        };
        Ok(
            RailwayConfigFile {
                build: build_config,
                deploy: RailwayDeployConfig {
                    start_command: Some(start.command.clone()),
                    pre_deploy_command: match &service.release {
                        Some(s) => Some(s.command.clone()),
                        None => None,
                    },
                    healthcheck_path: match &service.health {
                        Some(h) => Some(h.path.clone()),
                        None => None,
                    },
                    healthcheck_timeout: Some(100),
                    restart_policy_type: Some("ON_FAILURE".to_owned()),
                    restart_policy_max_retries: Some(10),
                },
            },
        )
    } else if str_eq(service.role.as_str(), "worker") {
        let start = match &service.start {
            Some(s) => s,
            None => return Err(railway_requires("start", name)),
        };
        Ok(
            RailwayConfigFile {
                build: build_config,
                deploy: RailwayDeployConfig {
                    start_command: Some(start.command.clone()),
                    pre_deploy_command: None,
                    healthcheck_path: None,
                    healthcheck_timeout: None,
                    restart_policy_type: Some("ON_FAILURE".to_owned()),
                    restart_policy_max_retries: Some(10),
                },
            },
        )
    } else if str_eq(service.role.as_str(), "cron") {
        Err(RunnerError::task_invocation("railway export does not support `cron` services yet"))
    } else {
        let m = cat3(
            "railway export does not support service role `",
            service.role.as_str(),
            "` yet",
        );
        Err(RunnerError::task_invocation(m.as_str()))
    }
}

pub open spec fn has_secret(refs: Seq<String>, pred: spec_fn(Seq<char>) -> bool) -> bool {
    exists|i: int| 0 <= i < refs.len() && pred(#[trigger] refs[i]@)
}

/// The operator steps for a service: attach its domains, wire
/// `DATABASE_URL`, set its other secrets; each only when it applies.
pub open spec fn operator_steps(s: DeployService) -> Seq<Seq<char>> {
    let a: Seq<Seq<char>> = if s.domains@.len() > 0 {
        seq!["attach public domains in Railway"@]
    } else {
        Seq::empty()
    };
    let b: Seq<Seq<char>> = if has_secret(s.secret_refs@, |x: Seq<char>| x == "DATABASE_URL"@) {
        seq!["wire DATABASE_URL from the Railway Postgres service"@]
    } else {
        Seq::empty()
    };
    let c: Seq<Seq<char>> = if has_secret(s.secret_refs@, |x: Seq<char>| x != "DATABASE_URL"@) {
        seq!["set remaining secret values in Railway variables"@]
    } else {
        Seq::empty()
    };
    a + b + c
}

/// The steps an operator takes in Railway for one service.
pub fn railway_operator_steps(service: &DeployService) -> (r: Vec<String>)
    ensures
        crate::text::views(r@) == operator_steps(*service),
{
    let mut steps: Vec<String> = Vec::new();
    let ghost a: Seq<Seq<char>> = if service.domains@.len() > 0 {
        seq!["attach public domains in Railway"@]
    } else {
        Seq::empty()
    };
    if service.domains.len() > 0 {
        steps.push("attach public domains in Railway".to_owned());
    }
    assert(crate::text::views(steps@) == a);
    let mut has_db = false;
    let mut has_other = false;
    let mut i: usize = 0;
    while i < service.secret_refs.len()
        invariant
            i <= service.secret_refs.len(),
            has_db == exists|k: int|
                0 <= k < i && (#[trigger] service.secret_refs@[k])@ == "DATABASE_URL"@,
            has_other == exists|k: int|
                0 <= k < i && (#[trigger] service.secret_refs@[k])@ != "DATABASE_URL"@,
        decreases service.secret_refs.len() - i,
    {
        if str_eq(service.secret_refs[i].as_str(), "DATABASE_URL") {
            has_db = true;
        } else {
            has_other = true;
        }
        i = i + 1;
    }
    assert(has_db == has_secret(service.secret_refs@, |x: Seq<char>| x == "DATABASE_URL"@));
    assert(has_other == has_secret(service.secret_refs@, |x: Seq<char>| x != "DATABASE_URL"@));
    let ghost before_b = crate::text::views(steps@);
    if has_db {
        steps.push("wire DATABASE_URL from the Railway Postgres service".to_owned());
    }
    let ghost before_c = crate::text::views(steps@);
    if has_other {
        steps.push("set remaining secret values in Railway variables".to_owned());
    }
    assert(crate::text::views(steps@) == operator_steps(*service));
    steps
}


/// The variable entry for secret `name` of service `svc`.
pub open spec fn is_report_variable(v: RailwayReportVariable, svc: Seq<char>, name: Seq<char>) -> bool {
    &&& v.service@ == svc && v.name@ == name && v.required
    &&& if name == "DATABASE_URL"@ {
        v.source@ == "provider_reference"@ && opt_view(v.notes) == Some(
            "Wire this from the attached Railway Postgres service using a service variable or reference variable"@,
        )
    } else {
        v.source@ == "operator_secret"@ && opt_view(v.notes) == Some(
            "Set this in Railway service variables; Effigy does not emit secret values"@,
        )
    }
}

/// The (service, secret) pairs of `svcs`, service by service.
pub open spec fn secret_pairs(svcs: Seq<DeployService>) -> Seq<(Seq<char>, Seq<char>)>
    decreases svcs.len(),
{
    if svcs.len() == 0 {
        Seq::empty()
    } else {
        secret_pairs(svcs.drop_last()) + svcs.last().secret_refs@.map_values(
            |x: String| (svcs.last().name@, x@),
        )
    }
}

/// The services of `svcs` that have public domains.
pub open spec fn domain_services(svcs: Seq<DeployService>) -> Seq<DeployService>
    decreases svcs.len(),
{
    if svcs.len() == 0 {
        Seq::empty()
    } else if svcs.last().domains@.len() > 0 {
        domain_services(svcs.drop_last()).push(svcs.last())
    } else {
        domain_services(svcs.drop_last())
    }
}

/// The relative path of a service's Railway config.
pub open spec fn config_path(name: Seq<char>) -> Seq<char> {
    "services/"@ + name + "/railway.toml"@
}

pub open spec fn is_report_service(r: RailwayReportService, s: DeployService) -> bool {
    &&& r.name == s.name && r.role == s.role && r.source_root == s.source_root
    &&& r.config_path@ == config_path(s.name@)
    &&& opt_view(r.start_command) == opt_cmd(s.start)
    &&& r.domains@ == s.domains@
    &&& crate::text::views(r.operator_steps@) == operator_steps(s)
}

pub open spec fn is_report_resource(r: RailwayReportResource, b: crate::deploy::model::DeployBackingService) -> bool {
    &&& r.kind@ == "postgres"@ && r.name == b.name && r.required == b.required
    &&& r.consumers@ == b.consumers@
    &&& r.action@ == "create_or_attach_provider_service"@
    &&& opt_view(r.notes) == Some(
        "Create or attach a Railway Postgres service before wiring DATABASE_URL"@,
    )
}

/// Why a model cannot be exported to Railway: a backing service other than
/// Postgres, or a service with volumes or without what its role needs.
pub open spec fn railway_export_err(m: DeployModel, e: RunnerError) -> bool {
    ||| exists|i: int|
        0 <= i < m.backing_services@.len() && (#[trigger] m.backing_services@[i]).kind@
            != "postgres"@ && is_invocation(
            e,
            quoted(
                "railway export does not support backing service kind `"@,
                m.backing_services@[i].kind@,
                "` yet"@,
            ),
        )
    ||| exists|i: int|
        0 <= i < m.services@.len() && (if (#[trigger] m.services@[i]).volumes@.len() != 0 {
            is_invocation(
                e,
                quoted(
                    "railway export does not support persistent app volumes yet (`"@,
                    m.services@[i].name@,
                    "`)"@,
                ),
            )
        } else {
            railway_file_err(m.services@[i], e)
        })
}

fn report_variable(svc: &String, name: &String) -> (r: RailwayReportVariable)
    ensures
        is_report_variable(r, svc@, name@),
{
    let is_db = str_eq(name.as_str(), "DATABASE_URL");
    RailwayReportVariable {
        service: svc.clone(),
        name: name.clone(),
        source: if is_db {
            "provider_reference".to_owned()
        } else {
            "operator_secret".to_owned()
        },
        required: true,
        notes: if is_db {
            Some(
                "Wire this from the attached Railway Postgres service using a service variable or reference variable".to_owned(),
            )
        } else {
            Some("Set this in Railway service variables; Effigy does not emit secret values".to_owned())
        },
    }
}

/// The Railway export of a model rooted at `path`: a config per service,
/// and a report of the services, the resources, variables and domains the
/// operator must provide, and the model's warnings.
pub open spec fn railway_export_ok(m: DeployModel, path: Seq<char>, p: RailwayExportPlan) -> bool {
    &&& p.configs@.len() == m.services@.len()
    &&& forall|i: int|
        0 <= i < m.services@.len() ==> {
            &&& (#[trigger] p.configs@[i]).0@ == config_path(m.services@[i].name@)
            &&& railway_file_ok(m.services@[i], p.configs@[i].1)
            &&& m.services@[i].volumes@.len() == 0
        }
    &&& p.report.schema@ == "effigy.deploy.export.railway.report.v1"@
    &&& p.report.schema_version == 1
    &&& p.report.app_name == m.app.name && p.report.path@ == path
    &&& p.report.services@.len() == m.services@.len()
    &&& forall|i: int|
        0 <= i < m.services@.len() ==> is_report_service(
            #[trigger] p.report.services@[i],
            m.services@[i],
        )
    &&& p.report.required_resources@.len() == m.backing_services@.len()
    &&& forall|i: int|
        0 <= i < m.backing_services@.len() ==> is_report_resource(
            #[trigger] p.report.required_resources@[i],
            m.backing_services@[i],
        )
    &&& p.report.required_variables@.len() == secret_pairs(m.services@).len()
    &&& forall|i: int|
        0 <= i < p.report.required_variables@.len() ==> is_report_variable(
            #[trigger] p.report.required_variables@[i],
            secret_pairs(m.services@)[i].0,
            secret_pairs(m.services@)[i].1,
        )
    &&& p.report.required_domains@.len() == domain_services(m.services@).len()
    &&& forall|i: int|
        0 <= i < p.report.required_domains@.len() ==> {
            &&& (#[trigger] p.report.required_domains@[i]).service == domain_services(
                m.services@,
            )[i].name
            &&& p.report.required_domains@[i].hosts@ == domain_services(
                m.services@,
            )[i].domains@
            &&& p.report.required_domains@[i].action@
                == "attach_public_domains_in_railway"@
        }
    &&& p.report.warnings@ == model_warnings(m)
    &&& p.warnings@ == model_warnings(m)
}

/// The Railway export of a model, rooted at `path`: a config per service,
/// and a report of the services, the resources, variables and domains the
/// operator must provide, and the model's warnings.
pub fn build_railway_export(model: &DeployModel, path: &str) -> (r: Result<
    RailwayExportPlan,
    RunnerError,
>)
    ensures
        match r {
            Ok(p) => railway_export_ok(*model, path@, p),
            Err(e) => railway_export_err(*model, e),
        },
{
    let warnings = collect_model_warnings(model);
    let mut resources: Vec<RailwayReportResource> = Vec::new();
    let mut b: usize = 0;
    while b < model.backing_services.len()
        invariant
            b <= model.backing_services.len(),
            resources@.len() == b,
            forall|k: int|
                0 <= k < b ==> is_report_resource(
                    #[trigger] resources@[k],
                    model.backing_services@[k],
                ),
        decreases model.backing_services.len() - b,
    {
        let bs = &model.backing_services[b];
        if str_eq(bs.kind.as_str(), "postgres") {
            resources.push(
                RailwayReportResource {
                    kind: "postgres".to_owned(),
                    name: bs.name.clone(),
                    required: bs.required,
                    consumers: copy_strings(&bs.consumers),
                    action: "create_or_attach_provider_service".to_owned(),
                    notes: Some(
                        "Create or attach a Railway Postgres service before wiring DATABASE_URL".to_owned(),
                    ),
                },
            );
        } else {
            let m = cat3(
                "railway export does not support backing service kind `",
                bs.kind.as_str(),
                "` yet",
            );
            return Err(RunnerError::task_invocation(m.as_str()));
        }
        b = b + 1;
    }
    let mut configs: Vec<(String, RailwayConfigFile)> = Vec::new();
    let mut services: Vec<RailwayReportService> = Vec::new();
    let mut variables: Vec<RailwayReportVariable> = Vec::new();
    let mut domains: Vec<RailwayReportDomain> = Vec::new();
    let mut i: usize = 0;
    while i < model.services.len()
        invariant
            i <= model.services.len(),
            configs@.len() == i,
            services@.len() == i,
            forall|k: int|
                0 <= k < i ==> {
                    &&& (#[trigger] configs@[k]).0@ == config_path(model.services@[k].name@)
                    &&& railway_file_ok(model.services@[k], configs@[k].1)
                    &&& model.services@[k].volumes@.len() == 0
                },
            forall|k: int|
                0 <= k < i ==> is_report_service(#[trigger] services@[k], model.services@[k]),
            variables@.len() == secret_pairs(model.services@.take(i as int)).len(),
            forall|k: int|
                0 <= k < variables@.len() ==> is_report_variable(
                    #[trigger] variables@[k],
                    secret_pairs(model.services@.take(i as int))[k].0,
                    secret_pairs(model.services@.take(i as int))[k].1,
                ),
            domains@.len() == domain_services(model.services@.take(i as int)).len(),
            forall|k: int|
                0 <= k < domains@.len() ==> {
                    &&& (#[trigger] domains@[k]).service == domain_services(
                        model.services@.take(i as int),
                    )[k].name
                    &&& domains@[k].hosts@ == domain_services(model.services@.take(i as int))[k].domains@
                    &&& domains@[k].action@ == "attach_public_domains_in_railway"@
                },
        decreases model.services.len() - i,
    {
        let svc = &model.services[i];
        let ghost t = model.services@.take(i + 1);
        assert(t.drop_last() == model.services@.take(i as int));
        assert(t.last() == *svc);
        if svc.volumes.len() != 0 {
            let m = cat3(
                "railway export does not support persistent app volumes yet (`",
                svc.name.as_str(),
                "`)",
            );
            return Err(RunnerError::task_invocation(m.as_str()));
        }
        let file = match railway_file_from_model(svc) {
            Ok(f) => f,
            Err(e) => return Err(e),
        };
        let relative_path = cat3("services/", svc.name.as_str(), "/railway.toml");
        services.push(
            RailwayReportService {
                name: svc.name.clone(),
                role: svc.role.clone(),
                source_root: svc.source_root.clone(),
                config_path: relative_path.clone(),
                start_command: match &svc.start {
                    Some(s) => Some(s.command.clone()),
                    None => None,
                },
                domains: copy_strings(&svc.domains),
                operator_steps: railway_operator_steps(svc),
            },
        );
        let ghost prev_configs = configs@;
        let ghost rp = relative_path@;
        let ghost fg = file;
        assert(railway_file_ok(model.services@[i as int], fg));
        configs.push((relative_path, file));
        assert(configs@[i as int].1 == fg);
        assert(configs@[i as int].0@ == rp);
        assert(rp == config_path(svc.name@));
        assert(forall|k: int| 0 <= k < i ==> configs@[k] == prev_configs[k]);
        assert(forall|k: int|
            0 <= k <= i ==> {
                &&& (#[trigger] configs@[k]).0@ == config_path(model.services@[k].name@)
                &&& railway_file_ok(model.services@[k], configs@[k].1)
                &&& model.services@[k].volumes@.len() == 0
            });
        let ghost prev_pairs = secret_pairs(model.services@.take(i as int));
        let ghost added = svc.secret_refs@.map_values(|x: String| (svc.name@, x@));
        assert(secret_pairs(t) == prev_pairs + added);
        let mut j: usize = 0;
        while j < svc.secret_refs.len()
            invariant
                j <= svc.secret_refs.len(),
                added == svc.secret_refs@.map_values(|x: String| (svc.name@, x@)),
                variables@.len() == prev_pairs.len() + j,
                forall|k: int|
                    0 <= k < variables@.len() ==> is_report_variable(
                        #[trigger] variables@[k],
                        (prev_pairs + added)[k].0,
                        (prev_pairs + added)[k].1,
                    ),
            decreases svc.secret_refs.len() - j,
        {
            variables.push(report_variable(&svc.name, &svc.secret_refs[j]));
            j = j + 1;
        }
        if svc.domains.len() > 0 {
            domains.push(
                RailwayReportDomain {
                    service: svc.name.clone(),
                    hosts: copy_strings(&svc.domains),
                    action: "attach_public_domains_in_railway".to_owned(),
                },
            );
        }
        assert(forall|k: int|
            0 <= k <= i ==> {
                &&& (#[trigger] configs@[k]).0@ == config_path(model.services@[k].name@)
                &&& railway_file_ok(model.services@[k], configs@[k].1)
                &&& model.services@[k].volumes@.len() == 0
            });
        i = i + 1;
    }
    assert(model.services@.take(model.services.len() as int) == model.services@);
    let report = RailwayExportReport {
        schema: "effigy.deploy.export.railway.report.v1".to_owned(),
        schema_version: 1,
        app_name: model.app.name.clone(),
        path: owned(path),
        services,
        required_resources: resources,
        required_variables: variables,
        required_domains: domains,
        warnings: collect_model_warnings(model),
    };
    Ok(RailwayExportPlan { configs, report, warnings })
}

} // verus!
