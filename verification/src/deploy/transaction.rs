//! Deployment transactions: the plan for an environment, its provider
//! preflight, and the reports that applying, replaying and inspecting a
//! deployment leave.
use vstd::prelude::*;
use crate::deploy::model::DeployModel;
use crate::deploy::provider_package::{DeployProviderPackage, DeployProviderPolicy};
use crate::deploy::render::opt_view;
use crate::error::{is_invocation, RunnerError};
use crate::text::{join, join_seq, lower, owned, str_eq, trim, views};

verus! {

/// A check the provider preflight plans or blocks.
#[derive(Debug)]
pub struct DeployProviderCheck {
    pub name: String,
    pub status: String,
    pub target: Option<String>,
    pub message: Option<String>,
}

/// The provider preflight of a plan.
#[derive(Debug)]
pub struct DeployProviderPreflightReport {
    pub status: String,
    pub checks: Vec<DeployProviderCheck>,
    pub blockers: Vec<String>,
}

/// A check as plain values: name, status, target, message.
pub type CheckView = (Seq<char>, Seq<char>, Option<Seq<char>>, Option<Seq<char>>);

pub open spec fn check_view(c: DeployProviderCheck) -> CheckView {
    (c.name@, c.status@, opt_view(c.target), opt_view(c.message))
}

pub open spec fn check_views(v: Seq<DeployProviderCheck>) -> Seq<CheckView> {
    v.map_values(|c: DeployProviderCheck| check_view(c))
}

/// The actions a package policy may claim, in the order they are reported.
pub open spec fn policy_actions(p: DeployProviderPolicy) -> Seq<(bool, Seq<char>)> {
    seq![
        (p.creates_projects, "create projects"@),
        (p.creates_services, "create services"@),
        (p.creates_resources, "create resources"@),
        (p.creates_variables, "create variables"@),
        (p.creates_domains, "create domains"@),
        (p.prints_secret_values, "print secret values"@),
    ]
}

pub open spec fn policy_blocker_message(provider: Seq<char>, action: Seq<char>) -> Seq<char> {
    "deploy provider `"@ + provider + "` package policy is not allowed to "@ + action
        + " in the current deployment transaction surface"@
}

/// One blocker for each enabled action of `acts`, in order.
pub open spec fn enabled_blockers(provider: Seq<char>, acts: Seq<(bool, Seq<char>)>) -> Seq<Seq<char>>
    decreases acts.len(),
{
    if acts.len() == 0 {
        Seq::empty()
    } else {
        enabled_blockers(provider, acts.drop_last()) + if acts.last().0 {
            seq![policy_blocker_message(provider, acts.last().1)]
        } else {
            Seq::<Seq<char>>::empty()
        }
    }
}

/// The number of enabled actions of `acts`.
pub open spec fn enabled_count(acts: Seq<(bool, Seq<char>)>) -> nat
    decreases acts.len(),
{
    if acts.len() == 0 {
        0
    } else {
        enabled_count(acts.drop_last()) + if acts.last().0 {
            1nat
        } else {
            0nat
        }
    }
}

/// The blockers a package policy raises: one for each thing it claims to
/// create, and one if it prints secret values.
pub fn provider_package_policy_blockers(provider: &str, policy: &DeployProviderPolicy) -> (r: Vec<
    String,
>)
    ensures
        views(r@) == enabled_blockers(provider@, policy_actions(*policy)),
{
    let acts: [(bool, &str); 6] = [
        (policy.creates_projects, "create projects"),
        (policy.creates_services, "create services"),
        (policy.creates_resources, "create resources"),
        (policy.creates_variables, "create variables"),
        (policy.creates_domains, "create domains"),
        (policy.prints_secret_values, "print secret values"),
    ];
    let ghost spec_acts = policy_actions(*policy);
    let mut out: Vec<String> = Vec::new();
    let mut i: usize = 0;
    while i < 6
        invariant
            i <= 6,
            spec_acts == policy_actions(*policy),
            forall|k: int|
                0 <= k < 6 ==> (#[trigger] acts@[k]).0 == spec_acts[k].0 && acts@[k].1@
                    == spec_acts[k].1,
            views(out@) == enabled_blockers(provider@, spec_acts.take(i as int)),
        decreases 6 - i,
    {
        let (enabled, action) = acts[i];
        assert(spec_acts.take(i + 1).drop_last() == spec_acts.take(i as int));
        if enabled {
            let mut m = crate::text::cat3("deploy provider `", provider, "` package policy is not allowed to ");
            m.append(action);
            m.append(" in the current deployment transaction surface");
            let ghost before = views(out@);
            out.push(m);
            assert(views(out@) == before.push(m@));
        }
        i = i + 1;
    }
    assert(spec_acts.take(6) == spec_acts);
    out
}

/// A policy raises exactly as many blockers as it has enabled actions, so
/// it raises none exactly when it claims nothing.
pub proof fn lemma_policy_blockers_count(provider: Seq<char>, acts: Seq<(bool, Seq<char>)>)
    ensures
        enabled_blockers(provider, acts).len() == enabled_count(acts),
        enabled_count(acts) == 0 <==> forall|i: int| 0 <= i < acts.len() ==> !(#[trigger] acts[i]).0,
    decreases acts.len(),
{
    if acts.len() > 0 {
        lemma_policy_blockers_count(provider, acts.drop_last());
        if enabled_count(acts) == 0 {
            assert forall|i: int| 0 <= i < acts.len() implies !(#[trigger] acts[i]).0 by {
                if i < acts.len() - 1 {
                    assert(acts.drop_last()[i] == acts[i]);
                }
            }
        } else {
            if !acts.last().0 {
                let j = choose|j: int| 0 <= j < acts.drop_last().len() && (#[trigger] acts.drop_last()[j]).0;
                assert(acts[j] == acts.drop_last()[j]);
            }
        }
    }
}

pub open spec fn railway_adapter_message() -> Seq<char> {
    "Railway CLI-backed preflight/apply is deferred to live provider setup"@
}

pub open spec fn render_adapter_message() -> Seq<char> {
    "Render adapter uses the shared deployment transaction boundary; live Render API/CLI mutation is deferred until provider credentials and services exist"@
}

pub open spec fn render_variables_message() -> Seq<char> {
    "Render variables are validated by name only; Effigy never prints or creates secret values"@
}

pub open spec fn render_domains_message() -> Seq<char> {
    "Render domains must already exist or be attached by the operator before live apply"@
}

/// `Some(s)` unless `s` is empty.
pub open spec fn non_empty(s: Seq<char>) -> Option<Seq<char>> {
    if s.len() == 0 {
        None
    } else {
        Some(s)
    }
}

/// The names of the model's secrets.
pub open spec fn secret_names(m: DeployModel) -> Seq<Seq<char>> {
    m.secrets@.map_values(|s: crate::deploy::model::DeploySecret| s.name@)
}

/// The hosts of the model's domains.
pub open spec fn domain_hosts(m: DeployModel) -> Seq<Seq<char>> {
    m.domains@.map_values(|d: crate::deploy::model::DeployDomain| d.host@)
}

/// The names of the model's services.
pub open spec fn service_names(m: DeployModel) -> Seq<Seq<char>> {
    m.services@.map_values(|s: crate::deploy::model::DeployService| s.name@)
}

/// The checks a provider adapter adds to a preflight.
pub open spec fn adapter_checks(provider: Seq<char>, m: DeployModel) -> Seq<CheckView> {
    if provider == "railway"@ {
        seq![
            ("provider-adapter"@, "planned"@, Some("railway"@), Some(railway_adapter_message())),
        ]
    } else if provider == "render"@ {
        seq![
            ("provider-adapter"@, "planned"@, Some("render"@), Some(render_adapter_message())),
            (
                "variables"@,
                "planned"@,
                non_empty(join_seq(secret_names(m), ","@)),
                Some(render_variables_message()),
            ),
            (
                "domains"@,
                "planned"@,
                non_empty(join_seq(domain_hosts(m), ","@)),
                Some(render_domains_message()),
            ),
        ]
    } else {
        Seq::empty()
    }
}

fn check(name: &str, status: &str, target: Option<String>, message: Option<&str>) -> (r:
    DeployProviderCheck)
    ensures
        check_view(r) == (name@, status@, opt_view(target), match message {
            Some(m) => Some(m@),
            None => None,
        }),
{
    DeployProviderCheck {
        name: owned(name),
        status: owned(status),
        target,
        message: match message {
            Some(m) => Some(owned(m)),
            None => None,
        },
    }
}

fn non_empty_string(s: String) -> (r: Option<String>)
    ensures
        opt_view(r) == non_empty(s@),
{
    if s.unicode_len() == 0 {
        None
    } else {
        Some(s)
    }
}

/// The checks the `railway` or `render` adapter adds; none for another
/// provider.
pub fn provider_adapter_checks(provider: &str, model: &DeployModel) -> (r: Vec<DeployProviderCheck>)
    ensures
        check_views(r@) == adapter_checks(provider@, *model),
{
    proof {
        reveal_strlit("railway");
        reveal_strlit("render");
    }
    if str_eq(provider, "railway") {
        let v = vec![
            check(
                "provider-adapter",
                "planned",
                Some("railway".to_owned()),
                Some("Railway CLI-backed preflight/apply is deferred to live provider setup"),
            ),
        ];
        assert(check_views(v@) == adapter_checks(provider@, *model));
        v
    } else if str_eq(provider, "render") {
        let mut names: Vec<String> = Vec::new();
        let mut i: usize = 0;
        while i < model.secrets.len()
            invariant
                i <= model.secrets.len(),
                views(names@) == secret_names(*model).take(i as int),
            decreases model.secrets.len() - i,
        {
            names.push(model.secrets[i].name.clone());
            assert(secret_names(*model).take(i + 1) == secret_names(*model).take(i as int).push(
                model.secrets@[i as int].name@,
            ));
            i = i + 1;
        }
        assert(secret_names(*model).take(model.secrets.len() as int) == secret_names(*model));
        let mut hosts: Vec<String> = Vec::new();
        let mut j: usize = 0;
        while j < model.domains.len()
            invariant
                j <= model.domains.len(),
                views(hosts@) == domain_hosts(*model).take(j as int),
            decreases model.domains.len() - j,
        {
            hosts.push(model.domains[j].host.clone());
            assert(domain_hosts(*model).take(j + 1) == domain_hosts(*model).take(j as int).push(
                model.domains@[j as int].host@,
            ));
            j = j + 1;
        }
        assert(domain_hosts(*model).take(model.domains.len() as int) == domain_hosts(*model));
        let env_targets = join(&names, ",");
        let domain_targets = join(&hosts, ",");
        let v = vec![
            check(
                "provider-adapter",
                "planned",
                Some("render".to_owned()),
                Some(
                    "Render adapter uses the shared deployment transaction boundary; live Render API/CLI mutation is deferred until provider credentials and services exist",
                ),
            ),
            check(
                "variables",
                "planned",
                non_empty_string(env_targets),
                Some(
                    "Render variables are validated by name only; Effigy never prints or creates secret values",
                ),
            ),
            check(
                "domains",
                "planned",
                non_empty_string(domain_targets),
                Some(
                    "Render domains must already exist or be attached by the operator before live apply",
                ),
            ),
        ];
        assert(check_views(v@) == adapter_checks(provider@, *model));
        v
    } else {
        let v: Vec<DeployProviderCheck> = Vec::new();
        assert(check_views(v@) == adapter_checks(provider@, *model));
        v
    }
}

/// Whether a deployment must be, may be, or is never tied to a release.
#[derive(Debug, Clone, Copy, PartialEq, Eq, Structural)]
pub enum ReleasePolicy {
    Disabled,
    Optional,
    Required,
}

pub open spec fn release_policy_name(p: ReleasePolicy) -> Seq<char> {
    match p {
        ReleasePolicy::Disabled => "none"@,
        ReleasePolicy::Optional => "optional"@,
        ReleasePolicy::Required => "required"@,
    }
}

impl ReleasePolicy {
    /// The name the manifest and the reports use.
    pub fn as_str(self) -> (r: &'static str)
        ensures
            r@ == release_policy_name(self),
    {
        match self {
            ReleasePolicy::Disabled => "none",
            ReleasePolicy::Optional => "optional",
            ReleasePolicy::Required => "required",
        }
    }
}

/// How strictly deployed artifacts must be pinned by digest.
#[derive(Debug, Clone, Copy, PartialEq, Eq, Structural)]
pub enum ArtifactPolicy {
    MutableOk,
    DigestPreferred,
    DigestPinned,
}

pub open spec fn artifact_policy_name(p: ArtifactPolicy) -> Seq<char> {
    match p {
        ArtifactPolicy::MutableOk => "mutable-ok"@,
        ArtifactPolicy::DigestPreferred => "digest-preferred"@,
        ArtifactPolicy::DigestPinned => "digest-pinned"@,
    }
}

impl ArtifactPolicy {
    /// The name the manifest and the reports use.
    pub fn as_str(self) -> (r: &'static str)
        ensures
            r@ == artifact_policy_name(self),
    {
        match self {
            ArtifactPolicy::MutableOk => "mutable-ok",
            ArtifactPolicy::DigestPreferred => "digest-preferred",
            ArtifactPolicy::DigestPinned => "digest-pinned",
        }
    }
}

/// The code reference an environment deploys when it names none.
pub fn default_code_ref() -> (r: String)
    ensures
        r@ == "branch:main"@,
{
    "branch:main".to_owned()
}

/// `[deploy.<env>.preflight]`.
#[derive(Debug)]
pub struct DeployPreflightConfig {
    pub require_release_gates: bool,
}

/// `[deploy.<env>.hooks]`: the task run at each stage, if any.
#[derive(Debug)]
pub struct DeployHooksConfig {
    pub before_state: Option<String>,
    pub after_state: Option<String>,
    pub after_deploy: Option<String>,
}

/// One deployment environment of the manifest.
#[derive(Debug)]
pub struct ManifestDeployEnvConfig {
    pub provider: String,
    pub state: Option<String>,
    pub code_ref: String,
    pub release_policy: ReleasePolicy,
    pub provider_project: Option<String>,
    pub artifact_policy: ArtifactPolicy,
    pub preflight: Option<DeployPreflightConfig>,
    pub hooks: Option<DeployHooksConfig>,
}

/// The composed `[deploy]` section: provider packages and environments,
/// each in key order.
#[derive(Debug)]
pub struct ManifestDeployConfig {
    pub providers: Vec<(String, crate::deploy::provider_package::ManifestDeployProviderConfig)>,
    pub envs: Vec<(String, ManifestDeployEnvConfig)>,
}

/// The message when `env` is not among the environments `keys`.
pub open spec fn unknown_env_message(env: Seq<char>, keys: Seq<Seq<char>>) -> Seq<char> {
    "deploy environment `"@ + env + "` is not defined in `[deploy]`; available environments: "@
        + join_seq(keys, ", "@)
}

/// The keys of keyed entries.
pub open spec fn entry_keys<T>(entries: Seq<(String, T)>) -> Seq<Seq<char>> {
    entries.map_values(|e: (String, T)| e.0@)
}

/// The configuration of environment `env`, or the error that lists the
/// environments there are.
pub fn select_deploy_env<'a>(config: &'a ManifestDeployConfig, env: &str) -> (r: Result<
    &'a ManifestDeployEnvConfig,
    RunnerError,
>)
    ensures
        match crate::text::key_index(config.envs@, env@) {
            Some(i) => r matches Ok(c) && *c == config.envs@[i].1,
            None => r matches Err(e) && is_invocation(
                e,
                unknown_env_message(env@, entry_keys(config.envs@)),
            ),
        },
{
    match crate::text::find_key(&config.envs, env) {
        Some(i) => Ok(&config.envs[i].1),
        None => {
            let mut keys: Vec<String> = Vec::new();
            let mut k: usize = 0;
            while k < config.envs.len()
                invariant
                    k <= config.envs.len(),
                    views(keys@) == entry_keys(config.envs@).take(k as int),
                decreases config.envs.len() - k,
            {
                keys.push(config.envs[k].0.clone());
                assert(entry_keys(config.envs@).take(k + 1) == entry_keys(config.envs@).take(
                    k as int,
                ).push(config.envs@[k as int].0@));
                k = k + 1;
            }
            assert(entry_keys(config.envs@).take(config.envs.len() as int) == entry_keys(
                config.envs@,
            ));
            let mut m = crate::text::cat3("deploy environment `", env, "` is not defined in `[deploy]`; available environments: ");
            let listed = join(&keys, ", ");
            m.append(listed.as_str());
            Err(RunnerError::task_invocation(m.as_str()))
        },
    }
}

/// The check that reports a resolved provider package.
pub open spec fn package_check(p: DeployProviderPackage) -> CheckView {
    (
        "provider-package"@,
        "planned"@,
        Some(p.root@),
        Some(
            p.descriptor.provider.display_name@ + " "@ + p.descriptor.provider.version@
                + " resolved from provider package"@,
        ),
    )
}

pub open spec fn unsupported_provider_message(provider: Seq<char>) -> Seq<char> {
    "deploy provider `"@ + provider + "` is not supported; expected `railway` or `render`"@
}

pub open spec fn supported_surface_message() -> Seq<char> {
    "supported providers in this deployment transaction surface are railway and render"@
}

/// The preflight of an environment: status, checks and blockers. Only
/// `railway` and `render` (trimmed, in any case) are supported; a package
/// whose policy raises blockers blocks the plan; otherwise the project,
/// the services and the adapter's own checks are planned.
pub open spec fn preflight(
    env: ManifestDeployEnvConfig,
    m: DeployModel,
    pkg: Option<DeployProviderPackage>,
) -> (Seq<char>, Seq<CheckView>, Seq<Seq<char>>) {
    let provider = lower(trim(env.provider@));
    if provider != "railway"@ && provider != "render"@ {
        (
            "blocked"@,
            seq![
                (
                    "provider-adapter"@,
                    "blocked"@,
                    Some(env.provider@),
                    Some(supported_surface_message()),
                ),
            ],
            seq![unsupported_provider_message(env.provider@)],
        )
    } else {
        let pre: Seq<CheckView> = match pkg {
            Some(p) => seq![package_check(p)],
            None => Seq::empty(),
        };
        let pb: Seq<Seq<char>> = match pkg {
            Some(p) => enabled_blockers(env.provider@, policy_actions(p.descriptor.policy)),
            None => Seq::empty(),
        };
        if pb.len() > 0 {
            ("blocked"@, pre, pb)
        } else {
            (
                "planned"@,
                pre + seq![
                    ("project"@, "planned"@, opt_view(env.provider_project), None),
                    ("services"@, "planned"@, Some(join_seq(service_names(m), ","@)), None),
                ] + adapter_checks(provider, m),
                Seq::empty(),
            )
        }
    }
}

pub open spec fn opt_ref<T>(o: Option<&T>) -> Option<T> {
    match o {
        Some(x) => Some(*x),
        None => None,
    }
}

pub open spec fn preflight_view(r: DeployProviderPreflightReport) -> (Seq<char>, Seq<CheckView>, Seq<Seq<char>>) {
    (r.status@, check_views(r.checks@), views(r.blockers@))
}

/// The provider preflight of an environment's plan.
pub fn provider_preflight_report(
    env_config: &ManifestDeployEnvConfig,
    model: &DeployModel,
    provider_package: Option<&DeployProviderPackage>,
) -> (r: DeployProviderPreflightReport)
    ensures
        preflight_view(r) == preflight(*env_config, *model, opt_ref(provider_package)),
{
    proof {
        reveal_strlit("railway");
        reveal_strlit("render");
    }
    let t = crate::text::trimmed(env_config.provider.as_str());
    let provider = crate::text::ascii_lowercase(t.as_str());
    if !str_eq(provider.as_str(), "railway") && !str_eq(provider.as_str(), "render") {
        let checks = vec![
            check(
                "provider-adapter",
                "blocked",
                Some(env_config.provider.clone()),
                Some("supported providers in this deployment transaction surface are railway and render"),
            ),
        ];
        let blockers = vec![
            crate::text::cat3("deploy provider `", env_config.provider.as_str(), "` is not supported; expected `railway` or `render`"),
        ];
        let r = DeployProviderPreflightReport {
            status: "blocked".to_owned(),
            checks,
            blockers,
        };
        assert(preflight_view(r) == preflight(*env_config, *model, opt_ref(provider_package)));
        return r;
    }
    let mut checks: Vec<DeployProviderCheck> = Vec::new();
    if let Some(package) = provider_package {
        let mut message = crate::text::cat3(
            package.descriptor.provider.display_name.as_str(),
            " ",
            package.descriptor.provider.version.as_str(),
        );
        message.append(" resolved from provider package");
        checks.push(
            DeployProviderCheck {
                name: "provider-package".to_owned(),
                status: "planned".to_owned(),
                target: Some(package.root.clone()),
                message: Some(message),
            },
        );
        assert(check_views(checks@) == seq![package_check(*package)]);
        let policy_blockers = provider_package_policy_blockers(
            env_config.provider.as_str(),
            &package.descriptor.policy,
        );
        if policy_blockers.len() > 0 {
            let r = DeployProviderPreflightReport {
                status: "blocked".to_owned(),
                checks,
                blockers: policy_blockers,
            };
            assert(preflight_view(r) == preflight(*env_config, *model, opt_ref(provider_package)));
            return r;
        }
    }
    let ghost pre = check_views(checks@);
    let mut names: Vec<String> = Vec::new();
    let mut i: usize = 0;
    while i < model.services.len()
        invariant
            i <= model.services.len(),
            views(names@) == service_names(*model).take(i as int),
        decreases model.services.len() - i,
    {
        names.push(model.services[i].name.clone());
        assert(service_names(*model).take(i + 1) == service_names(*model).take(i as int).push(
            model.services@[i as int].name@,
        ));
        i = i + 1;
    }
    assert(service_names(*model).take(model.services.len() as int) == service_names(*model));
    checks.push(
        DeployProviderCheck {
            name: "project".to_owned(),
            status: "planned".to_owned(),
            target: crate::deploy::model::copy_opt(&env_config.provider_project),
            message: None,
        },
    );
    checks.push(
        DeployProviderCheck {
            name: "services".to_owned(),
            status: "planned".to_owned(),
            target: Some(join(&names, ",")),
            message: None,
        },
    );
    let ghost mid = check_views(checks@);
    let mut adapter = provider_adapter_checks(provider.as_str(), model);
    let ghost adapter_v = check_views(adapter@);
    while adapter.len() > 0
        invariant
            check_views(checks@) + check_views(adapter@) == mid + adapter_v,
        decreases adapter.len(),
    {
        let c = adapter.remove(0);
        let ghost before = check_views(checks@);
        checks.push(c);
        assert(check_views(checks@) == before.push(check_view(c)));
    }
    assert(check_views(adapter@) == Seq::<CheckView>::empty());
    let r = DeployProviderPreflightReport {
        status: "planned".to_owned(),
        checks,
        blockers: Vec::new(),
    };
    assert(preflight_view(r) == preflight(*env_config, *model, opt_ref(provider_package)));
    r
}

/// The code a deployment is built from, as requested and as resolved.
#[derive(Debug)]
pub struct DeployCodeRef {
    pub requested_ref: String,
    pub kind: String,
    pub resolved_ref: Option<String>,
    pub resolved_commit: Option<String>,
}

/// Whether `git`, handed the arguments `args`, may answer `out`.
pub open spec fn git_gave<G: Fn(&Vec<String>) -> Option<String>>(
    git: G,
    args: Seq<Seq<char>>,
    out: Option<String>,
) -> bool {
    exists|a: &Vec<String>| views(a@) == args && #[trigger] git.ensures((a,), out)
}

/// How a requested code reference resolves. `release-tag` asks git for the
/// latest tag and then for its commit (or `HEAD`'s when there is no tag);
/// otherwise `kind:value` (a bare value is a branch) names a branch or tag
/// that git resolves, or a commit `sha` taken as it is; another kind
/// resolves to no commit.
pub open spec fn code_ref_outcome<G: Fn(&Vec<String>) -> Option<String>>(
    requested: Seq<char>,
    git: G,
    r: DeployCodeRef,
) -> bool {
    &&& r.requested_ref@ == requested
    &&& if requested == "release-tag"@ {
        &&& r.kind@ == "tag"@
        &&& git_gave(git, seq!["describe"@, "--tags"@, "--abbrev=0"@], r.resolved_ref)
        &&& git_gave(
            git,
            seq![
                "rev-parse"@,
                match r.resolved_ref {
                    Some(t) => t@,
                    None => "HEAD"@,
                },
            ],
            r.resolved_commit,
        )
    } else {
        let kv = match crate::deploy::provider_package::split_once(requested, ':') {
            Some(p) => p,
            None => ("branch"@, requested),
        };
        &&& r.kind@ == kv.0
        &&& opt_view(r.resolved_ref) == Some(kv.1)
        &&& if kv.0 == "branch"@ || kv.0 == "tag"@ {
            git_gave(git, seq!["rev-parse"@, kv.1], r.resolved_commit)
        } else if kv.0 == "sha"@ {
            opt_view(r.resolved_commit) == Some(kv.1)
        } else {
            r.resolved_commit is None
        }
    }
}

/// Resolves the code reference of an environment; `git(args)` runs git
/// with `args` and gives its trimmed output when it succeeds.
pub fn resolve_code_ref<G: Fn(&Vec<String>) -> Option<String>>(requested: &str, git: &G) -> (r:
    DeployCodeRef)
    requires
        forall|a: &Vec<String>| git.requires((a,)),
    ensures
        code_ref_outcome(requested@, *git, r),
{
    proof {
        reveal_strlit("release-tag");
        reveal_strlit("branch");
        reveal_strlit("tag");
        reveal_strlit("sha");
    }
    if str_eq(requested, "release-tag") {
        let describe = vec!["describe".to_owned(), "--tags".to_owned(), "--abbrev=0".to_owned()];
        let tag = git(&describe);
        assert(views(describe@) == seq!["describe"@, "--tags"@, "--abbrev=0"@]);
        let target = match &tag {
            Some(t) => t.clone(),
            None => "HEAD".to_owned(),
        };
        let rev_parse = vec!["rev-parse".to_owned(), target];
        let commit = git(&rev_parse);
        let r = DeployCodeRef {
            requested_ref: owned(requested),
            kind: "tag".to_owned(),
            resolved_ref: tag,
            resolved_commit: commit,
        };
        assert(views(rev_parse@) == seq![
            "rev-parse"@,
            match r.resolved_ref {
                Some(t) => t@,
                None => "HEAD"@,
            },
        ]);
        return r;
    }
    let (kind, value) = match crate::deploy::provider_package::split_once_char(requested, ':') {
        Some(kv) => kv,
        None => ("branch".to_owned(), owned(requested)),
    };
    let commit = if str_eq(kind.as_str(), "branch") || str_eq(kind.as_str(), "tag") {
        let rev_parse = vec!["rev-parse".to_owned(), value.clone()];
        let c = git(&rev_parse);
        assert(views(rev_parse@) == seq!["rev-parse"@, value@]);
        c
    } else if str_eq(kind.as_str(), "sha") {
        Some(value.clone())
    } else {
        None
    };
    DeployCodeRef {
        requested_ref: owned(requested),
        kind,
        resolved_ref: Some(value),
        resolved_commit: commit,
    }
}

/// The application a plan deploys.
#[derive(Debug)]
pub struct DeployPlanApp {
    pub name: String,
    pub project_name: String,
}

/// The release policy a plan was made under.
#[derive(Debug)]
pub struct DeployReleasePolicyReport {
    pub mode: String,
    pub required: bool,
    pub gates_required: bool,
}

/// The infrastructure state stack a plan touches.
#[derive(Debug)]
pub struct DeployStatePlan {
    pub stack: String,
    pub lineage_id: String,
    pub planned_report_path: String,
}

/// The artifact policy a plan was made under.
#[derive(Debug)]
pub struct DeployArtifactPolicyReport {
    pub mode: String,
    pub blockers: Vec<String>,
}

/// A hook task planned at a stage.
#[derive(Debug)]
pub struct DeployHookPlan {
    pub stage: String,
    pub task: String,
}

/// A health check planned for a service.
#[derive(Debug)]
pub struct DeployHealthPlan {
    pub service: String,
    pub kind: String,
    pub path: String,
}

/// The plan of a deployment to one environment.
#[derive(Debug)]
pub struct DeployPlanReport {
    pub schema: String,
    pub schema_version: u8,
    pub deployment_id: String,
    pub env: String,
    pub provider: String,
    pub app: DeployPlanApp,
    pub code: DeployCodeRef,
    pub release_policy: DeployReleasePolicyReport,
    pub state: Option<DeployStatePlan>,
    pub artifact_policy: DeployArtifactPolicyReport,
    pub provider_preflight: DeployProviderPreflightReport,
    pub hooks: Vec<DeployHookPlan>,
    pub health_checks: Vec<DeployHealthPlan>,
    pub warnings: Vec<String>,
    pub blockers: Vec<String>,
    pub written_report_path: Option<String>,
    pub written_history_path: Option<String>,
}

pub open spec fn release_tag_blocker() -> Seq<char> {
    "release_policy `required` requires `code_ref = \"release-tag\"` or a tag ref"@
}

pub open spec fn release_commit_blocker() -> Seq<char> {
    "release_policy `required` requires a resolvable release tag or immutable commit"@
}

pub open spec fn digest_pinned_warning() -> Seq<char> {
    "digest-pinned artifact policy will be enforced against state artifact refs in the provider execution slice"@
}

/// The blockers a required release policy raises against the code: it
/// must be a tag, and it must resolve to a commit.
pub open spec fn release_blockers(env: ManifestDeployEnvConfig, code: DeployCodeRef) -> Seq<Seq<char>> {
    let required = env.release_policy == ReleasePolicy::Required;
    (if required && code.kind@ != "tag"@ {
        seq![release_tag_blocker()]
    } else {
        Seq::<Seq<char>>::empty()
    }) + (if required && code.resolved_commit is None {
        seq![release_commit_blocker()]
    } else {
        Seq::<Seq<char>>::empty()
    })
}

/// The hook tasks of an environment, stage by stage, where one is set.
pub open spec fn hook_plans(hooks: Option<DeployHooksConfig>) -> Seq<(Seq<char>, Seq<char>)> {
    match hooks {
        None => Seq::empty(),
        Some(h) => (match h.before_state {
            Some(t) => seq![("before_state"@, t@)],
            None => Seq::empty(),
        }) + (match h.after_state {
            Some(t) => seq![("after_state"@, t@)],
            None => Seq::empty(),
        }) + (match h.after_deploy {
            Some(t) => seq![("after_deploy"@, t@)],
            None => Seq::empty(),
        }),
    }
}

/// The health checks of the services that declare health, in order.
pub open spec fn health_plans(svcs: Seq<crate::deploy::model::DeployService>) -> Seq<
    (Seq<char>, Seq<char>, Seq<char>),
>
    decreases svcs.len(),
{
    if svcs.len() == 0 {
        Seq::empty()
    } else {
        health_plans(svcs.drop_last()) + match svcs.last().health {
            Some(h) => seq![(svcs.last().name@, h.kind@, h.path@)],
            None => Seq::empty(),
        }
    }
}

/// `<seconds>-<env as a path component>-<commit or "unresolved">`.
pub open spec fn deployment_id(secs: u64, env: Seq<char>, code: DeployCodeRef) -> Seq<char> {
    crate::text::dec(secs as nat) + "-"@ + crate::deploy::report::fill_unsafe(env, '-') + "-"@
        + match code.resolved_commit {
        Some(c) => c@,
        None => "unresolved"@,
    }
}

/// Where a hook stage runs in a deployment: before the state change, after
/// it, after the deploy; any other name comes last.
pub open spec fn hook_stage_rank(stage: Seq<char>) -> int {
    if stage == "before_state"@ {
        0
    } else if stage == "after_state"@ {
        1
    } else if stage == "after_deploy"@ {
        2
    } else {
        3
    }
}

/// Whether the plan's hooks hold the stage `stage` with the task `task`.
pub open spec fn plan_has_hook(hooks: Seq<DeployHookPlan>, stage: Seq<char>, task: Seq<char>) -> bool {
    exists|i: int| 0 <= i < hooks.len() && #[trigger] hooks[i].stage@ == stage && hooks[i].task@
        == task
}

/// Every hook stage that the environment sets is in the plan with its task,
/// and nothing else is: for each of `before_state`, `after_state` and
/// `after_deploy` that is set to `t`, the plan holds `(stage, t)`, the plan
/// holds one hook per stage set, and the hooks come in stage order.
pub proof fn lemma_plan_keeps_every_hook(
    env: Seq<char>,
    cfg: ManifestDeployEnvConfig,
    m: DeployModel,
    pkg: Option<DeployProviderPackage>,
    code: DeployCodeRef,
    secs: u64,
    r: DeployPlanReport,
    h: DeployHooksConfig,
)
    requires
        plan_ok(env, cfg, m, pkg, code, secs, r),
        cfg.hooks == Some(h),
    ensures
        h.before_state matches Some(t) ==> plan_has_hook(r.hooks@, "before_state"@, t@),
        h.after_state matches Some(t) ==> plan_has_hook(r.hooks@, "after_state"@, t@),
        h.after_deploy matches Some(t) ==> plan_has_hook(r.hooks@, "after_deploy"@, t@),
        r.hooks@.len() == (if h.before_state is Some { 1int } else { 0int }) + (if h.after_state is Some {
            1int
        } else {
            0int
        }) + (if h.after_deploy is Some { 1int } else { 0int }),
        forall|i: int, j: int|
            0 <= i < j < r.hooks@.len() ==> hook_stage_rank(#[trigger] r.hooks@[i].stage@)
                < hook_stage_rank(#[trigger] r.hooks@[j].stage@),
        forall|i: int|
            0 <= i < r.hooks@.len() ==> ({
                let s = #[trigger] r.hooks@[i];
                ||| (s.stage@ == "before_state"@ && (h.before_state is Some && s.task@ == h.before_state.unwrap()@))
                ||| (s.stage@ == "after_state"@ && (h.after_state is Some && s.task@ == h.after_state.unwrap()@))
                ||| (s.stage@ == "after_deploy"@ && (h.after_deploy is Some && s.task@ == h.after_deploy.unwrap()@))
            }),
{
    reveal_strlit("before_state");
    reveal_strlit("after_state");
    reveal_strlit("after_deploy");
    let hs = r.hooks@;
    let p = hook_plans(Some(h));
    assert(hook_views(hs) == p);
    assert(hs.len() == p.len());
    assert forall|i: int| 0 <= i < hs.len() implies (#[trigger] hs[i]).stage@ == p[i].0 && hs[i].task@
        == p[i].1 by {
        assert(hook_views(hs)[i] == (hs[i].stage@, hs[i].task@));
    }
    let a: Seq<(Seq<char>, Seq<char>)> = match h.before_state {
        Some(t) => seq![("before_state"@, t@)],
        None => Seq::empty(),
    };
    let b: Seq<(Seq<char>, Seq<char>)> = match h.after_state {
        Some(t) => seq![("after_state"@, t@)],
        None => Seq::empty(),
    };
    let c: Seq<(Seq<char>, Seq<char>)> = match h.after_deploy {
        Some(t) => seq![("after_deploy"@, t@)],
        None => Seq::empty(),
    };
    assert(p == a + b + c);
    assert("before_state"@.len() != "after_state"@.len());
    assert("after_state"@.len() != "after_deploy"@.len());
    assert("before_state"@[0] != "after_deploy"@[0]);
    assert(hook_stage_rank("before_state"@) == 0);
    assert(hook_stage_rank("after_state"@) == 1);
    assert(hook_stage_rank("after_deploy"@) == 2);
    assert forall|k: int| 0 <= k < p.len() implies ({
        let e = #[trigger] p[k];
        &&& hook_stage_rank(e.0) == (if k < a.len() {
            0int
        } else if k < a.len() + b.len() {
            1int
        } else {
            2int
        })
        &&& (e.0 == "before_state"@ ==> (h.before_state is Some && e.1 == h.before_state.unwrap()@))
        &&& (e.0 == "after_state"@ ==> (h.after_state is Some && e.1 == h.after_state.unwrap()@))
        &&& (e.0 == "after_deploy"@ ==> (h.after_deploy is Some && e.1 == h.after_deploy.unwrap()@))
        &&& (e.0 == "before_state"@ || e.0 == "after_state"@ || e.0 == "after_deploy"@)
    }) by {
        if k < a.len() {
            assert(p[k] == a[k]);
        } else if k < a.len() + b.len() {
            assert(p[k] == b[k - a.len()]);
        } else {
            assert(p[k] == c[k - a.len() - b.len()]);
        }
    }
    if let Some(t) = h.before_state {
        assert(p[0] == ("before_state"@, t@));
        assert(hs[0].stage@ == "before_state"@);
    }
    if let Some(t) = h.after_state {
        assert(p[a.len() as int] == ("after_state"@, t@));
        assert(hs[a.len() as int].stage@ == "after_state"@);
    }
    if let Some(t) = h.after_deploy {
        assert(p[(a.len() + b.len()) as int] == ("after_deploy"@, t@));
        assert(hs[(a.len() + b.len()) as int].stage@ == "after_deploy"@);
    }
    assert forall|i: int, j: int| 0 <= i < j < hs.len() implies hook_stage_rank(
        #[trigger] hs[i].stage@,
    ) < hook_stage_rank(#[trigger] hs[j].stage@) by {
        assert(hs[i].stage@ == p[i].0);
        assert(hs[j].stage@ == p[j].0);
        if let Some(t) = h.before_state {
            assert(a.len() == 1);
        }
        if let Some(t) = h.after_state {
            assert(b.len() == 1);
        }
        if let Some(t) = h.after_deploy {
            assert(c.len() == 1);
        }
    }
    assert forall|i: int| 0 <= i < hs.len() implies ({
        let s = #[trigger] hs[i];
        ||| (s.stage@ == "before_state"@ && (h.before_state is Some && s.task@ == h.before_state.unwrap()@))
        ||| (s.stage@ == "after_state"@ && (h.after_state is Some && s.task@ == h.after_state.unwrap()@))
        ||| (s.stage@ == "after_deploy"@ && (h.after_deploy is Some && s.task@ == h.after_deploy.unwrap()@))
    }) by {
        assert(hs[i].stage@ == p[i].0 && hs[i].task@ == p[i].1);
    }
}

pub open spec fn hook_views(v: Seq<DeployHookPlan>) -> Seq<(Seq<char>, Seq<char>)> {
    v.map_values(|h: DeployHookPlan| (h.stage@, h.task@))
}

pub open spec fn health_views(v: Seq<DeployHealthPlan>) -> Seq<(Seq<char>, Seq<char>, Seq<char>)> {
    v.map_values(|h: DeployHealthPlan| (h.service@, h.kind@, h.path@))
}

/// What the plan of `env` holds, given its configuration, the model, the
/// resolved provider package and code, and the time it was made.
pub open spec fn plan_ok(
    env: Seq<char>,
    cfg: ManifestDeployEnvConfig,
    m: DeployModel,
    pkg: Option<DeployProviderPackage>,
    code: DeployCodeRef,
    secs: u64,
    r: DeployPlanReport,
) -> bool {
    let pf = preflight(cfg, m, pkg);
    &&& r.schema@ == "effigy.deploy.plan.v1"@ && r.schema_version == 1
    &&& r.deployment_id@ == deployment_id(secs, env, code)
    &&& r.env@ == env && r.provider@ == cfg.provider@
    &&& r.app.name@ == m.app.name@
    &&& r.app.project_name@ == match cfg.provider_project {
        Some(p) => p@,
        None => m.app.project_name@,
    }
    &&& r.code == code
    &&& r.release_policy.mode@ == release_policy_name(cfg.release_policy)
    &&& r.release_policy.required == (cfg.release_policy == ReleasePolicy::Required)
    &&& r.release_policy.gates_required == match cfg.preflight {
        Some(p) => p.require_release_gates,
        None => false,
    }
    &&& match cfg.state {
        Some(stack) => r.state matches Some(st) && st.stack@ == stack@ && st.lineage_id@ == stack@
            + "-planned"@ && st.planned_report_path@ == ".effigy/reports/state/"@ + stack@
            + "/latest-plan.json"@,
        None => r.state is None,
    }
    &&& r.artifact_policy.mode@ == artifact_policy_name(cfg.artifact_policy)
    &&& r.artifact_policy.blockers@.len() == 0
    &&& preflight_view(r.provider_preflight) == pf
    &&& hook_views(r.hooks@) == hook_plans(cfg.hooks)
    &&& health_views(r.health_checks@) == health_plans(m.services@)
    &&& views(r.warnings@) == if cfg.artifact_policy == ArtifactPolicy::DigestPinned {
        seq![digest_pinned_warning()]
    } else {
        Seq::<Seq<char>>::empty()
    }
    &&& views(r.blockers@) == release_blockers(cfg, code) + pf.2
    &&& r.written_report_path is None && r.written_history_path is None
}

fn push_hook(hooks: &mut Vec<DeployHookPlan>, stage: &str, task: &Option<String>)
    ensures
        hook_views(final(hooks)@) == hook_views(old(hooks)@) + match task {
            Some(t) => seq![(stage@, t@)],
            None => Seq::<(Seq<char>, Seq<char>)>::empty(),
        },
{
    if let Some(t) = task {
        hooks.push(DeployHookPlan { stage: owned(stage), task: t.clone() });
    }
}

/// The plan of a deployment of `env`: the release and provider blockers,
/// the planned state, hooks and health checks, under an id made of the
/// time, the environment and the resolved commit.
pub fn build_deploy_plan(
    env: &str,
    env_config: &ManifestDeployEnvConfig,
    model: &DeployModel,
    provider_package: Option<&DeployProviderPackage>,
    code: DeployCodeRef,
    unix_seconds: u64,
) -> (r: DeployPlanReport)
    ensures
        plan_ok(env@, *env_config, *model, opt_ref(provider_package), code, unix_seconds, r),
{
    proof {
        reveal_strlit("tag");
    }
    let required = env_config.release_policy == ReleasePolicy::Required;
    let mut blockers: Vec<String> = Vec::new();
    if required && !str_eq(code.kind.as_str(), "tag") {
        blockers.push(
            "release_policy `required` requires `code_ref = \"release-tag\"` or a tag ref".to_owned(),
        );
    }
    if required && code.resolved_commit.is_none() {
        blockers.push(
            "release_policy `required` requires a resolvable release tag or immutable commit".to_owned(),
        );
    }
    assert(views(blockers@) == release_blockers(*env_config, code));
    let mut warnings: Vec<String> = Vec::new();
    if env_config.artifact_policy == ArtifactPolicy::DigestPinned {
        warnings.push(
            "digest-pinned artifact policy will be enforced against state artifact refs in the provider execution slice".to_owned(),
        );
    }
    assert(views(warnings@) == if env_config.artifact_policy == ArtifactPolicy::DigestPinned {
        seq![digest_pinned_warning()]
    } else {
        Seq::<Seq<char>>::empty()
    });
    let state = match &env_config.state {
        Some(stack) => Some(
            DeployStatePlan {
                stack: stack.clone(),
                lineage_id: crate::text::cat(stack.as_str(), "-planned"),
                planned_report_path: crate::text::cat3(
                    ".effigy/reports/state/",
                    stack.as_str(),
                    "/latest-plan.json",
                ),
            },
        ),
        None => None,
    };
    let provider_preflight = provider_preflight_report(env_config, model, provider_package);
    let ghost before = views(blockers@);
    let mut k: usize = 0;
    while k < provider_preflight.blockers.len()
        invariant
            k <= provider_preflight.blockers.len(),
            views(blockers@) == before + views(provider_preflight.blockers@).take(k as int),
        decreases provider_preflight.blockers.len() - k,
    {
        let ghost b0 = views(blockers@);
        blockers.push(provider_preflight.blockers[k].clone());
        assert(views(blockers@) == b0.push(provider_preflight.blockers@[k as int]@));
        assert(views(provider_preflight.blockers@).take(k + 1) == views(
            provider_preflight.blockers@,
        ).take(k as int).push(provider_preflight.blockers@[k as int]@));
        k = k + 1;
    }
    assert(views(provider_preflight.blockers@).take(provider_preflight.blockers.len() as int)
        == views(provider_preflight.blockers@));
    let mut hooks: Vec<DeployHookPlan> = Vec::new();
    if let Some(h) = &env_config.hooks {
        push_hook(&mut hooks, "before_state", &h.before_state);
        push_hook(&mut hooks, "after_state", &h.after_state);
        push_hook(&mut hooks, "after_deploy", &h.after_deploy);
    }
    assert(hook_views(hooks@) == hook_plans(env_config.hooks));
    let mut health_checks: Vec<DeployHealthPlan> = Vec::new();
    let mut i: usize = 0;
    while i < model.services.len()
        invariant
            i <= model.services.len(),
            health_views(health_checks@) == health_plans(model.services@.take(i as int)),
        decreases model.services.len() - i,
    {
        let svc = &model.services[i];
        assert(model.services@.take(i + 1).drop_last() == model.services@.take(i as int));
        if let Some(h) = &svc.health {
            health_checks.push(
                DeployHealthPlan { service: svc.name.clone(), kind: h.kind.clone(), path: h.path.clone() },
            );
        }
        i = i + 1;
    }
    assert(model.services@.take(model.services.len() as int) == model.services@);
    let mut deployment_id = crate::deploy::report::utc_basic_timestamp(unix_seconds);
    deployment_id.append("-");
    let safe_env = crate::deploy::report::safe_path_component(env);
    deployment_id.append(safe_env.as_str());
    deployment_id.append("-");
    match &code.resolved_commit {
        Some(c) => deployment_id.append(c.as_str()),
        None => deployment_id.append("unresolved"),
    }
    let project_name = match &env_config.provider_project {
        Some(p) => p.clone(),
        None => model.app.project_name.clone(),
    };
    let gates_required = match &env_config.preflight {
        Some(p) => p.require_release_gates,
        None => false,
    };
    DeployPlanReport {
        schema: "effigy.deploy.plan.v1".to_owned(),
        schema_version: 1,
        deployment_id,
        env: owned(env),
        provider: env_config.provider.clone(),
        app: DeployPlanApp { name: model.app.name.clone(), project_name },
        code,
        release_policy: DeployReleasePolicyReport {
            mode: owned(env_config.release_policy.as_str()),
            required,
            gates_required,
        },
        state,
        artifact_policy: DeployArtifactPolicyReport {
            mode: owned(env_config.artifact_policy.as_str()),
            blockers: Vec::new(),
        },
        provider_preflight,
        hooks,
        health_checks,
        warnings,
        blockers,
        written_report_path: None,
        written_history_path: None,
    }
}

/// What the provider adapter did during an apply.
#[derive(Debug)]
pub struct DeployProviderOperationReport {
    pub status: String,
    pub provider_deployment_id: Option<String>,
    pub services: Vec<String>,
    pub warnings: Vec<String>,
}

/// What became of the infrastructure state during an apply.
#[derive(Debug)]
pub struct DeployApplyStateReport {
    pub status: String,
    pub lineage_id: Option<String>,
    pub apply_report_path: Option<String>,
}

/// A hook's outcome in an apply.
#[derive(Debug)]
pub struct DeployHookResult {
    pub stage: String,
    pub task: String,
    pub status: String,
}

/// A health check's outcome in an apply.
#[derive(Debug)]
pub struct DeployHealthResult {
    pub service: String,
    pub status: String,
    pub path: String,
}

/// The report of an applied deployment.
#[derive(Debug)]
pub struct DeployApplyReport {
    pub schema: String,
    pub schema_version: u8,
    pub deployment_id: String,
    pub env: String,
    pub provider: String,
    pub status: String,
    pub started_at: String,
    pub finished_at: String,
    pub code: DeployCodeRef,
    pub release_policy: DeployReleasePolicyReport,
    pub state: DeployApplyStateReport,
    pub provider_operation: DeployProviderOperationReport,
    pub hooks: Vec<DeployHookResult>,
    pub health_checks: Vec<DeployHealthResult>,
    pub written_report_path: Option<String>,
    pub written_history_path: Option<String>,
}

/// The status of an environment: where its in-flight and latest reports
/// are, when they exist.
#[derive(Debug)]
pub struct DeployStatusReport {
    pub schema: String,
    pub schema_version: u8,
    pub env: String,
    pub active_path: Option<String>,
    pub latest_path: Option<String>,
    pub warnings: Vec<String>,
}

/// One deployment in an environment's history.
#[derive(Debug)]
pub struct DeployHistoryItem {
    pub path: String,
    pub deployment_id: String,
    pub schema: String,
    pub status: String,
}

/// An environment's deployment history, newest first.
#[derive(Debug)]
pub struct DeployHistoryReport {
    pub schema: String,
    pub schema_version: u8,
    pub env: String,
    pub entries: Vec<DeployHistoryItem>,
    pub warnings: Vec<String>,
}

/// The report of a replayed deployment.
#[derive(Debug)]
pub struct DeployRedeployReport {
    pub schema: String,
    pub schema_version: u8,
    pub deployment_id: String,
    pub env: String,
    pub provider: String,
    pub status: String,
    pub source_deployment: String,
    pub started_at: String,
    pub finished_at: String,
    pub source_report_path: String,
    pub warnings: Vec<String>,
    pub written_report_path: Option<String>,
    pub written_history_path: Option<String>,
}

impl DeployCodeRef {
    /// A copy of this reference.
    pub fn copy(&self) -> (r: DeployCodeRef)
        ensures
            r == *self,
    {
        DeployCodeRef {
            requested_ref: self.requested_ref.clone(),
            kind: self.kind.clone(),
            resolved_ref: crate::deploy::model::copy_opt(&self.resolved_ref),
            resolved_commit: crate::deploy::model::copy_opt(&self.resolved_commit),
        }
    }
}

impl DeployReleasePolicyReport {
    /// A copy of this report.
    pub fn copy(&self) -> (r: DeployReleasePolicyReport)
        ensures
            r == *self,
    {
        DeployReleasePolicyReport {
            mode: self.mode.clone(),
            required: self.required,
            gates_required: self.gates_required,
        }
    }
}

pub open spec fn render_apply_warning() -> Seq<char> {
    "Render adapter recorded the transaction boundary; live Render API/CLI mutation is deferred until provider credentials and existing services are configured"@
}

pub open spec fn railway_apply_warning() -> Seq<char> {
    "Railway adapter recorded the transaction boundary; live Railway CLI mutation is deferred until provider credentials and existing services are configured"@
}

pub open spec fn generic_apply_warning() -> Seq<char> {
    "provider adapter recorded the transaction boundary; live provider mutation is deferred"@
}

/// What the provider adapter records when a plan is applied: success, an
/// operation id of provider and deployment, and the adapter's note.
pub open spec fn provider_operation_ok(plan: DeployPlanReport, r: DeployProviderOperationReport) -> bool {
    let provider = lower(trim(plan.provider@));
    &&& r.status@ == "succeeded"@
    &&& opt_view(r.provider_deployment_id) == Some(plan.provider@ + "-"@ + plan.deployment_id@)
    &&& r.services@.len() == 0
    &&& views(r.warnings@) == seq![
        if provider == "render"@ {
            render_apply_warning()
        } else if provider == "railway"@ {
            railway_apply_warning()
        } else {
            generic_apply_warning()
        },
    ]
}

/// The provider operation of applying `plan`.
pub fn provider_apply_report(plan: &DeployPlanReport) -> (r: DeployProviderOperationReport)
    ensures
        provider_operation_ok(*plan, r),
{
    proof {
        reveal_strlit("render");
        reveal_strlit("railway");
    }
    let t = crate::text::trimmed(plan.provider.as_str());
    let provider = crate::text::ascii_lowercase(t.as_str());
    let warning = if str_eq(provider.as_str(), "render") {
        "Render adapter recorded the transaction boundary; live Render API/CLI mutation is deferred until provider credentials and existing services are configured".to_owned()
    } else if str_eq(provider.as_str(), "railway") {
        "Railway adapter recorded the transaction boundary; live Railway CLI mutation is deferred until provider credentials and existing services are configured".to_owned()
    } else {
        "provider adapter recorded the transaction boundary; live provider mutation is deferred".to_owned()
    };
    let id = crate::text::cat3(plan.provider.as_str(), "-", plan.deployment_id.as_str());
    let ghost w = warning@;
    let warnings = vec![warning];
    assert(views(warnings@) == seq![w]);
    DeployProviderOperationReport {
        status: "succeeded".to_owned(),
        provider_deployment_id: Some(id),
        services: Vec::new(),
        warnings,
    }
}

/// What the report of applying `plan` to `env` holds, before it is
/// written: the plan's identity and code, the operation's outcome, and its
/// hooks and health checks, all recorded as planned.
pub open spec fn apply_report_ok(
    env: Seq<char>,
    plan: DeployPlanReport,
    started_at: Seq<char>,
    finished_at: Seq<char>,
    r: DeployApplyReport,
) -> bool {
    &&& r.schema@ == "effigy.deploy.apply.v1"@ && r.schema_version == 1
    &&& r.deployment_id@ == plan.deployment_id@ && r.env@ == env && r.provider@ == plan.provider@
    &&& provider_operation_ok(plan, r.provider_operation)
    &&& r.status@ == if r.provider_operation.status@ == "succeeded"@ {
        "succeeded"@
    } else {
        "failed"@
    }
    &&& r.started_at@ == started_at && r.finished_at@ == finished_at
    &&& r.code == plan.code && r.release_policy == plan.release_policy
    &&& r.state.status@ == if plan.state is Some {
        "planned"@
    } else {
        "skipped"@
    }
    &&& opt_view(r.state.lineage_id) == match plan.state {
        Some(st) => Some(st.lineage_id@),
        None => None,
    }
    &&& r.state.apply_report_path is None
    &&& r.hooks@.map_values(|h: DeployHookResult| (h.stage@, h.task@, h.status@))
        == plan.hooks@.map_values(|h: DeployHookPlan| (h.stage@, h.task@, "planned"@))
    &&& r.health_checks@.map_values(|h: DeployHealthResult| (h.service@, h.status@, h.path@))
        == plan.health_checks@.map_values(
        |h: DeployHealthPlan| (h.service@, "planned"@, h.path@),
    )
    &&& r.written_report_path is None && r.written_history_path is None
}

/// The report of applying `plan` to `env`, started and finished at the
/// given times.
pub fn build_deploy_apply_report(
    env: &str,
    plan: &DeployPlanReport,
    started_at: String,
    finished_at: String,
) -> (r: DeployApplyReport)
    ensures
        apply_report_ok(env@, *plan, started_at@, finished_at@, r),
{
    proof {
        reveal_strlit("succeeded");
    }
    let provider_operation = provider_apply_report(plan);
    let status = if str_eq(provider_operation.status.as_str(), "succeeded") {
        "succeeded".to_owned()
    } else {
        "failed".to_owned()
    };
    let mut hooks: Vec<DeployHookResult> = Vec::new();
    let mut i: usize = 0;
    while i < plan.hooks.len()
        invariant
            i <= plan.hooks.len(),
            hooks@.map_values(|h: DeployHookResult| (h.stage@, h.task@, h.status@))
                == plan.hooks@.take(i as int).map_values(
                |h: DeployHookPlan| (h.stage@, h.task@, "planned"@),
            ),
        decreases plan.hooks.len() - i,
    {
        let h = &plan.hooks[i];
        let ghost before = hooks@;
        hooks.push(DeployHookResult { stage: h.stage.clone(), task: h.task.clone(), status: "planned".to_owned() });
        assert(hooks@.map_values(|h: DeployHookResult| (h.stage@, h.task@, h.status@)) =~= before.map_values(|h: DeployHookResult| (h.stage@, h.task@, h.status@)).push((h.stage@, h.task@, "planned"@)));
        assert(plan.hooks@.take(i + 1).map_values(|h: DeployHookPlan| (h.stage@, h.task@, "planned"@)) =~= plan.hooks@.take(i as int).map_values(|h: DeployHookPlan| (h.stage@, h.task@, "planned"@)).push((h.stage@, h.task@, "planned"@)));
        assert(plan.hooks@.take(i + 1) == plan.hooks@.take(i as int).push(*h));
        i = i + 1;
    }
    assert(plan.hooks@.take(plan.hooks.len() as int) == plan.hooks@);
    let mut health_checks: Vec<DeployHealthResult> = Vec::new();
    let mut j: usize = 0;
    while j < plan.health_checks.len()
        invariant
            j <= plan.health_checks.len(),
            health_checks@.map_values(|h: DeployHealthResult| (h.service@, h.status@, h.path@))
                == plan.health_checks@.take(j as int).map_values(
                |h: DeployHealthPlan| (h.service@, "planned"@, h.path@),
            ),
        decreases plan.health_checks.len() - j,
    {
        let h = &plan.health_checks[j];
        let ghost before = health_checks@;
        health_checks.push(DeployHealthResult { service: h.service.clone(), status: "planned".to_owned(), path: h.path.clone() });
        assert(health_checks@.map_values(|h: DeployHealthResult| (h.service@, h.status@, h.path@)) =~= before.map_values(|h: DeployHealthResult| (h.service@, h.status@, h.path@)).push((h.service@, "planned"@, h.path@)));
        assert(plan.health_checks@.take(j + 1).map_values(|h: DeployHealthPlan| (h.service@, "planned"@, h.path@)) =~= plan.health_checks@.take(j as int).map_values(|h: DeployHealthPlan| (h.service@, "planned"@, h.path@)).push((h.service@, "planned"@, h.path@)));
        assert(plan.health_checks@.take(j + 1) == plan.health_checks@.take(j as int).push(*h));
        j = j + 1;
    }
    assert(plan.health_checks@.take(plan.health_checks.len() as int) == plan.health_checks@);
    let state = DeployApplyStateReport {
        status: if plan.state.is_some() {
            "planned".to_owned()
        } else {
            "skipped".to_owned()
        },
        lineage_id: match &plan.state {
            Some(st) => Some(st.lineage_id.clone()),
            None => None,
        },
        apply_report_path: None,
    };
    DeployApplyReport {
        schema: "effigy.deploy.apply.v1".to_owned(),
        schema_version: 1,
        deployment_id: plan.deployment_id.clone(),
        env: owned(env),
        provider: plan.provider.clone(),
        status,
        started_at,
        finished_at,
        code: plan.code.copy(),
        release_policy: plan.release_policy.copy(),
        state,
        provider_operation,
        hooks,
        health_checks,
        written_report_path: None,
        written_history_path: None,
    }
}

} // verus!