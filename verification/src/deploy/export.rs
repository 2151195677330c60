//! `deploy export`: a provider's files for the model, written under the
//! export path unless only planned, and the result that lists them.
use vstd::prelude::*;
use crate::deploy::model::{DeployModel, DeployWarning};
use crate::deploy::railway::{build_railway_export, RailwayConfigFile, RailwayExportReport};
use crate::deploy::render::{build_render_export, RenderBlueprint};
use crate::deploy::text::{bullets, section};
use crate::error::RunnerError;
use crate::text::{dec, join, join_seq, owned, views};

verus! {

/// A file of an export, by its path under the export root.
#[derive(Debug)]
pub struct DeployExportFile {
    pub relative_path: String,
    pub contents: String,
}

/// The result of an export.
#[derive(Debug)]
pub struct DeployExportResult {
    pub schema: String,
    pub schema_version: u64,
    pub provider: String,
    pub plan: bool,
    pub path: String,
    pub files: Vec<String>,
    pub warnings: Vec<DeployWarning>,
}

pub open spec fn relative_paths(files: Seq<DeployExportFile>) -> Seq<Seq<char>> {
    files.map_values(|f: DeployExportFile| f.relative_path@)
}

pub open spec fn warning_items(ws: Seq<DeployWarning>) -> Seq<Seq<char>> {
    ws.map_values(|w: DeployWarning| "["@ + w.code@ + "] "@ + w.message@)
}

/// The lines of an export's text: what was exported where, the files, and
/// the warnings if there are any.
pub open spec fn export_lines(
    provider: Seq<char>,
    path: Seq<char>,
    plan: bool,
    files: Seq<Seq<char>>,
    warnings: Seq<DeployWarning>,
) -> Seq<Seq<char>> {
    seq![
        if plan {
            "[deploy] planned "@ + provider + " export to "@ + path
        } else {
            "[deploy] exported "@ + provider + " files to "@ + path
        },
        Seq::empty(),
        "Files ("@ + dec(files.len()) + ")"@,
    ] + bullets(files) + section("Warnings"@, warning_items(warnings))
}

/// Whether `write`, handed the files, may answer `out`.
pub open spec fn files_written<W: FnOnce(&Vec<DeployExportFile>) -> Result<(), RunnerError>>(
    write: W,
    files: Seq<DeployExportFile>,
    out: Result<(), RunnerError>,
) -> bool {
    exists|f: &Vec<DeployExportFile>| f@ == files && #[trigger] write.ensures((f,), out)
}

fn warnings_of(ws: &Vec<DeployWarning>) -> (r: Vec<String>)
    ensures
        views(r@) == warning_items(ws@),
{
    let mut out: Vec<String> = Vec::new();
    let mut i: usize = 0;
    while i < ws.len()
        invariant
            i <= ws.len(),
            views(out@) == warning_items(ws@).take(i as int),
        decreases ws.len() - i,
    {
        let mut s = crate::text::cat3("[", ws[i].code.as_str(), "] ");
        s.append(ws[i].message.as_str());
        let ghost before = views(out@);
        out.push(s);
        assert(views(out@) == before.push(s@));
        assert(warning_items(ws@).take(i + 1) == warning_items(ws@).take(i as int).push(
            "["@ + ws@[i as int].code@ + "] "@ + ws@[i as int].message@,
        ));
        i = i + 1;
    }
    assert(warning_items(ws@).take(ws.len() as int) == warning_items(ws@));
    out
}

/// Writes an export's files (`write`) unless it is only planned, and
/// answers the result that lists them, with its text.
pub fn run_file_export<W: FnOnce(&Vec<DeployExportFile>) -> Result<(), RunnerError>>(
    provider: &str,
    path: &str,
    plan: bool,
    files: Vec<DeployExportFile>,
    warnings: Vec<DeployWarning>,
    write: W,
) -> (r: Result<(DeployExportResult, String), RunnerError>)
    requires
        forall|f: &Vec<DeployExportFile>| write.requires((f,)),
    ensures
        match r {
            Ok((res, text)) => {
                &&& !plan ==> files_written(write, files@, Ok(()))
                &&& res.schema@ == "effigy.deploy.export.v1"@ && res.schema_version == 1
                &&& res.provider@ == provider@ && res.plan == plan && res.path@ == path@
                &&& views(res.files@) == relative_paths(files@)
                &&& res.warnings == warnings
                &&& text@ == join_seq(
                    export_lines(provider@, path@, plan, relative_paths(files@), warnings@),
                    "\n"@,
                )
            },
            Err(e) => !plan && files_written(write, files@, Err(e)),
        },
{
    if !plan {
        match write(&files) {
            Ok(u) => {
                proof {
                    crate::error::lemma_unit(u);
                }
            },
            Err(e) => {
                assert(files_written(write, files@, Err(e)));
                return Err(e);
            },
        }
        assert(files_written(write, files@, Ok(())));
    }
    let mut names: Vec<String> = Vec::new();
    let mut i: usize = 0;
    while i < files.len()
        invariant
            i <= files.len(),
            views(names@) == relative_paths(files@).take(i as int),
        decreases files.len() - i,
    {
        let ghost before = views(names@);
        names.push(files[i].relative_path.clone());
        assert(views(names@) == before.push(files@[i as int].relative_path@));
        assert(relative_paths(files@).take(i + 1) == relative_paths(files@).take(i as int).push(
            files@[i as int].relative_path@,
        ));
        i = i + 1;
    }
    assert(relative_paths(files@).take(files.len() as int) == relative_paths(files@));
    let mut lines: Vec<String> = Vec::new();
    let head = if plan {
        let mut h = crate::text::cat3("[deploy] planned ", provider, " export to ");
        h.append(path);
        h
    } else {
        let mut h = crate::text::cat3("[deploy] exported ", provider, " files to ");
        h.append(path);
        h
    };
    lines.push(head);
    lines.push(String::new());
    let mut count = owned("Files (");
    crate::text::push_dec(&mut count, names.len() as u64);
    count.append(")");
    lines.push(count);
    let ghost top = views(lines@);
    assert(views(names@).len() == relative_paths(files@).len());
    assert(top == seq![
        if plan {
            "[deploy] planned "@ + provider@ + " export to "@ + path@
        } else {
            "[deploy] exported "@ + provider@ + " files to "@ + path@
        },
        Seq::<char>::empty(),
        "Files ("@ + dec(relative_paths(files@).len()) + ")"@,
    ]);
    let mut k: usize = 0;
    while k < names.len()
        invariant
            k <= names.len(),
            views(lines@) == top + bullets(views(names@)).take(k as int),
        decreases names.len() - k,
    {
        let line = crate::text::cat("- ", names[k].as_str());
        let ghost before = views(lines@);
        lines.push(line);
        assert(views(lines@) == before.push(line@));
        assert(bullets(views(names@)).take(k + 1) == bullets(views(names@)).take(k as int).push(
            "- "@ + names@[k as int]@,
        ));
        k = k + 1;
    }
    assert(bullets(views(names@)).take(names.len() as int) == bullets(views(names@)));
    let ghost after_files = views(lines@);
    assert(after_files == top + bullets(relative_paths(files@)));
    let items = warnings_of(&warnings);
    if items.len() > 0 {
        let ghost before = views(lines@);
        lines.push(String::new());
        let mut h = crate::text::cat("Warnings", " (");
        crate::text::push_dec(&mut h, items.len() as u64);
        h.append(")");
        lines.push(h);
        let ghost mid = views(lines@);
        assert(mid == before + seq![Seq::<char>::empty(), "Warnings"@ + " ("@ + dec(items@.len()) + ")"@]);
        let mut j: usize = 0;
        while j < items.len()
            invariant
                j <= items.len(),
                views(lines@) == mid + bullets(views(items@)).take(j as int),
            decreases items.len() - j,
        {
            let line = crate::text::cat("- ", items[j].as_str());
            let ghost b = views(lines@);
            lines.push(line);
            assert(views(lines@) == b.push(line@));
            assert(bullets(views(items@)).take(j + 1) == bullets(views(items@)).take(j as int).push(
                "- "@ + items@[j as int]@,
            ));
            j = j + 1;
        }
        assert(bullets(views(items@)).take(items.len() as int) == bullets(views(items@)));
        let ghost hdr = seq![Seq::<char>::empty(), "Warnings"@ + " ("@ + dec(items@.len()) + ")"@];
        assert(section("Warnings"@, warning_items(warnings@)) == hdr + bullets(views(items@)));
        assert(views(lines@) == (after_files + hdr) + bullets(views(items@)));
        assert((after_files + hdr) + bullets(views(items@)) =~= after_files + (hdr + bullets(views(items@))));
        assert(views(lines@) == after_files + section("Warnings"@, warning_items(warnings@)));
    } else {
        assert(views(lines@) == after_files + section("Warnings"@, warning_items(warnings@)));
    }
    assert(views(lines@) == export_lines(provider@, path@, plan, relative_paths(files@), warnings@));
    let text = join(&lines, "\n");
    let res = DeployExportResult {
        schema: "effigy.deploy.export.v1".to_owned(),
        schema_version: 1,
        provider: owned(provider),
        plan,
        path: owned(path),
        files: names,
        warnings,
    };
    Ok((res, text))
}

/// Whether `encode`, handed `value`, may answer `out`.
pub open spec fn encoded<T, E: Fn(&T) -> Result<String, RunnerError>>(
    encode: E,
    value: T,
    out: Result<String, RunnerError>,
) -> bool {
    exists|v: &T| *v == value && #[trigger] encode.ensures((v,), out)
}

/// `deploy export render`: the blueprint of the model, encoded by `encode`
/// as `render.yaml`.
pub fn run_deploy_export_render<
    E: Fn(&RenderBlueprint) -> Result<String, RunnerError>,
    W: FnOnce(&Vec<DeployExportFile>) -> Result<(), RunnerError>,
>(model: &DeployModel, path: &str, plan: bool, encode: &E, write: W) -> (r: Result<
    (DeployExportResult, String),
    RunnerError,
>)
    requires
        forall|b: &RenderBlueprint| encode.requires((b,)),
        forall|f: &Vec<DeployExportFile>| write.requires((f,)),
    ensures
        match r {
            Ok((res, text)) => exists|p: crate::deploy::render::RenderExportPlan, yaml: String|
                {
                    &&& #[trigger] crate::deploy::render::render_export_ok(*model, p)
                    &&& #[trigger] encoded(*encode, p.blueprint, Ok(yaml))
                    &&& !plan ==> exists|fs: Seq<DeployExportFile>|
                        fs.len() == 1 && fs[0].relative_path@ == "render.yaml"@ && fs[0].contents
                            == yaml && #[trigger] files_written(write, fs, Ok(()))
                    &&& res.schema@ == "effigy.deploy.export.v1"@ && res.schema_version == 1
                    &&& res.provider@ == "render"@ && res.plan == plan && res.path@ == path@
                    &&& views(res.files@) == seq!["render.yaml"@]
                    &&& res.warnings@ == crate::deploy::model::model_warnings(*model)
                    &&& text@ == join_seq(
                        export_lines("render"@, path@, plan, seq!["render.yaml"@], res.warnings@),
                        "\n"@,
                    )
                },
            Err(e) => {
                ||| crate::deploy::render::render_export_err(*model, e)
                ||| exists|b: RenderBlueprint| #[trigger] encoded(*encode, b, Err(e))
                ||| !plan && exists|fs: Seq<DeployExportFile>| #[trigger] files_written(write, fs, Err(e))
            },
        },
{
    let export = match build_render_export(model) {
        Ok(x) => x,
        Err(e) => return Err(e),
    };
    let yaml = match encode(&export.blueprint) {
        Ok(y) => y,
        Err(e) => {
            assert(encoded(*encode, export.blueprint, Err(e)));
            return Err(e);
        },
    };
    let ghost yv = yaml;
    assert(encoded(*encode, export.blueprint, Ok(yv)));
    let files = vec![DeployExportFile { relative_path: "render.yaml".to_owned(), contents: yaml }];
    let ghost fs = files@;
    let ghost p = export;
    assert(relative_paths(fs) == seq!["render.yaml"@]);
    let r = run_file_export("render", path, plan, files, export.warnings, write);
    assert(crate::deploy::render::render_export_ok(*model, p));
    r
}

/// The files of a Railway export: each service's config, then the report.
pub open spec fn railway_files(m: DeployModel) -> Seq<Seq<char>> {
    m.services@.map_values(|s: crate::deploy::model::DeployService| crate::deploy::railway::config_path(s.name@))
        + seq!["report.json"@]
}

/// `deploy export railway`: each service's config encoded by
/// `encode_config`, and the report encoded by `encode_report` as
/// `report.json`.
pub fn run_deploy_export_railway<
    C: Fn(&RailwayConfigFile) -> Result<String, RunnerError>,
    E: Fn(&RailwayExportReport) -> Result<String, RunnerError>,
    W: FnOnce(&Vec<DeployExportFile>) -> Result<(), RunnerError>,
>(
    model: &DeployModel,
    path: &str,
    plan: bool,
    encode_config: &C,
    encode_report: &E,
    write: W,
) -> (r: Result<(DeployExportResult, String), RunnerError>)
    requires
        forall|c: &RailwayConfigFile| encode_config.requires((c,)),
        forall|c: &RailwayExportReport| encode_report.requires((c,)),
        forall|f: &Vec<DeployExportFile>| write.requires((f,)),
    ensures
        match r {
            Ok((res, text)) => exists|p: crate::deploy::railway::RailwayExportPlan, fs: Seq<DeployExportFile>|
                {
                    &&& #[trigger] crate::deploy::railway::railway_export_ok(*model, path@, p)
                    &&& #[trigger] relative_paths(fs) == railway_files(*model)
                    &&& forall|i: int|
                        0 <= i < p.configs@.len() ==> encoded(
                            *encode_config,
                            p.configs@[i].1,
                            Ok(#[trigger] fs[i].contents),
                        )
                    &&& encoded(*encode_report, p.report, Ok(fs.last().contents))
                    &&& !plan ==> files_written(write, fs, Ok(()))
                    &&& res.schema@ == "effigy.deploy.export.v1"@ && res.schema_version == 1
                    &&& res.provider@ == "railway"@ && res.plan == plan && res.path@ == path@
                    &&& views(res.files@) == railway_files(*model)
                    &&& res.warnings@ == crate::deploy::model::model_warnings(*model)
                    &&& text@ == join_seq(
                        export_lines("railway"@, path@, plan, railway_files(*model), res.warnings@),
                        "\n"@,
                    )
                },
            Err(e) => {
                ||| crate::deploy::railway::railway_export_err(*model, e)
                ||| exists|c: RailwayConfigFile| #[trigger] encoded(*encode_config, c, Err(e))
                ||| exists|c: RailwayExportReport| #[trigger] encoded(*encode_report, c, Err(e))
                ||| !plan && exists|fs: Seq<DeployExportFile>| #[trigger] files_written(write, fs, Err(e))
            },
        },
{
    let export = match build_railway_export(model, path) {
        Ok(x) => x,
        Err(e) => return Err(e),
    };
    let ghost p = export;
    let mut files: Vec<DeployExportFile> = Vec::new();
    let mut i: usize = 0;
    while i < export.configs.len()
        invariant
            i <= export.configs.len(),
            p == export,
            crate::deploy::railway::railway_export_ok(*model, path@, p),
            files@.len() == i,
            forall|k: int|
                0 <= k < i ==> (#[trigger] files@[k]).relative_path@ == crate::deploy::railway::config_path(
                    model.services@[k].name@,
                ) && encoded(*encode_config, p.configs@[k].1, Ok(files@[k].contents)),
            forall|c: &RailwayConfigFile| encode_config.requires((c,)),
        decreases export.configs.len() - i,
    {
        let entry = &export.configs[i];
        let contents = match encode_config(&entry.1) {
            Ok(c) => c,
            Err(e) => {
                assert(encoded(*encode_config, entry.1, Err(e)));
                return Err(e);
            },
        };
        assert(encoded(*encode_config, p.configs@[i as int].1, Ok(contents)));
        files.push(DeployExportFile { relative_path: entry.0.clone(), contents });
        i = i + 1;
    }
    let report_json = match encode_report(&export.report) {
        Ok(c) => c,
        Err(e) => {
            assert(encoded(*encode_report, export.report, Err(e)));
            return Err(e);
        },
    };
    assert(encoded(*encode_report, p.report, Ok(report_json)));
    files.push(DeployExportFile { relative_path: "report.json".to_owned(), contents: report_json });
    let ghost fs = files@;
    assert(relative_paths(fs) =~= railway_files(*model));
    run_file_export("railway", path, plan, files, export.warnings, write)
}

/// A warning a provider reported during an export.
pub open spec fn provider_warning(message: Seq<char>) -> (Seq<char>, Seq<char>, Option<Seq<char>>, Seq<char>, Seq<char>) {
    ("provider-warning"@, "export"@, None, message, "warn"@)
}

pub open spec fn warning_view(w: DeployWarning) -> (Seq<char>, Seq<char>, Option<Seq<char>>, Seq<char>, Seq<char>) {
    (
        w.code@,
        w.scope@,
        match w.target {
            Some(t) => Some(t@),
            None => None,
        },
        w.message@,
        w.severity@,
    )
}

/// The warnings of a provider export: the model's own, then each one the
/// provider reported, as a `provider-warning` of the export.
pub fn provider_export_warnings(model: &DeployModel, reported: &Vec<String>) -> (r: Vec<DeployWarning>)
    ensures
        r@.len() == crate::deploy::model::model_warnings(*model).len() + reported@.len(),
        forall|i: int|
            0 <= i < crate::deploy::model::model_warnings(*model).len() ==> #[trigger] r@[i]
                == crate::deploy::model::model_warnings(*model)[i],
        forall|j: int|
            0 <= j < reported@.len() ==> warning_view(
                #[trigger] r@[crate::deploy::model::model_warnings(*model).len() + j],
            ) == provider_warning(reported@[j]@),
{
    let mut out = crate::deploy::model::collect_model_warnings(model);
    let ghost base = out@;
    let mut j: usize = 0;
    while j < reported.len()
        invariant
            j <= reported.len(),
            base == crate::deploy::model::model_warnings(*model),
            out@.len() == base.len() + j,
            forall|i: int| 0 <= i < base.len() ==> #[trigger] out@[i] == base[i],
            forall|k: int|
                0 <= k < j ==> warning_view(#[trigger] out@[base.len() + k]) == provider_warning(reported@[k]@),
        decreases reported.len() - j,
    {
        out.push(
            DeployWarning {
                code: owned("provider-warning"),
                scope: owned("export"),
                target: None,
                message: owned(reported[j].as_str()),
                severity: owned("warn"),
            },
        );
        j = j + 1;
    }
    out
}

/// A provider export's result and text, for the files the provider wrote
/// (or would write, when only planned) and the export's warnings.
pub fn run_deploy_export(
    provider: &str,
    path: &str,
    plan: bool,
    files: &Vec<String>,
    warnings: Vec<DeployWarning>,
) -> (r: (DeployExportResult, String))
    ensures
        r.0.schema@ == "effigy.deploy.export.v1"@,
        r.0.schema_version == 1,
        r.0.provider@ == provider@,
        r.0.plan == plan,
        r.0.path@ == path@,
        views(r.0.files@) == views(files@),
        r.0.warnings == warnings,
        r.1@ == join_seq(export_lines(provider@, path@, plan, views(files@), warnings@), "\n"@),
{
    let mut listed: Vec<DeployExportFile> = Vec::new();
    let mut i: usize = 0;
    while i < files.len()
        invariant
            i <= files.len(),
            relative_paths(listed@) == views(files@).take(i as int),
        decreases files.len() - i,
    {
        let ghost before = relative_paths(listed@);
        listed.push(DeployExportFile { relative_path: owned(files[i].as_str()), contents: String::new() });
        assert(relative_paths(listed@) =~= before.push(views(files@)[i as int]));
        assert(views(files@).take(i + 1) =~= views(files@).take(i as int).push(views(files@)[i as int]));
        i = i + 1;
    }
    assert(views(files@).take(files.len() as int) =~= views(files@));
    let already_written = |f: &Vec<DeployExportFile>| -> (r: Result<(), RunnerError>)
        ensures
            r is Ok,
        { Ok(()) };
    match run_file_export(provider, path, plan, listed, warnings, already_written) {
        Ok(done) => done,
        Err(e) => {
            assert(false);
            (
                DeployExportResult {
                    schema: String::new(),
                    schema_version: 0,
                    provider: String::new(),
                    plan,
                    path: String::new(),
                    files: Vec::new(),
                    warnings: Vec::new(),
                },
                String::new(),
            )
        },
    }
}

} // verus!
