//! Reading the package tables of a `Cargo.toml`, for the distribution
//! metadata checks.
use vstd::prelude::*;
use crate::deploy::bundle::{table_get, table_get_exec, BundleValue};
use crate::deploy::render::opt_view;
use crate::distribution::CargoPackageFields;
use crate::error::{is_invocation, RunnerError};

verus! {

#[verifier::external_type_specification]
#[verifier::external_body]
pub struct ExTomlValue(toml::Value);

/// The value the TOML document `text` parses to, or `None` when it does
/// not parse.
pub uninterp spec fn toml_document_of(text: Seq<char>) -> Option<BundleValue>;

/// `toml::from_str::<toml::Value>`: the document `text` parses to, as a
/// `BundleValue` (strings, integers, arrays and tables, each table in the
/// key order `toml::Table` keeps; any other value is `Other`), or `None`
/// when the text is not TOML.
#[verifier::external_body]
fn parse_toml(text: &str) -> (r: Option<BundleValue>)
    ensures
        r == toml_document_of(text@),
{
    match toml::from_str::<toml::Value>(text) {
        Ok(v) => Some(bundle_value_from_toml(v)),
        Err(_) => None,
    }
}

/// Converts a `toml::Value` into a `BundleValue`, variant by variant.
#[verifier::external_body]
fn bundle_value_from_toml(v: toml::Value) -> BundleValue {
    match v {
        toml::Value::String(s) => BundleValue::Str(s),
        toml::Value::Integer(n) => BundleValue::Int(n),
        toml::Value::Array(items) => BundleValue::Array(items.into_iter().map(bundle_value_from_toml).collect()),
        toml::Value::Table(t) => BundleValue::Table(t.into_iter().map(|(k, x)| (k, bundle_value_from_toml(x))).collect()),
        _ => BundleValue::Other,
    }
}

/// The table keyed `key` in table `v`, if `v` is a table holding one.
pub open spec fn table_at(v: BundleValue, key: Seq<char>) -> Option<Seq<(String, BundleValue)>> {
    match v {
        BundleValue::Table(t) => match table_get(t@, key) {
            Some(BundleValue::Table(x)) => Some(x@),
            _ => None,
        },
        _ => None,
    }
}

/// `[workspace.package]` of a document.
pub open spec fn workspace_package_at(doc: BundleValue) -> Option<Seq<(String, BundleValue)>> {
    match doc {
        BundleValue::Table(t) => match table_get(t@, "workspace"@) {
            Some(w) => table_at(w, "package"@),
            None => None,
        },
        _ => None,
    }
}

/// The string entry keyed `key` of a table; absent when missing or not a
/// string.
pub open spec fn str_entry(t: Seq<(String, BundleValue)>, key: Seq<char>) -> Option<Seq<char>> {
    match table_get(t, key) {
        Some(BundleValue::Str(s)) => Some(s@),
        _ => None,
    }
}

/// Whether `f` holds the string fields of table `t`.
pub open spec fn fields_of(f: CargoPackageFields, t: Seq<(String, BundleValue)>) -> bool {
    &&& opt_view(f.name) == str_entry(t, "name"@)
    &&& opt_view(f.version) == str_entry(t, "version"@)
    &&& opt_view(f.license) == str_entry(t, "license"@)
    &&& opt_view(f.description) == str_entry(t, "description"@)
}

/// Whether `o` is read from table `t`: both absent, or both present with
/// `o` holding `t`'s fields.
pub open spec fn read_from(o: Option<CargoPackageFields>, t: Option<Seq<(String, BundleValue)>>) -> bool {
    match (o, t) {
        (None, None) => true,
        (Some(f), Some(t)) => fields_of(f, t),
        _ => false,
    }
}

fn str_field(t: &Vec<(String, BundleValue)>, key: &str) -> (r: Option<String>)
    ensures
        opt_view(r) == str_entry(t@, key@),
{
    match table_get_exec(t, key) {
        Some(BundleValue::Str(s)) => Some(crate::text::owned(s.as_str())),
        _ => None,
    }
}

fn fields_from(t: &Vec<(String, BundleValue)>) -> (f: CargoPackageFields)
    ensures
        fields_of(f, t@),
{
    CargoPackageFields {
        name: str_field(t, "name"),
        version: str_field(t, "version"),
        license: str_field(t, "license"),
        description: str_field(t, "description"),
    }
}

fn sub_table<'a>(v: &'a BundleValue, key: &str) -> (r: Option<&'a Vec<(String, BundleValue)>>)
    ensures
        match r {
            Some(x) => table_at(*v, key@) == Some(x@),
            None => table_at(*v, key@) is None,
        },
{
    match v {
        BundleValue::Table(t) => match table_get_exec(t, key) {
            Some(BundleValue::Table(x)) => Some(x),
            _ => None,
        },
        _ => None,
    }
}

/// The `[package]` and `[workspace.package]` tables of a parsed
/// `Cargo.toml` document, each with its string fields.
pub fn package_tables_of(doc: &BundleValue) -> (r: (Option<CargoPackageFields>, Option<CargoPackageFields>))
    ensures
        read_from(r.0, table_at(*doc, "package"@)),
        read_from(r.1, workspace_package_at(*doc)),
{
    let package = match sub_table(doc, "package") {
        Some(t) => Some(fields_from(t)),
        None => None,
    };
    let workspace = match doc {
        BundleValue::Table(t) => match table_get_exec(t, "workspace") {
            Some(w) => match sub_table(w, "package") {
                Some(p) => Some(fields_from(p)),
                None => None,
            },
            None => None,
        },
        _ => None,
    };
    (package, workspace)
}

/// The `[package]` and `[workspace.package]` tables of a `Cargo.toml`,
/// each with its string fields; an error when the text is not TOML.
pub fn cargo_package_tables(cargo_toml: &str) -> (r: Result<
    (Option<CargoPackageFields>, Option<CargoPackageFields>),
    RunnerError,
>)
    ensures
        match toml_document_of(cargo_toml@) {
            None => r matches Err(e) && is_invocation(e, "failed to parse Cargo.toml"@),
            Some(doc) => r matches Ok((p, w)) && read_from(p, table_at(doc, "package"@)) && read_from(
                w,
                workspace_package_at(doc),
            ),
        },
{
    match parse_toml(cargo_toml) {
        Some(d) => Ok(package_tables_of(&d)),
        None => Err(RunnerError::task_invocation("failed to parse Cargo.toml")),
    }
}

} // verus!
