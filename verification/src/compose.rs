//! Reading a compose file: the YAML document as plain values, and the
//! services, `depends_on` entries and volume specs that runtime
//! preparation reads from it.
use vstd::prelude::*;
use crate::mounts::{ComposeFile, ComposeService, DependsOn};

verus! {

#[verifier::external_type_specification]
#[verifier::external_body]
pub struct ExYamlValue(serde_yaml::Value);

/// A YAML value. Numbers are held as their text.
#[derive(Debug)]
pub enum YamlNode {
    Null,
    Bool(bool),
    Number(String),
    Str(String),
    Sequence(Vec<YamlNode>),
    /// A mapping's entries, in document order.
    Mapping(Vec<(YamlNode, YamlNode)>),
    /// A value with a `!tag`.
    Tagged(String, Box<YamlNode>),
}

/// The document the YAML text `text` parses to, or `None` when it does not
/// parse.
pub uninterp spec fn yaml_of(text: Seq<char>) -> Option<YamlNode>;

/// `serde_yaml::from_str::<serde_yaml::Value>`: the document `text` parses
/// to, converted variant by variant into a `YamlNode` (a mapping's entries
/// in the order `serde_yaml::Mapping` keeps, which is document order), or
/// `None` when the text is not YAML.
#[verifier::external_body]
fn parse_yaml(text: &str) -> (r: Option<YamlNode>)
    ensures
        r == yaml_of(text@),
{
    match serde_yaml::from_str::<serde_yaml::Value>(text) {
        Ok(v) => Some(yaml_node_from(v)),
        Err(_) => None,
    }
}

/// Converts a `serde_yaml::Value` into a `YamlNode`, variant by variant.
#[verifier::external_body]
fn yaml_node_from(v: serde_yaml::Value) -> YamlNode {
    match v {
        serde_yaml::Value::Null => YamlNode::Null,
        serde_yaml::Value::Bool(b) => YamlNode::Bool(b),
        serde_yaml::Value::Number(n) => YamlNode::Number(n.to_string()),
        serde_yaml::Value::String(s) => YamlNode::Str(s),
        serde_yaml::Value::Sequence(items) => YamlNode::Sequence(items.into_iter().map(yaml_node_from).collect()),
        serde_yaml::Value::Mapping(m) => YamlNode::Mapping(m.into_iter().map(|(k, x)| (yaml_node_from(k), yaml_node_from(x))).collect()),
        serde_yaml::Value::Tagged(t) => YamlNode::Tagged(t.tag.to_string(), Box::new(yaml_node_from(t.value))),
    }
}

/// The value under any tags (`Value::untag_ref`).
pub open spec fn untag(v: YamlNode) -> YamlNode
    decreases v,
{
    match v {
        YamlNode::Tagged(_, b) => untag(*b),
        _ => v,
    }
}

/// The value of the first entry whose key is the string `key`.
pub open spec fn map_get(m: Seq<(YamlNode, YamlNode)>, key: Seq<char>) -> Option<YamlNode>
    decreases m.len(),
{
    if m.len() == 0 {
        None
    } else if m[0].0 matches YamlNode::Str(k) && k@ == key {
        Some(m[0].1)
    } else {
        map_get(m.drop_first(), key)
    }
}

/// `Value::get` with a string key: the entry of a mapping (under any tags).
pub open spec fn node_get(v: YamlNode, key: Seq<char>) -> Option<YamlNode> {
    match untag(v) {
        YamlNode::Mapping(m) => map_get(m@, key),
        _ => None,
    }
}

/// `Value::as_str`: the string a value holds (under any tags).
pub open spec fn str_view(v: YamlNode) -> Option<Seq<char>> {
    match untag(v) {
        YamlNode::Str(s) => Some(s@),
        _ => None,
    }
}

pub open spec fn str_views(items: Seq<YamlNode>) -> Seq<Option<Seq<char>>> {
    items.map_values(|v: YamlNode| str_view(v))
}

pub open spec fn key_views(m: Seq<(YamlNode, YamlNode)>) -> Seq<Option<Seq<char>>> {
    m.map_values(|e: (YamlNode, YamlNode)| str_view(e.0))
}

/// A `depends_on` entry as plain values.
pub enum DependsView {
    Absent,
    Sequence(Seq<Option<Seq<char>>>),
    Mapping(Seq<Option<Seq<char>>>),
    Other,
}

/// A compose service as plain values: its name, `depends_on`, volumes.
pub type ServiceView = (Option<Seq<char>>, DependsView, Option<Seq<Option<Seq<char>>>>);

/// The `depends_on` value read as a list or a map of service names.
pub open spec fn depends_view_of(o: Option<YamlNode>) -> DependsView {
    match o {
        None => DependsView::Absent,
        Some(YamlNode::Sequence(items)) => DependsView::Sequence(str_views(items@)),
        Some(YamlNode::Mapping(m)) => DependsView::Mapping(key_views(m@)),
        Some(_) => DependsView::Other,
    }
}

/// The `volumes` value read as a list (under any tags).
pub open spec fn volumes_view_of(o: Option<YamlNode>) -> Option<Seq<Option<Seq<char>>>> {
    match o {
        Some(v) => match untag(v) {
            YamlNode::Sequence(items) => Some(str_views(items@)),
            _ => None,
        },
        None => None,
    }
}

pub open spec fn service_view_of(e: (YamlNode, YamlNode)) -> ServiceView {
    (str_view(e.0), depends_view_of(node_get(e.1, "depends_on"@)), volumes_view_of(node_get(e.1, "volumes"@)))
}

/// The services of a compose document: the entries of its `services`
/// mapping, in order; none when the text did not parse or has no such
/// mapping.
pub open spec fn compose_services_of(doc: Option<YamlNode>) -> Seq<ServiceView> {
    match doc {
        Some(v) => match node_get(v, "services"@) {
            Some(s) => match untag(s) {
                YamlNode::Mapping(m) => m@.map_values(|e: (YamlNode, YamlNode)| service_view_of(e)),
                _ => Seq::empty(),
            },
            None => Seq::empty(),
        },
        None => Seq::empty(),
    }
}

pub open spec fn opt_views(v: Seq<Option<String>>) -> Seq<Option<Seq<char>>> {
    v.map_values(|o: Option<String>| crate::deploy::render::opt_view(o))
}

pub open spec fn depends_view(d: DependsOn) -> DependsView {
    match d {
        DependsOn::Absent => DependsView::Absent,
        DependsOn::Sequence(v) => DependsView::Sequence(opt_views(v@)),
        DependsOn::Mapping(v) => DependsView::Mapping(opt_views(v@)),
        DependsOn::Other => DependsView::Other,
    }
}

pub open spec fn service_view(s: ComposeService) -> ServiceView {
    (
        crate::deploy::render::opt_view(s.name),
        depends_view(s.depends_on),
        match s.volumes {
            Some(v) => Some(opt_views(v@)),
            None => None,
        },
    )
}

/// A compose file's services as plain values.
pub open spec fn compose_view(f: ComposeFile) -> Seq<ServiceView> {
    f.services@.map_values(|s: ComposeService| service_view(s))
}

fn untag_ref(v: &YamlNode) -> (r: &YamlNode)
    ensures
        *r == untag(*v),
    decreases v,
{
    match v {
        YamlNode::Tagged(_, b) => untag_ref(b),
        _ => v,
    }
}

fn map_get_ref<'a>(m: &'a Vec<(YamlNode, YamlNode)>, key: &str) -> (r: Option<&'a YamlNode>)
    ensures
        match r {
            Some(v) => map_get(m@, key@) == Some(*v),
            None => map_get(m@, key@) is None,
        },
{
    let mut i: usize = 0;
    assert(m@.skip(0) == m@);
    while i < m.len()
        invariant
            i <= m.len(),
            map_get(m@, key@) == map_get(m@.skip(i as int), key@),
        decreases m.len() - i,
    {
        assert(m@.skip(i as int).drop_first() == m@.skip(i + 1));
        if let YamlNode::Str(k) = &m[i].0 {
            if crate::text::str_eq(k.as_str(), key) {
                return Some(&m[i].1);
            }
        }
        i = i + 1;
    }
    None
}

fn node_get_ref<'a>(v: &'a YamlNode, key: &str) -> (r: Option<&'a YamlNode>)
    ensures
        match r {
            Some(x) => node_get(*v, key@) == Some(*x),
            None => node_get(*v, key@) is None,
        },
{
    match untag_ref(v) {
        YamlNode::Mapping(m) => map_get_ref(m, key),
        _ => None,
    }
}

fn str_of(v: &YamlNode) -> (r: Option<String>)
    ensures
        crate::deploy::render::opt_view(r) == str_view(*v),
{
    match untag_ref(v) {
        YamlNode::Str(s) => Some(crate::text::owned(s.as_str())),
        _ => None,
    }
}

fn strs_of(items: &Vec<YamlNode>) -> (r: Vec<Option<String>>)
    ensures
        opt_views(r@) == str_views(items@),
{
    let mut out: Vec<Option<String>> = Vec::new();
    let mut i: usize = 0;
    while i < items.len()
        invariant
            i <= items.len(),
            opt_views(out@) == str_views(items@.take(i as int)),
        decreases items.len() - i,
    {
        let ghost before = out@;
        out.push(str_of(&items[i]));
        assert(opt_views(out@) =~= opt_views(before).push(str_view(items@[i as int])));
        assert(str_views(items@.take(i + 1)) =~= str_views(items@.take(i as int)).push(str_view(items@[i as int])));
        i = i + 1;
    }
    assert(items@.take(items.len() as int) =~= items@);
    out
}

fn keys_of(m: &Vec<(YamlNode, YamlNode)>) -> (r: Vec<Option<String>>)
    ensures
        opt_views(r@) == key_views(m@),
{
    let mut out: Vec<Option<String>> = Vec::new();
    let mut i: usize = 0;
    while i < m.len()
        invariant
            i <= m.len(),
            opt_views(out@) == key_views(m@.take(i as int)),
        decreases m.len() - i,
    {
        let ghost before = out@;
        out.push(str_of(&m[i].0));
        assert(opt_views(out@) =~= opt_views(before).push(str_view(m@[i as int].0)));
        assert(key_views(m@.take(i + 1)) =~= key_views(m@.take(i as int)).push(str_view(m@[i as int].0)));
        i = i + 1;
    }
    assert(m@.take(m.len() as int) =~= m@);
    out
}

fn service_of(e: &(YamlNode, YamlNode)) -> (r: ComposeService)
    ensures
        service_view(r) == service_view_of(*e),
{
    let depends_on = match node_get_ref(&e.1, "depends_on") {
        None => DependsOn::Absent,
        Some(YamlNode::Sequence(items)) => DependsOn::Sequence(strs_of(items)),
        Some(YamlNode::Mapping(m)) => DependsOn::Mapping(keys_of(m)),
        Some(_) => DependsOn::Other,
    };
    let volumes = match node_get_ref(&e.1, "volumes") {
        Some(v) => match untag_ref(v) {
            YamlNode::Sequence(items) => Some(strs_of(items)),
            _ => None,
        },
        None => None,
    };
    ComposeService { name: str_of(&e.0), depends_on, volumes }
}

/// The compose file that a parsed YAML document describes: the entries of
/// its `services` mapping, in order, each with its name, `depends_on` and
/// volume specs; no services when it has no `services` mapping.
pub fn compose_file_of_document(doc: &YamlNode) -> (r: ComposeFile)
    ensures
        compose_view(r) == compose_services_of(Some(*doc)),
{
    let m = match node_get_ref(doc, "services") {
        Some(s) => match untag_ref(s) {
            YamlNode::Mapping(m) => m,
            _ => {
                let r = ComposeFile { services: Vec::new() };
                assert(compose_view(r) =~= Seq::<ServiceView>::empty());
                return r;
            },
        },
        None => {
            let r = ComposeFile { services: Vec::new() };
            assert(compose_view(r) =~= Seq::<ServiceView>::empty());
            return r;
        },
    };
    let ghost target = m@.map_values(|e: (YamlNode, YamlNode)| service_view_of(e));
    let mut services: Vec<ComposeService> = Vec::new();
    let mut i: usize = 0;
    while i < m.len()
        invariant
            i <= m.len(),
            target == m@.map_values(|e: (YamlNode, YamlNode)| service_view_of(e)),
            services@.map_values(|s: ComposeService| service_view(s)) == target.take(i as int),
        decreases m.len() - i,
    {
        let ghost before = services@;
        services.push(service_of(&m[i]));
        assert(services@.map_values(|s: ComposeService| service_view(s)) =~= before.map_values(
            |s: ComposeService| service_view(s),
        ).push(service_view_of(m@[i as int])));
        assert(target.take(i + 1) =~= target.take(i as int).push(target[i as int]));
        i = i + 1;
    }
    assert(target.take(m.len() as int) =~= target);
    ComposeFile { services }
}

/// The compose file that the YAML text `text` describes
/// (`compose_file_of_document`); no services when the text is not YAML.
pub fn compose_file_from_yaml(text: &str) -> (r: ComposeFile)
    ensures
        compose_view(r) == compose_services_of(yaml_of(text@)),
{
    match parse_yaml(text) {
        Some(d) => compose_file_of_document(&d),
        None => {
            let r = ComposeFile { services: Vec::new() };
            assert(compose_view(r) =~= Seq::<ServiceView>::empty());
            r
        },
    }
}

} // verus!
