//! Database seeding: reading the interactive seed prompts, naming the staged
//! seed files, the environment a seed task runs with, which database target
//! and service a seed goes to, and the failures of each step.
use vstd::prelude::*;
use crate::error::{is_invocation, RunnerError};
use crate::paths::{join_path, path_is_absolute, path_join};
use crate::text::{dec, join, join_seq, lower, owned, str_eq, trim, trimmed, views};

verus! {

/// A prompt answer read as yes or no: blank takes `default`; otherwise yes
/// exactly when it is `y` or `yes`, ignoring surrounding blanks and ASCII
/// case.
pub open spec fn yes_no_answer(answer: Seq<char>, default: bool) -> bool {
    let normalized = lower(trim(answer));
    if normalized.len() == 0 {
        default
    } else {
        normalized == "y"@ || normalized == "yes"@
    }
}

/// The yes/no reading of an answer line, with `default` for a blank one.
pub fn prompt_yes_no_with_default(answer: &str, default: bool) -> (r: bool)
    ensures
        r == yes_no_answer(answer@, default),
{
    let t = trimmed(answer);
    let normalized = crate::text::ascii_lowercase(t.as_str());
    if normalized.as_str().unicode_len() == 0 {
        return default;
    }
    str_eq(normalized.as_str(), "y") || str_eq(normalized.as_str(), "yes")
}

/// The yes/no reading of an answer line; a blank one means yes.
pub fn prompt_yes_no(answer: &str) -> (r: bool)
    ensures
        r == yes_no_answer(answer@, true),
{
    prompt_yes_no_with_default(answer, true)
}

/// The seed path an answer names for a database: none when blank, else the
/// trimmed answer, under the repository when relative.
pub open spec fn seed_answer_path(repo_root: Seq<char>, answer: Seq<char>) -> Option<Seq<char>> {
    let t = trim(answer);
    if t.len() == 0 {
        None
    } else {
        Some(join_path(repo_root, t))
    }
}

/// The seed file an answer to the seed path prompt names, if any.
pub fn seed_path_from_answer(repo_root: &str, answer: &str) -> (r: Option<String>)
    ensures
        match r {
            Some(p) => seed_answer_path(repo_root@, answer@) == Some(p@),
            None => seed_answer_path(repo_root@, answer@) is None,
        },
{
    let t = trimmed(answer);
    if t.as_str().unicode_len() == 0 {
        return None;
    }
    Some(path_join(repo_root, t.as_str()))
}

pub open spec fn missing_seed_message(path: Seq<char>) -> Seq<char> {
    "Path does not exist or is not a readable file: "@ + path
}

/// The line shown when an answer names no readable file.
pub fn missing_seed_path_line(path: &str) -> (r: String)
    ensures
        r@ == missing_seed_message(path@),
{
    crate::text::cat("Path does not exist or is not a readable file: ", path)
}

/// The question that confirms `n` collected seed files.
pub open spec fn seed_confirm_question(n: nat) -> Seq<char> {
    if n == 1 {
        "Continue with 1 database seed file? [Y/n]: "@
    } else {
        "Continue with "@ + dec(n) + " database seed file(s)? [Y/n]: "@
    }
}

/// The prompt that asks to go on with `n` seed files.
pub fn seed_confirm_prompt(n: usize) -> (r: String)
    ensures
        r@ == seed_confirm_question(n as nat),
{
    if n == 1 {
        return owned("Continue with 1 database seed file? [Y/n]: ");
    }
    let mut s = owned("Continue with ");
    crate::text::push_dec(&mut s, n as u64);
    s.append(" database seed file(s)? [Y/n]: ");
    s
}

/// A seed input: the database target it names, if any, and its file.
#[derive(Debug)]
pub struct DbSeedInput {
    pub target: Option<String>,
    pub path: String,
}

/// The collected seeds once the confirmation was answered: kept on a yes
/// (or a blank answer), refused on a no.
pub fn confirm_seed_inputs(answer: &str, seeds: Vec<DbSeedInput>) -> (r: Result<Vec<DbSeedInput>, RunnerError>)
    ensures
        yes_no_answer(answer@, true) ==> r == Ok::<Vec<DbSeedInput>, RunnerError>(seeds),
        !yes_no_answer(answer@, true) ==> (r matches Err(e) && is_invocation(
            e,
            "bootstrap cancelled during interactive database seed prompt"@,
        )),
{
    if !prompt_yes_no(answer) {
        return Err(RunnerError::task_invocation("bootstrap cancelled during interactive database seed prompt"));
    }
    Ok(seeds)
}

/// The name a staged seed file gets: `{target}--{file}` for a seed aimed at
/// a target, else the file's own name.
pub open spec fn staged_seed_name(target: Option<Seq<char>>, base_name: Seq<char>) -> Seq<char> {
    match target {
        Some(t) => t + "--"@ + base_name,
        None => base_name,
    }
}

/// The name a seed file is staged under for `target`.
pub fn staged_name(target: Option<&str>, base_name: &str) -> (r: String)
    ensures
        r@ == staged_seed_name(
            match target {
                Some(t) => Some(t@),
                None => None,
            },
            base_name@,
        ),
{
    match target {
        Some(t) => crate::text::cat3(t, "--", base_name),
        None => owned(base_name),
    }
}

pub open spec fn duplicate_seed_message(name: Seq<char>) -> Seq<char> {
    "duplicate staged db seed file name `"@ + name + "`; rename one input or use distinct seed targets"@
}

/// Records a staged seed file name: refused (with the message of the
/// clash) when an earlier seed took it, else added to the names taken.
pub fn claim_staged_name(taken: &mut Vec<String>, name: String) -> (r: Result<(), RunnerError>)
    ensures
        views(old(taken)@).contains(name@) ==> (r matches Err(e) && is_invocation(e, duplicate_seed_message(name@))
            && views(final(taken)@) == views(old(taken)@)),
        !views(old(taken)@).contains(name@) ==> (r is Ok && views(final(taken)@) == views(old(taken)@).push(name@)),
        views(old(taken)@).no_duplicates() ==> views(final(taken)@).no_duplicates(),
{
    let mut i: usize = 0;
    while i < taken.len()
        invariant
            i <= taken.len(),
            forall|j: int| 0 <= j < i ==> taken@[j]@ != name@,
        decreases taken.len() - i,
    {
        if str_eq(taken[i].as_str(), name.as_str()) {
            assert(views(taken@)[i as int] == name@);
            let m = crate::text::cat3(
                "duplicate staged db seed file name `",
                name.as_str(),
                "`; rename one input or use distinct seed targets",
            );
            return Err(RunnerError::task_invocation(m.as_str()));
        }
        i = i + 1;
    }
    assert(!views(taken@).contains(name@)) by {
        if views(taken@).contains(name@) {
            let j = choose|j: int| 0 <= j < views(taken@).len() && views(taken@)[j] == name@;
            assert(taken@[j]@ == name@);
        }
    }
    let ghost before = views(taken@);
    let ghost n = name@;
    taken.push(name);
    assert(views(taken@) =~= before.push(n));
    proof {
        if before.no_duplicates() {
            assert forall|a: int, b: int| 0 <= a < b < views(taken@).len() implies views(taken@)[a] != views(taken@)[b] by {
                if b == before.len() {
                    assert(before.contains(before[a]));
                }
            }
        }
    }
    Ok(())
}

/// A staged seed: its target, where it came from and the name of its
/// staged file.
#[derive(Debug)]
pub struct StagedDbSeed {
    pub target: Option<String>,
    pub source_path: String,
    pub staged_file_name: String,
}

pub open spec fn opt_view(o: Option<String>) -> Option<Seq<char>> {
    match o {
        Some(s) => Some(s@),
        None => None,
    }
}

/// The staged path of a seed, relative to the repository.
pub open spec fn staged_rel_path(s: StagedDbSeed) -> Seq<char> {
    join_path(".effigy/local/db-seeds"@, s.staged_file_name@)
}

/// What `serde_json::to_string` gives for a JSON array holding one object
/// per entry of `objects`, each built from its key/value pairs (a `None`
/// value is `null`).
pub uninterp spec fn json_objects_text(objects: Seq<Seq<(Seq<char>, Option<Seq<char>>)>>) -> Seq<char>;

pub open spec fn object_views(objects: Seq<Vec<(String, Option<String>)>>) -> Seq<Seq<(Seq<char>, Option<Seq<char>>)>> {
    objects.map_values(|o: Vec<(String, Option<String>)>| o@.map_values(|p: (String, Option<String>)| (p.0@, opt_view(p.1))))
}

/// `serde_json::to_string` of a JSON array with one object per entry of
/// `objects`, each object a `serde_json::Map` of its key/value pairs (a
/// `None` value is `null`); its text is named by [`json_objects_text`].
#[verifier::external_body]
fn encode_json_objects(objects: &Vec<Vec<(String, Option<String>)>>) -> (r: String)
    ensures
        r@ == json_objects_text(object_views(objects@)),
{
    let values: Vec<serde_json::Map<String, serde_json::Value>> = objects.iter().map(
        |o| o.iter().map(|(k, v)| (k.clone(), v.clone().map_or(serde_json::Value::Null, serde_json::Value::String))).collect(),
    ).collect();
    serde_json::to_string(&values).unwrap_or_default()
}

/// The JSON object of one seed's metadata.
pub open spec fn seed_metadata_object(e: (Option<Seq<char>>, Seq<char>, Seq<char>)) -> Seq<(Seq<char>, Option<Seq<char>>)> {
    seq![("target"@, e.0), ("source_path"@, Some(e.1)), ("staged_path"@, Some(e.2))]
}

/// The seed metadata JSON: one object per seed with its `target` (or null),
/// `source_path` and `staged_path`.
pub open spec fn seed_metadata_json(entries: Seq<(Option<Seq<char>>, Seq<char>, Seq<char>)>) -> Seq<char> {
    json_objects_text(entries.map_values(|e: (Option<Seq<char>>, Seq<char>, Seq<char>)| seed_metadata_object(e)))
}

pub open spec fn metadata_views(entries: Seq<(Option<String>, String, String)>) -> Seq<(Option<Seq<char>>, Seq<char>, Seq<char>)> {
    entries.map_values(|e: (Option<String>, String, String)| (opt_view(e.0), e.1@, e.2@))
}

fn copy_opt_string(o: &Option<String>) -> (r: Option<String>)
    ensures
        opt_view(r) == opt_view(*o),
{
    match o {
        Some(s) => Some(owned(s.as_str())),
        None => None,
    }
}

/// The seed metadata JSON of the entries (target, source path, staged
/// path).
fn encode_seed_metadata(entries: &Vec<(Option<String>, String, String)>) -> (r: String)
    ensures
        r@ == seed_metadata_json(metadata_views(entries@)),
{
    let mut objects: Vec<Vec<(String, Option<String>)>> = Vec::new();
    let ghost target = metadata_views(entries@).map_values(
        |e: (Option<Seq<char>>, Seq<char>, Seq<char>)| seed_metadata_object(e),
    );
    let mut i: usize = 0;
    while i < entries.len()
        invariant
            i <= entries.len(),
            target == metadata_views(entries@).map_values(
                |e: (Option<Seq<char>>, Seq<char>, Seq<char>)| seed_metadata_object(e),
            ),
            object_views(objects@) == target.take(i as int),
        decreases entries.len() - i,
    {
        let e = &entries[i];
        let object = vec![
            ("target".to_owned(), copy_opt_string(&e.0)),
            ("source_path".to_owned(), Some(owned(e.1.as_str()))),
            ("staged_path".to_owned(), Some(owned(e.2.as_str()))),
        ];
        let ghost before = objects@;
        objects.push(object);
        assert(object@.map_values(|p: (String, Option<String>)| (p.0@, opt_view(p.1))) =~= target[i as int]);
        assert(object_views(objects@) =~= object_views(before).push(target[i as int]));
        assert(target.take(i + 1) =~= target.take(i as int).push(target[i as int]));
        i = i + 1;
    }
    assert(target.take(entries.len() as int) =~= target);
    encode_json_objects(&objects)
}

pub open spec fn metadata_entries(seeds: Seq<StagedDbSeed>) -> Seq<(Option<Seq<char>>, Seq<char>, Seq<char>)> {
    seeds.map_values(|s: StagedDbSeed| (opt_view(s.target), s.source_path@, staged_rel_path(s)))
}

/// The environment a seed task runs with, for the staged seeds: nothing
/// without seeds; else, under both the current and the legacy names, the
/// seed directory, the count, the staged files one per line and their
/// metadata as JSON; and for a single seed its file and target.
pub open spec fn seed_env(seeds: Seq<StagedDbSeed>) -> Seq<(Seq<char>, Seq<char>)> {
    let dir = ".effigy/local/db-seeds"@;
    let files = join_seq(seeds.map_values(|s: StagedDbSeed| staged_rel_path(s)), "\n"@);
    let json = seed_metadata_json(metadata_entries(seeds));
    if seeds.len() == 0 {
        Seq::empty()
    } else {
        seq![
            ("EFFIGY_DB_SEEDS_DIR"@, dir),
            ("EFFIGY_BOOTSTRAP_DB_SEEDS_DIR"@, dir),
            ("EFFIGY_DB_SEED_COUNT"@, dec(seeds.len())),
            ("EFFIGY_BOOTSTRAP_DB_SEED_COUNT"@, dec(seeds.len())),
            ("EFFIGY_DB_SEED_FILES"@, files),
            ("EFFIGY_BOOTSTRAP_DB_SEED_FILES"@, files),
            ("EFFIGY_DB_SEEDS_JSON"@, json),
            ("EFFIGY_BOOTSTRAP_DB_SEEDS_JSON"@, json),
        ] + if seeds.len() == 1 {
            seq![
                ("EFFIGY_DB_SEED_FILE"@, staged_rel_path(seeds[0])),
                ("EFFIGY_BOOTSTRAP_DB_SEED_FILE"@, staged_rel_path(seeds[0])),
            ] + match seeds[0].target {
                Some(t) => seq![("EFFIGY_DB_SEED_TARGET"@, t@), ("EFFIGY_BOOTSTRAP_DB_SEED_TARGET"@, t@)],
                None => Seq::empty(),
            }
        } else {
            Seq::empty()
        }
    }
}

pub open spec fn pair_views(es: Seq<(String, String)>) -> Seq<(Seq<char>, Seq<char>)> {
    es.map_values(|e: (String, String)| (e.0@, e.1@))
}

fn push_pair(env: &mut Vec<(String, String)>, key: &str, value: &str)
    ensures
        pair_views(final(env)@) == pair_views(old(env)@).push((key@, value@)),
{
    let ghost before = pair_views(env@);
    env.push((owned(key), owned(value)));
    assert(pair_views(env@) =~= before.push((key@, value@)));
}

/// The environment entries of a seed task, keyed by distinct names.
pub fn db_seed_env(seeds: &Vec<StagedDbSeed>) -> (env: Vec<(String, String)>)
    ensures
        pair_views(env@) == seed_env(seeds@),
{
    let mut env: Vec<(String, String)> = Vec::new();
    if seeds.len() == 0 {
        assert(pair_views(env@) =~= seed_env(seeds@));
        return env;
    }
    let mut rels: Vec<String> = Vec::new();
    let mut entries: Vec<(Option<String>, String, String)> = Vec::new();
    let mut i: usize = 0;
    while i < seeds.len()
        invariant
            i <= seeds.len(),
            views(rels@) == seeds@.take(i as int).map_values(|s: StagedDbSeed| staged_rel_path(s)),
            metadata_views(entries@) == metadata_entries(seeds@.take(i as int)),
        decreases seeds.len() - i,
    {
        let s = &seeds[i];
        let rel = path_join(".effigy/local/db-seeds", s.staged_file_name.as_str());
        let target = match &s.target {
            Some(t) => Some(owned(t.as_str())),
            None => None,
        };
        let ghost r0 = views(rels@);
        let ghost m0 = metadata_views(entries@);
        entries.push((target, owned(s.source_path.as_str()), owned(rel.as_str())));
        rels.push(rel);
        assert(views(rels@) =~= r0.push(staged_rel_path(seeds@[i as int])));
        assert(seeds@.take(i + 1).map_values(|s: StagedDbSeed| staged_rel_path(s)) =~= seeds@.take(
            i as int,
        ).map_values(|s: StagedDbSeed| staged_rel_path(s)).push(staged_rel_path(seeds@[i as int])));
        assert(metadata_views(entries@) =~= m0.push(
            (opt_view(seeds@[i as int].target), seeds@[i as int].source_path@, staged_rel_path(seeds@[i as int])),
        ));
        assert(metadata_entries(seeds@.take(i + 1)) =~= metadata_entries(seeds@.take(i as int)).push(
            (opt_view(seeds@[i as int].target), seeds@[i as int].source_path@, staged_rel_path(seeds@[i as int])),
        ));
        i = i + 1;
    }
    assert(seeds@.take(seeds.len() as int) =~= seeds@);
    let files = join(&rels, "\n");
    let json = encode_seed_metadata(&entries);
    let count = crate::text::dec_string(seeds.len() as u64);
    push_pair(&mut env, "EFFIGY_DB_SEEDS_DIR", ".effigy/local/db-seeds");
    push_pair(&mut env, "EFFIGY_BOOTSTRAP_DB_SEEDS_DIR", ".effigy/local/db-seeds");
    push_pair(&mut env, "EFFIGY_DB_SEED_COUNT", count.as_str());
    push_pair(&mut env, "EFFIGY_BOOTSTRAP_DB_SEED_COUNT", count.as_str());
    push_pair(&mut env, "EFFIGY_DB_SEED_FILES", files.as_str());
    push_pair(&mut env, "EFFIGY_BOOTSTRAP_DB_SEED_FILES", files.as_str());
    push_pair(&mut env, "EFFIGY_DB_SEEDS_JSON", json.as_str());
    push_pair(&mut env, "EFFIGY_BOOTSTRAP_DB_SEEDS_JSON", json.as_str());
    if seeds.len() == 1 {
        let rel = &rels[0];
        push_pair(&mut env, "EFFIGY_DB_SEED_FILE", rel.as_str());
        push_pair(&mut env, "EFFIGY_BOOTSTRAP_DB_SEED_FILE", rel.as_str());
        if let Some(t) = &seeds[0].target {
            push_pair(&mut env, "EFFIGY_DB_SEED_TARGET", t.as_str());
            push_pair(&mut env, "EFFIGY_BOOTSTRAP_DB_SEED_TARGET", t.as_str());
        }
    }
    assert(pair_views(env@) =~= seed_env(seeds@));
    env
}

/// What a bundle declares under `databases` (or `database`): a list whose
/// items are strings or not, a single string, or another kind of value.
#[derive(Debug)]
pub enum BundleDatabases {
    List(Vec<Option<String>>),
    Text(String),
    Other,
}

/// The trimmed, non-blank string items of a list, in order.
pub open spec fn nonblank_items(items: Seq<Option<String>>) -> Seq<Seq<char>>
    decreases items.len(),
{
    if items.len() == 0 {
        Seq::empty()
    } else {
        nonblank_items(items.drop_last()) + match items.last() {
            Some(s) => if trim(s@).len() > 0 {
                seq![trim(s@)]
            } else {
                Seq::empty()
            },
            None => Seq::empty(),
        }
    }
}

/// No database target read from a bundle is blank.
pub proof fn lemma_nonblank_items_are_nonblank(items: Seq<Option<String>>)
    ensures
        forall|i: int| 0 <= i < nonblank_items(items).len() ==> #[trigger] nonblank_items(items)[i].len() > 0,
    decreases items.len(),
{
    if items.len() > 0 {
        let prev = nonblank_items(items.drop_last());
        lemma_nonblank_items_are_nonblank(items.drop_last());
        let tail: Seq<Seq<char>> = match items.last() {
            Some(s) => if trim(s@).len() > 0 {
                seq![trim(s@)]
            } else {
                Seq::empty()
            },
            None => Seq::empty(),
        };
        assert(nonblank_items(items) == prev + tail);
        assert forall|i: int| 0 <= i < nonblank_items(items).len() implies #[trigger] nonblank_items(items)[i].len()
            > 0 by {
            if i < prev.len() {
                assert(nonblank_items(items)[i] == prev[i]);
            } else {
                assert(nonblank_items(items)[i] == tail[i - prev.len()]);
            }
        }
    }
}

/// The database targets a bundle declares: the trimmed non-blank strings of
/// a list, or a trimmed non-blank string; none when that leaves nothing or
/// the value is of another kind.
pub open spec fn bundle_targets(v: BundleDatabases) -> Option<Seq<Seq<char>>> {
    match v {
        BundleDatabases::List(items) => if nonblank_items(items@).len() == 0 {
            None
        } else {
            Some(nonblank_items(items@))
        },
        BundleDatabases::Text(s) => if trim(s@).len() == 0 {
            None
        } else {
            Some(seq![trim(s@)])
        },
        BundleDatabases::Other => None,
    }
}

fn nonblank_strings(items: &Vec<Option<String>>) -> (out: Vec<String>)
    ensures
        views(out@) == nonblank_items(items@),
{
    let mut out: Vec<String> = Vec::new();
    let mut i: usize = 0;
    while i < items.len()
        invariant
            i <= items.len(),
            views(out@) == nonblank_items(items@.take(i as int)),
        decreases items.len() - i,
    {
        assert(items@.take(i + 1).drop_last() =~= items@.take(i as int));
        if let Some(s) = &items[i] {
            let t = trimmed(s.as_str());
            if t.as_str().unicode_len() > 0 {
                let ghost before = views(out@);
                out.push(t);
                assert(views(out@) =~= before.push(trim(s@)));
            }
        }
        assert(views(out@) =~= nonblank_items(items@.take(i + 1)));
        i = i + 1;
    }
    assert(items@.take(items.len() as int) =~= items@);
    out
}

/// The database targets a bundle declares (`bundle_targets`).
pub fn bundle_database_targets(v: &BundleDatabases) -> (r: Option<Vec<String>>)
    ensures
        match r {
            Some(ts) => bundle_targets(*v) == Some(views(ts@)),
            None => bundle_targets(*v) is None,
        },
{
    match v {
        BundleDatabases::List(items) => {
            let out = nonblank_strings(items);
            if out.len() == 0 {
                None
            } else {
                Some(out)
            }
        },
        BundleDatabases::Text(s) => {
            let t = trimmed(s.as_str());
            if t.as_str().unicode_len() == 0 {
                None
            } else {
                let out = vec![t];
                assert(views(out@) =~= seq![trim(s@)]);
                Some(out)
            }
        },
        BundleDatabases::Other => None,
    }
}

/// The database engines a seed can be imported into.
#[derive(Debug, Clone, Copy, PartialEq, Eq)]
pub enum DatabaseServiceKind {
    Postgres,
    MariaDb,
}

/// The engine of a service catalog: `postgres` and `mariadb`, no other.
pub fn manifest_database_service_kind(catalog: &str) -> (r: Option<DatabaseServiceKind>)
    ensures
        catalog@ == "postgres"@ ==> r == Some(DatabaseServiceKind::Postgres),
        catalog@ == "mariadb"@ ==> r == Some(DatabaseServiceKind::MariaDb),
        catalog@ != "postgres"@ && catalog@ != "mariadb"@ ==> r is None,
{
    proof {
        reveal_strlit("postgres");
        reveal_strlit("mariadb");
        assert("mariadb"@[0] != "postgres"@[0]);
    }
    if str_eq(catalog, "postgres") {
        Some(DatabaseServiceKind::Postgres)
    } else if str_eq(catalog, "mariadb") {
        Some(DatabaseServiceKind::MariaDb)
    } else {
        None
    }
}

/// The trimmed value of an optional string parameter, when it is not blank.
pub open spec fn nonblank(o: Option<Seq<char>>) -> Option<Seq<char>> {
    match o {
        Some(s) => if trim(s).len() > 0 {
            Some(trim(s))
        } else {
            None
        },
        None => None,
    }
}

fn nonblank_param(param: Option<&str>) -> (r: Option<String>)
    ensures
        match r {
            Some(s) => nonblank(
                match param {
                    Some(p) => Some(p@),
                    None => None,
                },
            ) == Some(s@),
            None => nonblank(
                match param {
                    Some(p) => Some(p@),
                    None => None,
                },
            ) is None,
        },
{
    match param {
        Some(p) => {
            let t = trimmed(p);
            if t.as_str().unicode_len() > 0 {
                Some(t)
            } else {
                None
            }
        },
        None => None,
    }
}

/// A service's database password: its `password` parameter (a string,
/// trimmed, not blank), else `secret`.
pub fn service_password(password: Option<&str>) -> (r: String)
    ensures
        r@ == match nonblank(
            match password {
                Some(p) => Some(p@),
                None => None,
            },
        ) {
            Some(p) => p,
            None => "secret"@,
        },
{
    match nonblank_param(password) {
        Some(p) => p,
        None => owned("secret"),
    }
}

/// A service's primary database: its `database` parameter (a string,
/// trimmed, not blank).
pub fn service_primary_database(database: Option<&str>) -> (r: Option<String>)
    ensures
        match r {
            Some(s) => nonblank(
                match database {
                    Some(p) => Some(p@),
                    None => None,
                },
            ) == Some(s@),
            None => nonblank(
                match database {
                    Some(p) => Some(p@),
                    None => None,
                },
            ) is None,
        },
{
    nonblank_param(database)
}

/// A service's declared databases: the trimmed non-blank strings of its
/// `databases` list.
pub fn service_declared_databases(databases: &Vec<Option<String>>) -> (r: Vec<String>)
    ensures
        views(r@) == nonblank_items(databases@),
{
    nonblank_strings(databases)
}

/// Why the targets of seed inputs could not be chosen.
#[derive(Debug)]
pub enum DataTargetSelectionError {
    UnknownTarget { target: String, valid_targets: Vec<String> },
    MissingTarget { index: usize, valid_targets: Vec<String> },
    DuplicateTarget { target: String },
}

pub open spec fn target_selection_message(
    manifest_path: Seq<char>,
    seed_paths: Seq<Seq<char>>,
    e: DataTargetSelectionError,
) -> Seq<char> {
    match e {
        DataTargetSelectionError::UnknownTarget { target, valid_targets } => "db seed target `"@ + target@
            + "` is not declared in `[bundle].databases` or `[data.targets]` for "@ + manifest_path
            + "; valid targets: "@ + join_seq(views(valid_targets@), ", "@),
        DataTargetSelectionError::MissingTarget { index, valid_targets } => "db seed input `"@ + seed_paths[index as int]
            + "` must name a target because multiple database targets are declared in `[bundle].databases` and `[data.targets]`: "@
            + join_seq(views(valid_targets@), ", "@),
        DataTargetSelectionError::DuplicateTarget { target } => "duplicate db seed target `"@ + target@ + "`"@,
    }
}

/// The failure of choosing seed targets, naming the manifest and, for an
/// input that names no target, that input's file.
pub fn db_seed_target_selection_error(
    manifest_path: &str,
    seed_paths: &Vec<String>,
    error: &DataTargetSelectionError,
) -> (r: RunnerError)
    requires
        error matches DataTargetSelectionError::MissingTarget { index, .. } ==> index < seed_paths@.len(),
    ensures
        is_invocation(r, target_selection_message(manifest_path@, views(seed_paths@), *error)),
{
    match error {
        DataTargetSelectionError::UnknownTarget { target, valid_targets } => {
            let mut m = crate::text::cat3(
                "db seed target `",
                target.as_str(),
                "` is not declared in `[bundle].databases` or `[data.targets]` for ",
            );
            m.append(manifest_path);
            m.append("; valid targets: ");
            let v = join(valid_targets, ", ");
            m.append(v.as_str());
            RunnerError::task_invocation(m.as_str())
        },
        DataTargetSelectionError::MissingTarget { index, valid_targets } => {
            let mut m = crate::text::cat3(
                "db seed input `",
                seed_paths[*index].as_str(),
                "` must name a target because multiple database targets are declared in `[bundle].databases` and `[data.targets]`: ",
            );
            let v = join(valid_targets, ", ");
            m.append(v.as_str());
            RunnerError::task_invocation(m.as_str())
        },
        DataTargetSelectionError::DuplicateTarget { target } => {
            let m = crate::text::cat3("duplicate db seed target `", target.as_str(), "`");
            RunnerError::task_invocation(m.as_str())
        },
    }
}

/// Why no database service could be chosen for a target.
#[derive(Debug)]
pub enum DatabaseServiceSelectionError {
    UnknownService { service: String },
    AmbiguousDeclaredDatabase,
    AmbiguousPrimaryDatabase,
    NoServiceForDatabase,
}

pub open spec fn service_selection_message(target: Seq<char>, database: Seq<char>, e: DatabaseServiceSelectionError) -> Seq<char> {
    match e {
        DatabaseServiceSelectionError::UnknownService { service } => "database target `"@ + target
            + "` references unknown service `"@ + service@ + "`"@,
        _ => "database target `"@ + target + "` is ambiguous; expected exactly one matching database service for `"@
            + database + "`"@,
    }
}

/// The failure of choosing the database service of target `target`, whose
/// database is `database`.
pub fn db_seed_service_selection_error(target: &str, database: &str, error: &DatabaseServiceSelectionError) -> (r: RunnerError)
    ensures
        is_invocation(r, service_selection_message(target@, database@, *error)),
{
    match error {
        DatabaseServiceSelectionError::UnknownService { service } => {
            let mut m = crate::text::cat3("database target `", target, "` references unknown service `");
            m.append(service.as_str());
            m.append("`");
            RunnerError::task_invocation(m.as_str())
        },
        _ => {
            let mut m = crate::text::cat3(
                "database target `",
                target,
                "` is ambiguous; expected exactly one matching database service for `",
            );
            m.append(database);
            m.append("`");
            RunnerError::task_invocation(m.as_str())
        },
    }
}

/// The target a staged seed is imported into: its own, or the only
/// declared target when it names none.
pub open spec fn seed_target_name(seed_target: Option<Seq<char>>, declared: Seq<Seq<char>>) -> Option<Seq<char>> {
    match seed_target {
        Some(t) => Some(t),
        None => if declared.len() == 1 {
            Some(declared[0])
        } else {
            None
        },
    }
}

/// The first declared target named `name`.
pub open spec fn declared_index(declared: Seq<Seq<char>>, name: Seq<char>, k: int) -> Option<int>
    decreases declared.len() - k,
{
    if k < 0 || k >= declared.len() {
        None
    } else if declared[k] == name {
        Some(k)
    } else {
        declared_index(declared, name, k + 1)
    }
}

pub open spec fn missing_seed_target_message(staged_path: Seq<char>) -> Seq<char> {
    "database seed entry `"@ + staged_path
        + "` is missing a target and the manifest declares multiple database targets"@
}

pub open spec fn undeclared_seed_target_message(target: Seq<char>) -> Seq<char> {
    "database seed target `"@ + target + "` is not declared in `[bundle].databases` or `[data.targets]`"@
}

/// Which declared target a staged seed is imported into: the first one
/// named as the seed's target (or the only one, when the seed names none);
/// a failure when the seed names none among several, or names one that is
/// not declared.
pub fn builtin_seed_target(seed_target: Option<&str>, staged_path: &str, declared: &Vec<String>) -> (r: Result<usize, RunnerError>)
    ensures
        match seed_target_name(
            match seed_target {
                Some(t) => Some(t@),
                None => None,
            },
            views(declared@),
        ) {
            None => r matches Err(e) && is_invocation(e, missing_seed_target_message(staged_path@)),
            Some(name) => match declared_index(views(declared@), name, 0) {
                Some(i) => r == Ok::<usize, RunnerError>(i as usize),
                None => r matches Err(e) && is_invocation(e, undeclared_seed_target_message(name)),
            },
        },
{
    let name: &str = match seed_target {
        Some(t) => t,
        None => {
            if declared.len() == 1 {
                declared[0].as_str()
            } else {
                let m = crate::text::cat3(
                    "database seed entry `",
                    staged_path,
                    "` is missing a target and the manifest declares multiple database targets",
                );
                return Err(RunnerError::task_invocation(m.as_str()));
            }
        },
    };
    let ghost wanted = seed_target_name(
        match seed_target {
            Some(t) => Some(t@),
            None => None,
        },
        views(declared@),
    );
    assert(wanted == Some(name@));
    let mut i: usize = 0;
    while i < declared.len()
        invariant
            i <= declared.len(),
            wanted == Some(name@),
            wanted == seed_target_name(
                match seed_target {
                    Some(t) => Some(t@),
                    None => None,
                },
                views(declared@),
            ),
            declared_index(views(declared@), name@, 0) == declared_index(views(declared@), name@, i as int),
        decreases declared.len() - i,
    {
        if str_eq(declared[i].as_str(), name) {
            assert(views(declared@)[i as int] == name@);
            return Ok(i);
        }
        i = i + 1;
    }
    let m = crate::text::cat3(
        "database seed target `",
        name,
        "` is not declared in `[bundle].databases` or `[data.targets]`",
    );
    Err(RunnerError::task_invocation(m.as_str()))
}

pub open spec fn seed_step_failure_message(step: Seq<char>, stdout: Seq<char>, stderr: Seq<char>) -> Seq<char> {
    "[error] "@ + step + " failed\nstdout:\n"@ + trim(stdout) + "\n\nstderr:\n"@ + trim(stderr)
}

/// The failure of a seed step (`database reset` or `SQL import`) that
/// exited unsuccessfully, with its trimmed output.
pub fn seed_step_failure(step: &str, stdout: &str, stderr: &str) -> (r: RunnerError)
    ensures
        is_invocation(r, seed_step_failure_message(step@, stdout@, stderr@)),
{
    let out = trimmed(stdout);
    let err = trimmed(stderr);
    let mut m = crate::text::cat3("[error] ", step, " failed\nstdout:\n");
    m.append(out.as_str());
    m.append("\n\nstderr:\n");
    m.append(err.as_str());
    RunnerError::task_invocation(m.as_str())
}

pub open spec fn unknown_service_message(target: Seq<char>, service: Seq<char>) -> Seq<char> {
    "database target `"@ + target + "` references unknown service `"@ + service + "`"@
}

pub open spec fn unsupported_catalog_message(target: Seq<char>, catalog: Seq<char>) -> Seq<char> {
    "database target `"@ + target + "` uses unsupported service catalog `"@ + catalog + "`"@
}

/// The check of a target's own service before a service is chosen for it:
/// the service must exist (`catalog` is its catalog when it does) and be of
/// a seedable engine.
pub fn check_target_service(target: &str, service: &str, catalog: Option<&str>) -> (r: Result<(), RunnerError>)
    ensures
        catalog is None ==> (r matches Err(e) && is_invocation(e, unknown_service_message(target@, service@))),
        catalog is Some && (catalog->0@ == "postgres"@ || catalog->0@ == "mariadb"@) ==> r is Ok,
        catalog is Some && !(catalog->0@ == "postgres"@ || catalog->0@ == "mariadb"@) ==> (r matches Err(e)
            && is_invocation(e, unsupported_catalog_message(target@, catalog->0@))),
{
    match catalog {
        None => {
            let mut m = crate::text::cat3("database target `", target, "` references unknown service `");
            m.append(service);
            m.append("`");
            Err(RunnerError::task_invocation(m.as_str()))
        },
        Some(c) => {
            if manifest_database_service_kind(c).is_none() {
                let mut m = crate::text::cat3("database target `", target, "` uses unsupported service catalog `");
                m.append(c);
                m.append("`");
                Err(RunnerError::task_invocation(m.as_str()))
            } else {
                Ok(())
            }
        },
    }
}

/// The value of the first entry named `key`, if any.
pub open spec fn env_lookup(env: Seq<(Seq<char>, Seq<char>)>, key: Seq<char>, k: int) -> Option<Seq<char>>
    decreases env.len() - k,
{
    if k < 0 || k >= env.len() {
        None
    } else if env[k].0 == key {
        Some(env[k].1)
    } else {
        env_lookup(env, key, k + 1)
    }
}

fn env_get<'a>(env: &'a Vec<(String, String)>, key: &str) -> (r: Option<&'a String>)
    ensures
        match r {
            Some(v) => env_lookup(pair_views(env@), key@, 0) == Some(v@),
            None => env_lookup(pair_views(env@), key@, 0) is None,
        },
{
    let mut i: usize = 0;
    while i < env.len()
        invariant
            i <= env.len(),
            env_lookup(pair_views(env@), key@, 0) == env_lookup(pair_views(env@), key@, i as int),
        decreases env.len() - i,
    {
        if str_eq(env[i].0.as_str(), key) {
            assert(pair_views(env@)[i as int].0 == key@);
            return Some(&env[i].1);
        }
        i = i + 1;
    }
    None
}

/// The seed metadata a seed task reads: under the current name, else the
/// legacy one.
pub open spec fn seed_metadata_in(env: Seq<(Seq<char>, Seq<char>)>) -> Option<Seq<char>> {
    match env_lookup(env, "EFFIGY_DB_SEEDS_JSON"@, 0) {
        Some(v) => Some(v),
        None => env_lookup(env, "EFFIGY_BOOTSTRAP_DB_SEEDS_JSON"@, 0),
    }
}

/// The default container of a manifest's `[containers]` registry, as far
/// as the seed task reads it.
#[derive(Debug)]
pub struct SeedContainerRegistry {
    /// Whether the manifest has a `[containers]` registry.
    pub present: bool,
    /// The default container it names.
    pub default: Option<String>,
    /// Whether that default is one of its environments.
    pub default_defined: bool,
}

/// The steps of importing one seed.
#[derive(Debug, Clone, Copy, PartialEq, Eq)]
pub enum SeedStep {
    /// Reset the target database.
    Reset,
    /// Import the seed into it.
    Import,
}

/// What a seed step's process reported.
#[derive(Debug)]
pub struct SeedStepOutput {
    pub success: bool,
    pub stdout: String,
    pub stderr: String,
}

pub open spec fn step_label(step: SeedStep) -> Seq<char> {
    match step {
        SeedStep::Reset => "database reset"@,
        SeedStep::Import => "SQL import"@,
    }
}

/// Whether `run_step` may have reported a successful step `step` of seed
/// `seed` into declared target `target`.
pub open spec fn step_succeeded<S: Fn(usize, usize, SeedStep) -> Result<SeedStepOutput, RunnerError>>(
    run_step: S,
    seed: usize,
    target: usize,
    step: SeedStep,
) -> bool {
    exists|o: SeedStepOutput| #[trigger] run_step.ensures((seed, target, step), Ok(o)) && o.success
}

/// Whether step `step` may have failed with `e`: `run_step` failed, or the
/// step's process exited unsuccessfully and `e` reports it with its output.
pub open spec fn step_failed<S: Fn(usize, usize, SeedStep) -> Result<SeedStepOutput, RunnerError>>(
    run_step: S,
    seed: usize,
    target: usize,
    step: SeedStep,
    e: RunnerError,
) -> bool {
    exists|out: Result<SeedStepOutput, RunnerError>|
        #[trigger] run_step.ensures((seed, target, step), out) && match out {
            Err(x) => x == e,
            Ok(o) => !o.success && is_invocation(e, seed_step_failure_message(step_label(step), o.stdout@, o.stderr@)),
        }
}

/// Runs one seed step: it succeeds when the step's process did.
fn run_seed_step<S: Fn(usize, usize, SeedStep) -> Result<SeedStepOutput, RunnerError>>(
    run_step: &S,
    seed: usize,
    target: usize,
    step: SeedStep,
) -> (r: Result<(), RunnerError>)
    requires
        forall|a: usize, b: usize, c: SeedStep| run_step.requires((a, b, c)),
    ensures
        r is Ok ==> step_succeeded(*run_step, seed, target, step),
        r matches Err(e) ==> step_failed(*run_step, seed, target, step, e),
{
    let out = run_step(seed, target, step);
    let ghost gout = out;
    assert(run_step.ensures((seed, target, step), gout));
    match out {
        Ok(o) => {
            if o.success {
                assert(run_step.ensures((seed, target, step), Ok(o)));
                Ok(())
            } else {
                let label = match step {
                    SeedStep::Reset => "database reset",
                    SeedStep::Import => "SQL import",
                };
                proof {
                    reveal_strlit("database reset");
                    reveal_strlit("SQL import");
                }
                let e = seed_step_failure(label, o.stdout.as_str(), o.stderr.as_str());
                assert(step_failed(*run_step, seed, target, step, e));
                Err(e)
            }
        },
        Err(e) => Err(e),
    }
}

/// Whether seed `i`, aimed at `target`, went to a declared target whose
/// reset and import both succeeded.
pub open spec fn seed_imported<S: Fn(usize, usize, SeedStep) -> Result<SeedStepOutput, RunnerError>>(
    run_step: S,
    declared: Seq<Seq<char>>,
    target: Option<Seq<char>>,
    i: int,
) -> bool {
    let name = seed_target_name(target, declared);
    &&& name is Some
    &&& declared_index(declared, name->0, 0) matches Some(k)
    &&& step_succeeded(run_step, i as usize, k as usize, SeedStep::Reset)
    &&& step_succeeded(run_step, i as usize, k as usize, SeedStep::Import)
}

/// Whether seed `i` (aimed at `target`, staged at `staged`) may fail with
/// `e`: its target is refused, or the reset, or after it the import,
/// failed.
pub open spec fn seed_import_failed<S: Fn(usize, usize, SeedStep) -> Result<SeedStepOutput, RunnerError>>(
    run_step: S,
    declared: Seq<Seq<char>>,
    target: Option<Seq<char>>,
    staged: Seq<char>,
    i: int,
    e: RunnerError,
) -> bool {
    match seed_target_name(target, declared) {
        None => is_invocation(e, missing_seed_target_message(staged)),
        Some(name) => match declared_index(declared, name, 0) {
            None => is_invocation(e, undeclared_seed_target_message(name)),
            Some(k) => step_failed(run_step, i as usize, k as usize, SeedStep::Reset, e) || (step_succeeded(
                run_step,
                i as usize,
                k as usize,
                SeedStep::Reset,
            ) && step_failed(run_step, i as usize, k as usize, SeedStep::Import, e)),
        },
    }
}

/// What importing the parsed seeds answers: success when every seed was
/// imported, else the failure of the first seed that was not, every
/// earlier one imported.
pub open spec fn seeds_outcome<S: Fn(usize, usize, SeedStep) -> Result<SeedStepOutput, RunnerError>>(
    run_step: S,
    declared: Seq<Seq<char>>,
    seeds: Seq<(Option<String>, String)>,
    r: Result<(), RunnerError>,
) -> bool {
    match r {
        Ok(_) => forall|i: int| 0 <= i < seeds.len() ==> #[trigger] seed_imported(run_step, declared, opt_view(seeds[i].0), i),
        Err(e) => exists|i: int|
            0 <= i < seeds.len() && (forall|j: int|
                0 <= j < i ==> #[trigger] seed_imported(run_step, declared, opt_view(seeds[j].0), j))
                && #[trigger] seed_import_failed(run_step, declared, opt_view(seeds[i].0), seeds[i].1@, i, e),
    }
}

/// What the built-in seed task answers, for each answer of `parse` and
/// `run_step`: the missing or invalid metadata, the missing container
/// registry or default container, or the outcome of importing the seeds.
pub open spec fn seed_task_outcome<
    P: FnOnce(&str) -> Result<Vec<(Option<String>, String)>, String>,
    S: Fn(usize, usize, SeedStep) -> Result<SeedStepOutput, RunnerError>,
>(
    env: Seq<(String, String)>,
    parse: P,
    manifest_path: Seq<char>,
    containers: SeedContainerRegistry,
    declared: Seq<Seq<char>>,
    run_step: S,
    r: Result<(), RunnerError>,
) -> bool {
    match seed_metadata_in(pair_views(env)) {
        None => r matches Err(e) && is_invocation(e, "database seed metadata is missing from the seed environment"@),
        Some(t) => exists|tx: &str, out: Result<Vec<(Option<String>, String)>, String>|
            tx@ == t && #[trigger] parse.ensures((tx,), out) && match out {
                Err(msg) => r matches Err(e) && is_invocation(e, "invalid database seed metadata: "@ + msg@),
                Ok(seeds) => if !containers.present {
                    r matches Err(e) && is_invocation(e, "manifest does not define a `[containers]` registry"@)
                } else {
                    match containers.default {
                        None => r matches Err(e) && is_invocation(e, "manifest does not declare a default container"@),
                        Some(n) => if !containers.default_defined {
                            r matches Err(e) && is_invocation(
                                e,
                                "default container `"@ + n@ + "` is not defined in `"@ + manifest_path + "`"@,
                            )
                        } else {
                            seeds_outcome(run_step, declared, seeds@, r)
                        },
                    }
                },
            },
    }
}

/// The built-in seed task: reads the seed metadata from the environment
/// (`parse` reads the JSON into each seed's target and staged path),
/// checks the manifest's default container, then for each seed in order
/// chooses its declared target and runs the reset then the import there
/// (`run_step`); a step that exits unsuccessfully fails with its output.
/// The first failure ends the task.
pub fn run_builtin_db_seed_task<P, S>(
    env: &Vec<(String, String)>,
    parse: P,
    manifest_path: &str,
    containers: &SeedContainerRegistry,
    declared: &Vec<String>,
    run_step: S,
) -> (r: Result<(), RunnerError>) where
    P: FnOnce(&str) -> Result<Vec<(Option<String>, String)>, String>,
    S: Fn(usize, usize, SeedStep) -> Result<SeedStepOutput, RunnerError>,

    requires
        forall|t: &str| parse.requires((t,)),
        forall|a: usize, b: usize, c: SeedStep| run_step.requires((a, b, c)),
    ensures
        seed_task_outcome(env@, parse, manifest_path@, *containers, views(declared@), run_step, r),
{
    let metadata = match env_get(env, "EFFIGY_DB_SEEDS_JSON") {
        Some(v) => v,
        None => match env_get(env, "EFFIGY_BOOTSTRAP_DB_SEEDS_JSON") {
            Some(v) => v,
            None => {
                return Err(RunnerError::task_invocation("database seed metadata is missing from the seed environment"));
            },
        },
    };
    let text = metadata.as_str();
    let parsed_out = parse(text);
    assert(parse.ensures((text,), parsed_out));
    let seeds = match parsed_out {
        Ok(s) => s,
        Err(error) => {
            let m = crate::text::cat("invalid database seed metadata: ", error.as_str());
            return Err(RunnerError::task_invocation(m.as_str()));
        },
    };
    if !containers.present {
        return Err(RunnerError::task_invocation("manifest does not define a `[containers]` registry"));
    }
    let name = match &containers.default {
        Some(n) => n,
        None => {
            return Err(RunnerError::task_invocation("manifest does not declare a default container"));
        },
    };
    if !containers.default_defined {
        let mut m = crate::text::cat3("default container `", name.as_str(), "` is not defined in `");
        m.append(manifest_path);
        m.append("`");
        return Err(RunnerError::task_invocation(m.as_str()));
    }
    let ghost parsed = parse.ensures((text,), Ok(seeds));
    assert(parsed);
    let mut i: usize = 0;
    while i < seeds.len()
        invariant
            i <= seeds.len(),
            seed_metadata_in(pair_views(env@)) == Some(text@),
            parse.ensures((text,), Ok(seeds)),
            containers.present && containers.default is Some && containers.default_defined,
            forall|a: usize, b: usize, c: SeedStep| run_step.requires((a, b, c)),
            forall|j: int|
                0 <= j < i ==> #[trigger] seed_imported(run_step, views(declared@), opt_view(seeds@[j].0), j),
        decreases seeds.len() - i,
    {
        let target = match &seeds[i].0 {
            Some(t) => Some(t.as_str()),
            None => None,
        };
        assert(opt_view(seeds@[i as int].0) == match target {
            Some(t) => Some(t@),
            None => None,
        });
        let k = match builtin_seed_target(target, seeds[i].1.as_str(), declared) {
            Ok(k) => k,
            Err(e) => {
                assert(seed_import_failed(run_step, views(declared@), opt_view(seeds@[i as int].0), seeds@[i as int].1@, i as int, e));
                return Err(e);
            },
        };
        match run_seed_step(&run_step, i, k, SeedStep::Reset) {
            Ok(u) => {
                proof {
                    crate::error::lemma_unit(u);
                }
            },
            Err(e) => {
                assert(seed_import_failed(run_step, views(declared@), opt_view(seeds@[i as int].0), seeds@[i as int].1@, i as int, e));
                return Err(e);
            },
        }
        match run_seed_step(&run_step, i, k, SeedStep::Import) {
            Ok(u) => {
                proof {
                    crate::error::lemma_unit(u);
                }
            },
            Err(e) => {
                assert(seed_import_failed(run_step, views(declared@), opt_view(seeds@[i as int].0), seeds@[i as int].1@, i as int, e));
                return Err(e);
            },
        }
        assert(opt_view(seeds@[i as int].0) == match target {
            Some(t) => Some(t@),
            None => None,
        });
        assert(seed_imported(run_step, views(declared@), opt_view(seeds@[i as int].0), i as int));
        i = i + 1;
    }
    Ok(())
}

/// A seed to stage: the target it names and how its source is shown.
#[derive(Debug)]
pub struct DbSeedPlan {
    pub target: Option<String>,
    pub source_display: String,
}

/// What staging a seed's artifact gave: the artifact's source, its primary
/// file and that file's name.
#[derive(Debug)]
pub struct StagedArtifact {
    pub source: String,
    pub primary_file: Option<String>,
    pub file_name: Option<String>,
}

pub open spec fn staged_names(seeds: Seq<StagedDbSeed>) -> Seq<Seq<char>> {
    seeds.map_values(|s: StagedDbSeed| s.staged_file_name@)
}

/// Whether `write` may have written `contents` to the metadata file `name`.
pub open spec fn metadata_written<M: Fn(&str, &str) -> Result<(), RunnerError>>(
    write: M,
    name: Seq<char>,
    contents: Seq<char>,
) -> bool {
    exists|n: &str, c: &str| n@ == name && c@ == contents && #[trigger] write.ensures((n, c), Ok(()))
}

/// Whether `copy` may have answered `out` for copying `from` to `to`.
pub open spec fn copy_gave<C: Fn(&str, &str) -> Result<(), RunnerError>>(
    copy: C,
    from: Seq<char>,
    to: Seq<char>,
    out: Result<(), RunnerError>,
) -> bool {
    exists|a: &str, b: &str| a@ == from && b@ == to && #[trigger] copy.ensures((a, b), out)
}

/// Whether `s` is seed `i` staged: `stage` gave its artifact with a primary
/// file and its name, the file was copied (`copy`) to the staged name
/// `staged_seed_name` of the plan's target and the file's name, and `s`
/// records that name, the target and the artifact's source.
pub open spec fn seed_staged<S: Fn(usize) -> Result<StagedArtifact, RunnerError>, C: Fn(&str, &str) -> Result<(), RunnerError>>(
    stage: S,
    copy: C,
    plan: DbSeedPlan,
    i: int,
    s: StagedDbSeed,
) -> bool {
    exists|k: usize, a: StagedArtifact|
        k == i && #[trigger] stage.ensures((k,), Ok(a)) && (a.primary_file matches Some(p) && a.file_name matches Some(n)
            && s.staged_file_name@ == staged_seed_name(opt_view(plan.target), n@) && opt_view(s.target)
            == opt_view(plan.target) && s.source_path@ == a.source@ && copy_gave(
            copy,
            p@,
            s.staged_file_name@,
            Ok(()),
        ))
}

/// Whether the seeds `done` are the first seeds of `plans`, each staged.
pub open spec fn all_staged<S: Fn(usize) -> Result<StagedArtifact, RunnerError>, C: Fn(&str, &str) -> Result<(), RunnerError>>(
    stage: S,
    copy: C,
    plans: Seq<DbSeedPlan>,
    done: Seq<StagedDbSeed>,
) -> bool {
    done.len() <= plans.len() && forall|j: int| 0 <= j < done.len() ==> #[trigger] seed_staged(stage, copy, plans[j], j, done[j])
}

/// Whether staging seed `i`, after seeds that took the names `taken`, may
/// fail with `e`: `stage` failed; its artifact has no primary file, or that
/// file no name; an earlier seed took its staged name; or, its name free,
/// the copy failed.
pub open spec fn seed_failed<S: Fn(usize) -> Result<StagedArtifact, RunnerError>, C: Fn(&str, &str) -> Result<(), RunnerError>>(
    stage: S,
    copy: C,
    plan: DbSeedPlan,
    i: int,
    taken: Seq<Seq<char>>,
    e: RunnerError,
) -> bool {
    exists|k: usize, out: Result<StagedArtifact, RunnerError>|
        k == i && #[trigger] stage.ensures((k,), out) && match out {
            Err(x) => x == e,
            Ok(a) => match a.primary_file {
                None => is_invocation(e, "db seed artifact produced no primary file: "@ + plan.source_display@),
                Some(p) => match a.file_name {
                    None => is_invocation(e, "db seed artifact primary file has no file name: "@ + p@),
                    Some(n) => {
                        let name = staged_seed_name(opt_view(plan.target), n@);
                        if taken.contains(name) {
                            is_invocation(e, duplicate_seed_message(name))
                        } else {
                            copy_gave(copy, p@, name, Err(e))
                        }
                    },
                },
            },
        }
}

/// Whether `write` may have failed with `e` writing a metadata file.
pub open spec fn metadata_write_failed<M: Fn(&str, &str) -> Result<(), RunnerError>>(write: M, e: RunnerError) -> bool {
    exists|n: &str, c: &str|
        (n@ == "_effigy-db-seeds.json"@ || n@ == "_effigy-bootstrap-db-seeds.json"@) && #[trigger] write.ensures(
            (n, c),
            Err(e),
        )
}

/// Stages the seed files: for each seed in order its artifact is staged
/// (`stage`), its primary file is copied into the seed directory (`copy`,
/// from the file to its staged name) under `{target}--{file}` or the file's
/// own name, and no two seeds may take the same name; then the seeds'
/// metadata is written (`write`) under both the current and the legacy
/// metadata file names. The first failure ends the staging.
pub fn stage_db_seed_files_with_adapter<S, C, M>(
    plans: &Vec<DbSeedPlan>,
    stage: S,
    copy: C,
    write: M,
) -> (r: Result<Vec<StagedDbSeed>, RunnerError>) where
    S: Fn(usize) -> Result<StagedArtifact, RunnerError>,
    C: Fn(&str, &str) -> Result<(), RunnerError>,
    M: Fn(&str, &str) -> Result<(), RunnerError>,

    requires
        forall|i: usize| stage.requires((i,)),
        forall|a: &str, b: &str| copy.requires((a, b)),
        forall|a: &str, b: &str| write.requires((a, b)),
    ensures
        r matches Ok(staged) ==> {
            &&& staged@.len() == plans@.len()
            &&& staged_names(staged@).no_duplicates()
            &&& forall|i: int|
                0 <= i < plans@.len() ==> opt_view(#[trigger] staged@[i].target) == opt_view(plans@[i].target)
            &&& metadata_written(write, "_effigy-db-seeds.json"@, seed_metadata_json(metadata_entries(staged@)))
            &&& metadata_written(
                write,
                "_effigy-bootstrap-db-seeds.json"@,
                seed_metadata_json(metadata_entries(staged@)),
            )
            &&& forall|i: int| 0 <= i < plans@.len() ==> #[trigger] seed_staged(stage, copy, plans@[i], i, staged@[i])
        },
        r matches Err(e) ==> {
            ||| exists|done: Seq<StagedDbSeed>|
                #[trigger] all_staged(stage, copy, plans@, done) && done.len() == plans@.len()
                    && metadata_write_failed(write, e)
            ||| exists|done: Seq<StagedDbSeed>|
                #[trigger] all_staged(stage, copy, plans@, done) && done.len() < plans@.len() && seed_failed(
                    stage,
                    copy,
                    plans@[done.len() as int],
                    done.len() as int,
                    staged_names(done),
                    e,
                )
        },
{
    let mut taken: Vec<String> = Vec::new();
    let mut staged: Vec<StagedDbSeed> = Vec::new();
    let mut i: usize = 0;
    while i < plans.len()
        invariant
            i <= plans.len(),
            staged@.len() == i,
            views(taken@) == staged_names(staged@),
            views(taken@).no_duplicates(),
            forall|j: int| 0 <= j < i ==> opt_view(#[trigger] staged@[j].target) == opt_view(plans@[j].target),
            forall|j: int| 0 <= j < i ==> #[trigger] seed_staged(stage, copy, plans@[j], j, staged@[j]),
            all_staged(stage, copy, plans@, staged@),
            forall|k: usize| stage.requires((k,)),
            forall|a: &str, b: &str| copy.requires((a, b)),
        decreases plans.len() - i,
    {
        let plan = &plans[i];
        let staged_out = stage(i);
        let ghost gout = staged_out;
        let artifact = match staged_out {
            Ok(a) => a,
            Err(e) => {
                assert(seed_failed(stage, copy, plans@[i as int], i as int, staged_names(staged@), e));
                return Err(e);
            },
        };
        let primary = match &artifact.primary_file {
            Some(p) => p,
            None => {
                let m = crate::text::cat("db seed artifact produced no primary file: ", plan.source_display.as_str());
                let e = RunnerError::task_invocation(m.as_str());
                assert(seed_failed(stage, copy, plans@[i as int], i as int, staged_names(staged@), e));
                return Err(e);
            },
        };
        let file_name = match &artifact.file_name {
            Some(n) => n,
            None => {
                let m = crate::text::cat("db seed artifact primary file has no file name: ", primary.as_str());
                let e = RunnerError::task_invocation(m.as_str());
                assert(seed_failed(stage, copy, plans@[i as int], i as int, staged_names(staged@), e));
                return Err(e);
            },
        };
        let target = match &plan.target {
            Some(t) => Some(t.as_str()),
            None => None,
        };
        let name = staged_name(target, file_name.as_str());
        let ghost name_view = name@;
        let ghost taken_before = views(taken@);
        match claim_staged_name(&mut taken, name) {
            Ok(u) => {
                proof {
                    crate::error::lemma_unit(u);
                }
            },
            Err(e) => {
                assert(seed_failed(stage, copy, plans@[i as int], i as int, staged_names(staged@), e));
                return Err(e);
            },
        }
        assert(!taken_before.contains(name_view));
        assert(views(taken@) == taken_before.push(name_view));
        assert(views(taken@)[views(taken@).len() - 1] == name_view);
        let last = taken.len() - 1;
        let staged_file_name = owned(taken[last].as_str());
        assert(staged_file_name@ == name_view);
        match copy(primary.as_str(), staged_file_name.as_str()) {
            Ok(u) => {
                proof {
                    crate::error::lemma_unit(u);
                }
            },
            Err(e) => {
                assert(copy_gave(copy, primary@, name_view, Err(e)));
                assert(seed_failed(stage, copy, plans@[i as int], i as int, staged_names(staged@), e));
                return Err(e);
            },
        }
        assert(copy_gave(copy, primary@, name_view, Ok(())));
        let t = match &plan.target {
            Some(t) => Some(owned(t.as_str())),
            None => None,
        };
        let ghost before = staged@;
        staged.push(StagedDbSeed { target: t, source_path: owned(artifact.source.as_str()), staged_file_name });
        assert(staged_names(staged@) =~= staged_names(before).push(name_view));
        assert(seed_staged(stage, copy, plans@[i as int], i as int, staged@[i as int]));
        i = i + 1;
    }
    let mut entries: Vec<(Option<String>, String, String)> = Vec::new();
    let mut k: usize = 0;
    while k < staged.len()
        invariant
            k <= staged.len(),
            metadata_views(entries@) == metadata_entries(staged@.take(k as int)),
        decreases staged.len() - k,
    {
        let s = &staged[k];
        let rel = path_join(".effigy/local/db-seeds", s.staged_file_name.as_str());
        let target = match &s.target {
            Some(t) => Some(owned(t.as_str())),
            None => None,
        };
        let ghost m0 = metadata_views(entries@);
        entries.push((target, owned(s.source_path.as_str()), rel));
        assert(metadata_views(entries@) =~= m0.push(
            (opt_view(staged@[k as int].target), staged@[k as int].source_path@, staged_rel_path(staged@[k as int])),
        ));
        assert(metadata_entries(staged@.take(k + 1)) =~= metadata_entries(staged@.take(k as int)).push(
            (opt_view(staged@[k as int].target), staged@[k as int].source_path@, staged_rel_path(staged@[k as int])),
        ));
        k = k + 1;
    }
    assert(staged@.take(staged.len() as int) =~= staged@);
    let json = encode_seed_metadata(&entries);
    let first = "_effigy-db-seeds.json";
    let c = json.as_str();
    match write(first, c) {
        Ok(u) => {
            proof {
                crate::error::lemma_unit(u);
            }
        },
        Err(e) => {
            assert(metadata_write_failed(write, e));
            return Err(e);
        },
    }
    assert(metadata_written(write, "_effigy-db-seeds.json"@, seed_metadata_json(metadata_entries(staged@))));
    let legacy = "_effigy-bootstrap-db-seeds.json";
    match write(legacy, c) {
        Ok(u) => {
            proof {
                crate::error::lemma_unit(u);
            }
        },
        Err(e) => {
            assert(metadata_write_failed(write, e));
            return Err(e);
        },
    }
    assert(metadata_written(
        write,
        "_effigy-bootstrap-db-seeds.json"@,
        seed_metadata_json(metadata_entries(staged@)),
    ));
    Ok(staged)
}

} // verus!
