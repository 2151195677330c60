//! `effigy distribution`: the checks a release must pass before it is
//! published, and the summaries they write.
use vstd::prelude::*;
use std::cmp::Ordering;
use crate::deploy::render::opt_view;
use crate::error::{is_invocation, RunnerError};
use crate::paths::{join_path, path_join};
use crate::text::{all_digits, dec, join_seq, parse_unsigned, split_on, str_eq, views};
use regex::Regex;

verus! {

/// A version number as the glibc check reads it: a `u32` before the first
/// `.` and one after it; anything after a second `.` is ignored.
pub open spec fn parse_u32(s: Seq<char>) -> Option<nat> {
    match parse_unsigned(s) {
        Some(n) => if n <= u32::MAX {
            Some(n)
        } else {
            None
        },
        None => None,
    }
}

pub open spec fn glibc_pair(s: Seq<char>) -> Option<(nat, nat)> {
    let parts = split_on(s, '.');
    if parts.len() >= 2 {
        match (parse_u32(parts[0]), parse_u32(parts[1])) {
            (Some(a), Some(b)) => Some((a, b)),
            _ => None,
        }
    } else {
        None
    }
}

/// The order of two version pairs: by major, then minor.
pub open spec fn pair_order(a: (nat, nat), b: (nat, nat)) -> Ordering {
    if a.0 < b.0 {
        Ordering::Less
    } else if a.0 > b.0 {
        Ordering::Greater
    } else if a.1 < b.1 {
        Ordering::Less
    } else if a.1 > b.1 {
        Ordering::Greater
    } else {
        Ordering::Equal
    }
}

pub open spec fn glibc_order(left: Seq<char>, right: Seq<char>) -> Option<Ordering> {
    match (glibc_pair(left), glibc_pair(right)) {
        (Some(a), Some(b)) => Some(pair_order(a, b)),
        _ => None,
    }
}

/// Swapping two glibc versions reverses their comparison, and whether they
/// compare at all does not depend on their order.
pub proof fn lemma_glibc_order_reverses(a: Seq<char>, b: Seq<char>)
    ensures
        glibc_order(a, b) == Some(Ordering::Less) <==> glibc_order(b, a) == Some(Ordering::Greater),
        glibc_order(a, b) == Some(Ordering::Equal) <==> glibc_order(b, a) == Some(Ordering::Equal),
        glibc_order(a, b) is None <==> glibc_order(b, a) is None,
{
}

/// Comparing glibc versions is transitive.
pub proof fn lemma_glibc_order_transitive(a: Seq<char>, b: Seq<char>, c: Seq<char>)
    requires
        glibc_order(a, b) == Some(Ordering::Less),
        glibc_order(b, c) == Some(Ordering::Less),
    ensures
        glibc_order(a, c) == Some(Ordering::Less),
{
}

fn parse_glibc_pair(s: &str) -> (r: Option<(u64, u64)>)
    ensures
        match glibc_pair(s@) {
            Some(p) => r matches Some(q) && q.0 == p.0 && q.1 == p.1,
            None => r is None,
        },
{
    let parts = crate::text::split_str(s, '.');
    if parts.len() < 2 {
        return None;
    }
    assert(parts@[0]@ == split_on(s@, '.')[0]);
    assert(parts@[1]@ == split_on(s@, '.')[1]);
    let a = match crate::text::parse_bounded(parts[0].as_str(), 4294967295) {
        Some(a) => a,
        None => return None,
    };
    let b = match crate::text::parse_bounded(parts[1].as_str(), 4294967295) {
        Some(b) => b,
        None => return None,
    };
    Some((a, b))
}

/// Compares two glibc versions `major.minor`; `None` when either does not
/// read as one.
pub fn compare_glibc_versions(left: &str, right: &str) -> (r: Option<Ordering>)
    ensures
        r == glibc_order(left@, right@),
{
    let a = match parse_glibc_pair(left) {
        Some(p) => p,
        None => return None,
    };
    let b = match parse_glibc_pair(right) {
        Some(p) => p,
        None => return None,
    };
    if a.0 < b.0 {
        Some(Ordering::Less)
    } else if a.0 > b.0 {
        Some(Ordering::Greater)
    } else if a.1 < b.1 {
        Some(Ordering::Less)
    } else if a.1 > b.1 {
        Some(Ordering::Greater)
    } else {
        Some(Ordering::Equal)
    }
}

/// Whether `s` is two runs of ASCII digits around one `.`.
pub open spec fn is_digit_pair(s: Seq<char>) -> bool {
    exists|k: int|
        0 < k < s.len() - 1 && #[trigger] s[k] == '.' && all_digits(s.take(k)) && all_digits(
            s.skip(k + 1),
        )
}

/// The glibc versions that `GLIBC_([0-9]+\.[0-9]+)` captures in `text`, in
/// order.
pub uninterp spec fn glibc_versions_in(text: Seq<char>) -> Seq<Seq<char>>;

/// `Regex::captures_iter` with the pattern `GLIBC_([0-9]+\.[0-9]+)`: the
/// group of each match, named by [`glibc_versions_in`]; by the pattern each
/// is two digit runs around a `.`.
#[verifier::external_body]
fn glibc_captures(text: &str) -> (r: Vec<String>)
    ensures
        views(r@) == glibc_versions_in(text@),
        forall|i: int| 0 <= i < r@.len() ==> is_digit_pair(#[trigger] r@[i]@),
{
    let pattern = Regex::new("GLIBC_([0-9]+\\.[0-9]+)").expect("glibc regex");
    pattern.captures_iter(text).map(|capture| capture[1].to_owned()).collect()
}

/// The tools that list a binary's symbol versions, in the order tried.
pub open spec fn glibc_tools(binary: Seq<char>) -> Seq<(Seq<char>, Seq<Seq<char>>)> {
    seq![
        ("readelf"@, seq!["--version-info"@, binary]),
        ("objdump"@, seq!["-T"@, binary]),
        ("strings"@, seq![binary]),
    ]
}

/// Whether `run`, handed a tool and its arguments, may answer `out`.
pub open spec fn tool_gave<T: Fn(&str, &Vec<String>) -> Option<Result<String, RunnerError>>>(
    run: T,
    tool: (Seq<char>, Seq<Seq<char>>),
    out: Option<Result<String, RunnerError>>,
) -> bool {
    exists|p: &str, a: &Vec<String>|
        p@ == tool.0 && views(a@) == tool.1 && #[trigger] run.ensures((p, a), out)
}

/// Whether version pair `a` is older than `b`.
pub open spec fn pair_less(a: (nat, nat), b: (nat, nat)) -> bool {
    a.0 < b.0 || (a.0 == b.0 && a.1 < b.1)
}

/// Whether glibc version `l` is older than `r`; never when either does not
/// read as a version.
pub open spec fn glibc_less(l: Seq<char>, r: Seq<char>) -> bool {
    match (glibc_pair(l), glibc_pair(r)) {
        (Some(a), Some(b)) => pair_less(a, b),
        _ => false,
    }
}

/// Sorted by glibc version wherever both versions read as one.
pub open spec fn glibc_sorted(s: Seq<Seq<char>>) -> bool {
    forall|i: int, j: int| 0 <= i < j < s.len() ==> !glibc_less(#[trigger] s[j], #[trigger] s[i])
}

fn is_less(a: &str, b: &str) -> (r: bool)
    ensures
        r == glibc_less(a@, b@),
{
    match compare_glibc_versions(a, b) {
        Some(Ordering::Less) => true,
        _ => false,
    }
}

#[verifier::spinoff_prover]
#[verifier::rlimit(40)]
fn insert_by_version(v: &mut Vec<String>, x: String)
    requires
        glibc_sorted(views(old(v)@)),
    ensures
        glibc_sorted(views(final(v)@)),
        views(final(v)@).to_set() == views(old(v)@).to_set().insert(x@),
{
    let mut p: usize = 0;
    while p < v.len() && !is_less(x.as_str(), v[p].as_str())
        invariant
            p <= v.len(),
            forall|q: int| 0 <= q < p ==> !glibc_less(x@, #[trigger] v@[q]@),
        decreases v.len() - p,
    {
        p = p + 1;
    }
    let ghost s = views(v@);
    let ghost xv = x@;
    v.insert(p, x);
    assert(views(v@) =~= s.insert(p as int, xv));
    proof {
        let t = views(v@);
        assert forall|i: int, j: int| 0 <= i < j < t.len() implies !glibc_less(
            #[trigger] t[j],
            #[trigger] t[i],
        ) by {
            if j < p {
                assert(t[i] == s[i] && t[j] == s[j]);
            } else if j == p {
                assert(t[i] == s[i] && t[j] == xv);
            } else if i > p {
                assert(t[i] == s[i - 1] && t[j] == s[j - 1]);
            } else if i == p {
                assert(t[j] == s[j - 1]);
                if j - 1 > p {
                    assert(!glibc_less(s[j - 1], s[p as int]));
                }
            } else {
                assert(t[i] == s[i] && t[j] == s[j - 1]);
            }
        }
        assert(t.to_set() =~= s.to_set().insert(xv)) by {
            assert forall|e: Seq<char>| t.to_set().contains(e) <==> s.to_set().insert(xv).contains(e) by {
                if t.to_set().contains(e) {
                    let k = choose|k: int| 0 <= k < t.len() && t[k] == e;
                    if k < p {
                        assert(s[k] == e);
                    } else if k > p {
                        assert(s[k - 1] == e);
                    }
                }
                if s.to_set().contains(e) {
                    let k = choose|k: int| 0 <= k < s.len() && s[k] == e;
                    if k < p {
                        assert(t[k] == e);
                    } else {
                        assert(t[k + 1] == e);
                    }
                }
                if e == xv {
                    assert(t[p as int] == e);
                }
            }
        }
    }
}

/// No two neighbours are the same (what `Vec::dedup` leaves).
pub open spec fn no_adjacent_repeats(s: Seq<Seq<char>>) -> bool {
    forall|i: int| 0 <= i < s.len() - 1 ==> #[trigger] s[i] != s[i + 1]
}

fn dedup_adjacent(v: Vec<String>) -> (r: Vec<String>)
    requires
        glibc_sorted(views(v@)),
    ensures
        glibc_sorted(views(r@)),
        no_adjacent_repeats(views(r@)),
        views(r@).to_set() == views(v@).to_set(),
{
    let mut out: Vec<String> = Vec::new();
    let mut idx: Ghost<Seq<int>> = Ghost(Seq::empty());
    let mut i: usize = 0;
    while i < v.len()
        invariant
            i <= v.len(),
            glibc_sorted(views(v@)),
            idx@.len() == out@.len(),
            forall|k: int| 0 <= k < idx@.len() ==> 0 <= #[trigger] idx@[k] < i && out@[k]@ == v@[idx@[k]]@,
            forall|k: int, l: int| 0 <= k < l < idx@.len() ==> #[trigger] idx@[k] < #[trigger] idx@[l],
            no_adjacent_repeats(views(out@)),
            out@.len() > 0 ==> out@.last()@ == v@[i - 1]@,
            views(out@).to_set() == views(v@).take(i as int).to_set(),
        decreases v.len() - i,
    {
        assert(views(v@).take(i + 1) == views(v@).take(i as int).push(v@[i as int]@));
        proof {
            views(v@).take(i as int).lemma_push_to_set_commute(v@[i as int]@);
        }
        if out.len() > 0 && str_eq(out[out.len() - 1].as_str(), v[i].as_str()) {
            assert(views(out@).to_set().insert(v@[i as int]@) =~= views(out@).to_set()) by {
                assert(views(out@)[out@.len() - 1] == v@[i as int]@);
            }
        } else {
            let ghost before = views(out@);
            out.push(v[i].clone());
            proof {
                idx@ = idx@.push(i as int);
                before.lemma_push_to_set_commute(v@[i as int]@);
                assert(views(out@) == before.push(v@[i as int]@));
            }
        }
        i = i + 1;
    }
    assert(views(v@).take(v.len() as int) == views(v@));
    proof {
        let t = views(out@);
        assert forall|a: int, b: int| 0 <= a < b < t.len() implies !glibc_less(#[trigger] t[b], #[trigger] t[a]) by {
            assert(t[a] == views(v@)[idx@[a]] && t[b] == views(v@)[idx@[b]]);
        }
    }
    out
}

/// Whether `tool` may have given no glibc version: `run` answered that it
/// is not installed, or its output names none.
pub open spec fn tool_silent<T: Fn(&str, &Vec<String>) -> Option<Result<String, RunnerError>>>(
    run: T,
    tool: (Seq<char>, Seq<Seq<char>>),
) -> bool {
    exists|out: Option<Result<String, RunnerError>>|
        #[trigger] tool_gave(run, tool, out) && match out {
            None => true,
            Some(Ok(o)) => glibc_versions_in(o@).len() == 0,
            Some(Err(_)) => false,
        }
}

/// Runs the first available tool (`run` answers `None` for a tool that is
/// not installed) and collects the glibc versions its output names; the
/// versions come back ordered, without neighbouring repeats.
pub fn collect_glibc_versions<T: Fn(&str, &Vec<String>) -> Option<Result<String, RunnerError>>>(
    binary: &str,
    run: &T,
) -> (r: Result<Vec<String>, RunnerError>)
    requires
        forall|p: &str, a: &Vec<String>| run.requires((p, a)),
    ensures
        match r {
            Ok(v) => {
                &&& glibc_sorted(views(v@))
                &&& no_adjacent_repeats(views(v@))
                &&& forall|i: int| 0 <= i < v@.len() ==> is_digit_pair(#[trigger] v@[i]@)
                &&& v@.len() == 0 ==> forall|k: int| 0 <= k < 3 ==> #[trigger] tool_silent(*run, glibc_tools(binary@)[k])
                &&& v@.len() > 0 ==> exists|k: int, out: String|
                    0 <= k < 3 && (forall|j: int| 0 <= j < k ==> #[trigger] tool_silent(*run, glibc_tools(binary@)[j]))
                        && #[trigger] tool_gave(*run, glibc_tools(binary@)[k], Some(Ok(out)))
                        && glibc_versions_in(out@).len() > 0
                        && views(v@).to_set() == glibc_versions_in(out@).to_set()
            },
            Err(e) => exists|k: int|
                0 <= k < 3 && (forall|j: int| 0 <= j < k ==> #[trigger] tool_silent(*run, glibc_tools(binary@)[j]))
                    && #[trigger] tool_gave(*run, glibc_tools(binary@)[k], Some(Err(e))),
        },
{
    let tools: [(&str, Vec<String>); 3] = [
        ("readelf", vec!["--version-info".to_owned(), crate::text::owned(binary)]),
        ("objdump", vec!["-T".to_owned(), crate::text::owned(binary)]),
        ("strings", vec![crate::text::owned(binary)]),
    ];
    proof {
        reveal_strlit("readelf");
        reveal_strlit("objdump");
        reveal_strlit("strings");
    }
    let ghost spec_tools = glibc_tools(binary@);
    assert(forall|k: int| 0 <= k < 3 ==> (#[trigger] tools@[k]).0@ == spec_tools[k].0 && views(tools@[k].1@) == spec_tools[k].1);
    let mut captured: Vec<String> = Vec::new();
    let mut k: usize = 0;
    while k < 3
        invariant
            k <= 3,
            spec_tools == glibc_tools(binary@),
            forall|j: int| 0 <= j < 3 ==> (#[trigger] tools@[j]).0@ == spec_tools[j].0 && views(tools@[j].1@) == spec_tools[j].1,
            forall|p: &str, a: &Vec<String>| run.requires((p, a)),
            captured@.len() == 0,
            forall|j: int| 0 <= j < k ==> #[trigger] tool_silent(*run, spec_tools[j]),
        decreases 3 - k,
    {
        let (tool, args) = &tools[k];
        let answer = run(tool, args);
        let ghost ganswer = answer;
        assert(tool_gave(*run, spec_tools[k as int], ganswer));
        match answer {
            None => {
                assert(tool_silent(*run, spec_tools[k as int]));
            },
            Some(Err(e)) => {
                assert(tool_gave(*run, spec_tools[k as int], Some(Err(e))));
                return Err(e);
            },
            Some(Ok(out)) => {
                let found = glibc_captures(out.as_str());
                if found.len() > 0 {
                    assert(tool_gave(*run, spec_tools[k as int], Some(Ok(out))));
                    let mut sorted: Vec<String> = Vec::new();
                    let mut i: usize = 0;
                    while i < found.len()
                        invariant
                            i <= found.len(),
                            glibc_sorted(views(sorted@)),
                            views(sorted@).to_set() == views(found@).take(i as int).to_set(),
                        decreases found.len() - i,
                    {
                        assert(views(found@).take(i + 1) == views(found@).take(i as int).push(found@[i as int]@));
                        proof {
                            views(found@).take(i as int).lemma_push_to_set_commute(found@[i as int]@);
                        }
                        insert_by_version(&mut sorted, found[i].clone());
                        i = i + 1;
                    }
                    assert(views(found@).take(found.len() as int) == views(found@));
                    let r = dedup_adjacent(sorted);
                    proof {
                        assert forall|i: int| 0 <= i < r@.len() implies is_digit_pair(#[trigger] r@[i]@) by {
                            assert(views(r@)[i] == r@[i]@);
                            assert(views(r@).contains(r@[i]@));
                            assert(views(r@).to_set().contains(r@[i]@));
                            assert(views(found@).to_set().contains(r@[i]@));
                            let j = choose|j: int| 0 <= j < found@.len() && views(found@)[j] == r@[i]@;
                            assert(is_digit_pair(found@[j]@));
                        }
                    }
                    proof {
                        assert(views(found@)[0] == found@[0]@);
                        assert(views(found@).to_set().contains(found@[0]@));
                        assert(views(r@).to_set().contains(found@[0]@));
                        assert(r@.len() > 0);
                        assert(glibc_versions_in(out@).len() > 0);
                        assert(views(r@).to_set() == glibc_versions_in(out@).to_set());
                    }
                    return Ok(r);
                }
                assert(tool_silent(*run, spec_tools[k as int]));
            },
        }
        k = k + 1;
    }
    Ok(captured)
}

/// Whether version `required` is within the floor `max`: both read as
/// versions and `required` is not newer.
pub open spec fn glibc_within(required: Seq<char>, max: Seq<char>) -> bool {
    match (glibc_pair(required), glibc_pair(max)) {
        (Some(a), Some(b)) => !pair_less(b, a),
        _ => false,
    }
}

/// The floor is inclusive: a version is within a floor exactly when both
/// read as versions and it does not compare greater; every version that
/// reads as `major.minor` is within itself; of two versions, one is within
/// the other; and two versions each within the other are the same version.
pub proof fn lemma_glibc_floor_inclusive(v: Seq<char>, required: Seq<char>, max: Seq<char>)
    ensures
        glibc_within(required, max) <==> (glibc_order(required, max) is Some && glibc_order(
            required,
            max,
        ) != Some(Ordering::Greater)),
        glibc_pair(v) is Some ==> glibc_within(v, v),
        (glibc_pair(required) is Some && glibc_pair(max) is Some) ==> (glibc_within(required, max)
            || glibc_within(max, required)),
        (glibc_within(required, max) && glibc_within(max, required)) ==> glibc_pair(required)
            == glibc_pair(max),
        glibc_within(required, max) ==> !glibc_less(max, required),
{
}

fn within_floor(required: &str, max: &str) -> (r: bool)
    ensures
        r == glibc_within(required@, max@),
{
    match compare_glibc_versions(required, max) {
        Some(Ordering::Greater) => false,
        Some(_) => true,
        None => false,
    }
}

/// What the glibc floor check found.
#[derive(Debug)]
pub struct GlibcFloorReport {
    pub ok: bool,
    pub binary: String,
    pub required_glibc: Option<String>,
    pub max_glibc: String,
    pub dynamic_symbols_found: bool,
}

/// The glibc floor check of a binary: the newest glibc version its symbols
/// require (the last of the versions found) must be within `max_glibc`;
/// a binary that requires none passes. `binary_found` tells whether the
/// binary exists.
pub fn run_check_glibc_floor<T: Fn(&str, &Vec<String>) -> Option<Result<String, RunnerError>>>(
    binary: &str,
    max_glibc: &str,
    binary_found: bool,
    run: &T,
) -> (r: Result<GlibcFloorReport, RunnerError>)
    requires
        forall|p: &str, a: &Vec<String>| run.requires((p, a)),
    ensures
        !binary_found ==> (r matches Err(e) && is_invocation(e, "binary not found: "@ + binary@)),
        r matches Ok(rep) ==> {
            &&& binary_found
            &&& rep.binary@ == binary@ && rep.max_glibc@ == max_glibc@
            &&& rep.dynamic_symbols_found == rep.required_glibc is Some
            &&& rep.ok == match rep.required_glibc {
                Some(req) => glibc_within(req@, max_glibc@),
                None => true,
            }
            &&& exists|v: Vec<String>|
                {
                    &&& #[trigger] glibc_sorted(views(v@))
                    &&& opt_view(rep.required_glibc) == if v@.len() > 0 {
                        Some(v@.last()@)
                    } else {
                        None
                    }
                    &&& (v@.len() == 0 || exists|k: int, out: String|
                        0 <= k < 3 && #[trigger] tool_gave(
                            *run,
                            glibc_tools(binary@)[k],
                            Some(Ok(out)),
                        ) && views(v@).to_set() == glibc_versions_in(out@).to_set())
                }
        },
        r matches Err(e) ==> !binary_found || exists|k: int|
            0 <= k < 3 && #[trigger] tool_gave(*run, glibc_tools(binary@)[k], Some(Err(e))),
{
    if !binary_found {
        let m = crate::text::cat("binary not found: ", binary);
        return Err(RunnerError::task_invocation(m.as_str()));
    }
    let versions = match collect_glibc_versions(binary, run) {
        Ok(v) => v,
        Err(e) => return Err(e),
    };
    let (ok, required) = if versions.len() > 0 {
        let req = versions[versions.len() - 1].clone();
        (within_floor(req.as_str(), max_glibc), Some(req))
    } else {
        (true, None)
    };
    let found = required.is_some();
    Ok(
        GlibcFloorReport {
            ok,
            binary: crate::text::owned(binary),
            required_glibc: required,
            max_glibc: crate::text::owned(max_glibc),
            dynamic_symbols_found: found,
        },
    )
}

/// The text of the glibc floor check, or the error that fails it.
pub open spec fn glibc_floor_outcome(rep: GlibcFloorReport) -> (bool, Seq<char>) {
    match rep.required_glibc {
        Some(req) => if rep.ok {
            (
                true,
                "[ok] "@ + rep.binary@ + " GLIBC floor is compatible (requires GLIBC_"@ + req@
                    + ", max GLIBC_"@ + rep.max_glibc@ + ")"@,
            )
        } else {
            (
                false,
                rep.binary@ + " requires GLIBC_"@ + req@ + " but the release floor is GLIBC_"@
                    + rep.max_glibc@,
            )
        },
        None => (true, "[ok] no dynamic GLIBC symbol requirements found: "@ + rep.binary@),
    }
}

/// The glibc floor check as text: success, or the error naming the
/// required and allowed versions.
pub fn glibc_floor_text(rep: &GlibcFloorReport) -> (r: Result<String, RunnerError>)
    ensures
        match r {
            Ok(t) => glibc_floor_outcome(*rep) == (true, t@),
            Err(e) => !glibc_floor_outcome(*rep).0 && is_invocation(e, glibc_floor_outcome(*rep).1),
        },
{
    match &rep.required_glibc {
        Some(req) => {
            if rep.ok {
                let mut t = crate::text::cat3("[ok] ", rep.binary.as_str(), " GLIBC floor is compatible (requires GLIBC_");
                t.append(req.as_str());
                t.append(", max GLIBC_");
                t.append(rep.max_glibc.as_str());
                t.append(")");
                Ok(t)
            } else {
                let mut t = crate::text::cat3(rep.binary.as_str(), " requires GLIBC_", req.as_str());
                t.append(" but the release floor is GLIBC_");
                t.append(rep.max_glibc.as_str());
                Err(RunnerError::task_invocation(t.as_str()))
            }
        },
        None => Ok(crate::text::cat("[ok] no dynamic GLIBC symbol requirements found: ", rep.binary.as_str())),
    }
}

/// A path given on the command line: as it is when absolute, else under
/// the repository root.
pub fn resolve_repo_input(repo_root: &str, path: &str) -> (r: String)
    ensures
        r@ == join_path(repo_root@, path@),
{
    path_join(repo_root, path)
}

/// Whether `s[from..to]` is a non-empty run of ASCII digits.
pub open spec fn digit_run(s: Seq<char>, from: int, to: int) -> bool {
    0 <= from < to <= s.len() && forall|i: int| from <= i < to ==> '0' <= #[trigger] s[i] <= '9'
}

/// Whether `c` is an ASCII letter or digit, or `.`.
pub open spec fn is_suffix_char(c: char) -> bool {
    ('0' <= c <= '9') || ('A' <= c <= 'Z') || ('a' <= c <= 'z') || c == '.'
}

/// Whether `s[from..]` is three digit runs split by `.` at `a` and `b`,
/// ending at `c`, then nothing or a `-` or `.` and at least one of
/// `[0-9A-Za-z.]`.
pub open spec fn version_split(s: Seq<char>, from: int, a: int, b: int, c: int) -> bool {
    &&& digit_run(s, from, a) && s[a] == '.' && digit_run(s, a + 1, b) && s[b] == '.' && digit_run(s, b + 1, c)
    &&& c == s.len() || (c + 1 < s.len() && (s[c] == '-' || s[c] == '.') && forall|i: int|
        c + 1 <= i < s.len() ==> is_suffix_char(#[trigger] s[i]))
}

/// Whether `s` matches `^[0-9]+\.[0-9]+\.[0-9]+([-.][0-9A-Za-z.]+)?$`.
pub open spec fn semver_like(s: Seq<char>) -> bool {
    exists|a: int, b: int, c: int| #[trigger] version_split(s, 0, a, b, c)
}

/// Whether `s` matches `^v[0-9]+\.[0-9]+\.[0-9]+([-.][0-9A-Za-z.]+)?$`.
pub open spec fn release_tag_like(s: Seq<char>) -> bool {
    s.len() > 0 && s[0] == 'v' && exists|a: int, b: int, c: int| #[trigger] version_split(s, 1, a, b, c)
}

/// `Regex::is_match` with the pattern
/// `^[0-9]+\.[0-9]+\.[0-9]+([-.][0-9A-Za-z.]+)?$`: whether `s` is in the
/// language that pattern denotes, which [`semver_like`] spells out.
#[verifier::external_body]
fn is_semver_like(s: &str) -> (r: bool)
    ensures
        r == semver_like(s@),
{
    Regex::new("^[0-9]+\\.[0-9]+\\.[0-9]+([-.][0-9A-Za-z.]+)?$").expect("semver regex").is_match(s)
}

/// `Regex::is_match` with the pattern
/// `^v[0-9]+\.[0-9]+\.[0-9]+([-.][0-9A-Za-z.]+)?$`: whether `s` is in the
/// language that pattern denotes, which [`release_tag_like`] spells out.
#[verifier::external_body]
fn is_release_tag(s: &str) -> (r: bool)
    ensures
        r == release_tag_like(s@),
{
    Regex::new("^v[0-9]+\\.[0-9]+\\.[0-9]+([-.][0-9A-Za-z.]+)?$").expect("tag regex").is_match(s)
}

/// The distribution policy of a repository.
#[derive(Debug)]
pub struct DistributionPolicy {
    pub package_name: String,
    pub required_docs: Vec<String>,
    pub required_files: Vec<String>,
    pub manifest_adopted: bool,
    pub docs_task: String,
    pub smoke_task: String,
}

/// The string fields of a Cargo `[package]` (or `[workspace.package]`)
/// table; each is missing when absent or not a string.
#[derive(Debug)]
pub struct CargoPackageFields {
    pub name: Option<String>,
    pub version: Option<String>,
    pub license: Option<String>,
    pub description: Option<String>,
}

/// The outcome of the metadata validation.
#[derive(Debug)]
pub struct MetadataReport {
    pub ok: bool,
    pub name: String,
    pub version: String,
    pub license: String,
    pub description: String,
    pub tag: Option<String>,
    pub required_docs: Vec<String>,
    pub required_files: Vec<String>,
    pub errors: Vec<String>,
}

pub open spec fn or_empty(o: Option<String>) -> Seq<char> {
    match o {
        Some(s) => s@,
        None => Seq::empty(),
    }
}

/// The checks on the package fields and the tag, in order.
pub open spec fn field_errors(
    policy: DistributionPolicy,
    has_package: bool,
    fields: CargoPackageFields,
    tag: Option<Seq<char>>,
) -> Seq<Seq<char>> {
    let name = match fields.name {
        Some(n) => n@,
        None => policy.package_name@,
    };
    let version = or_empty(fields.version);
    (if name != policy.package_name@ {
        seq!["expected package name `"@ + policy.package_name@ + "`, got `"@ + name + "`"@]
    } else {
        Seq::<Seq<char>>::empty()
    }) + (if !semver_like(version) {
        seq!["package version is not semver-like: `"@ + version + "`"@]
    } else {
        Seq::<Seq<char>>::empty()
    }) + (if !policy.manifest_adopted && or_empty(fields.license).len() == 0 {
        seq!["package license is empty"@]
    } else {
        Seq::<Seq<char>>::empty()
    }) + (if !policy.manifest_adopted && has_package && or_empty(fields.description).len() == 0 {
        seq!["package description is empty"@]
    } else {
        Seq::<Seq<char>>::empty()
    }) + tag_errors(tag, version)
}

/// The release workflow wiring the metadata check looks for, with what
/// each piece is.
pub open spec fn workflow_needles() -> Seq<(Seq<char>, Seq<char>)> {
    seq![
        ("name: Release Binaries"@, "release workflow name"@),
        ("Create GitHub Release"@, "GitHub Release job wiring"@),
        ("Update Homebrew tap"@, "Homebrew automation job wiring"@),
        ("      - \"v*\""@, "tag trigger wiring"@),
        (
            "          - target: x86_64-unknown-linux-gnu\n            os: ubuntu-22.04"@,
            "x86_64 Linux release baseline pinning"@,
        ),
        (
            "          - target: aarch64-unknown-linux-gnu\n            os: ubuntu-22.04"@,
            "aarch64 Linux release baseline pinning"@,
        ),
        (
            "./scripts/check-linux-glibc-floor.sh ./effigy-${{ matrix.target }} 2.35"@,
            "Linux glibc compatibility guard"@,
        ),
    ]
}

/// Whether `needle` occurs in `hay`.
pub open spec fn contains_seq(hay: Seq<char>, needle: Seq<char>) -> bool {
    exists|i: int| 0 <= i <= hay.len() && crate::text::has_prefix(#[trigger] hay.skip(i), needle)
}

/// Whether `needle` occurs in `hay` (`str::contains`).
pub fn contains_str(hay: &str, needle: &str) -> (r: bool)
    ensures
        r == contains_seq(hay@, needle@),
{
    let h = crate::text::chars_of(hay);
    let n = crate::text::chars_of(needle);
    let mut i: usize = 0;
    loop
        invariant
            h@ == hay@,
            n@ == needle@,
            i <= h.len(),
            forall|j: int| 0 <= j < i ==> !crate::text::has_prefix(#[trigger] hay@.skip(j), needle@),
        decreases h.len() - i,
    {
        if crate::text::matches_at(&h, i, &n) {
            return true;
        }
        if i == h.len() {
            return false;
        }
        i = i + 1;
    }
}

/// The workflow pieces missing from `workflow`, as errors, in order.
pub open spec fn workflow_errors(workflow: Seq<char>, needles: Seq<(Seq<char>, Seq<char>)>) -> Seq<Seq<char>>
    decreases needles.len(),
{
    if needles.len() == 0 {
        Seq::empty()
    } else {
        workflow_errors(workflow, needles.drop_last()) + if contains_seq(workflow, needles.last().0) {
            Seq::<Seq<char>>::empty()
        } else {
            seq!["expected "@ + needles.last().1 + " in .github/workflows/release-binaries.yml"@]
        }
    }
}

/// An error for each required path that `present` says is missing.
pub open spec fn missing_errors(paths: Seq<Seq<char>>, present: Seq<bool>) -> Seq<Seq<char>>
    decreases paths.len(),
{
    if paths.len() == 0 || present.len() != paths.len() {
        Seq::empty()
    } else {
        missing_errors(paths.drop_last(), present.drop_last()) + if present.last() {
            Seq::<Seq<char>>::empty()
        } else {
            seq!["required file is missing: "@ + paths.last()]
        }
    }
}

/// Whether `f`, handed `path`, may answer `out`.
pub open spec fn checked<F: Fn(&str) -> bool>(f: F, path: Seq<char>, out: bool) -> bool {
    exists|p: &str| p@ == path && #[trigger] f.ensures((p,), out)
}

pub open spec fn workflow_path(repo_root: Seq<char>) -> Seq<char> {
    join_path(repo_root, ".github/workflows/release-binaries.yml"@)
}

/// Whether `read`, handed `path`, may answer `out`.
pub open spec fn workflow_read<W: FnOnce(&str) -> Result<String, RunnerError>>(
    read: W,
    path: Seq<char>,
    out: Result<String, RunnerError>,
) -> bool {
    exists|p: &str| p@ == path && #[trigger] read.ensures((p,), out)
}

/// The errors of the metadata check, given what `is_file` said of each
/// required path and the workflow text (when it is read).
pub open spec fn metadata_errors(
    policy: DistributionPolicy,
    has_package: bool,
    fields: CargoPackageFields,
    tag: Option<Seq<char>>,
    paths: Seq<Seq<char>>,
    present: Seq<bool>,
    workflow: Seq<char>,
) -> Seq<Seq<char>> {
    field_errors(policy, has_package, fields, tag) + missing_errors(paths, present) + if policy.manifest_adopted {
        Seq::<Seq<char>>::empty()
    } else {
        workflow_errors(workflow, workflow_needles())
    }
}

fn push_all(dst: &mut Vec<String>, src: Vec<String>)
    ensures
        views(final(dst)@) == views(old(dst)@) + views(src@),
{
    let mut src = src;
    let ghost target = views(old(dst)@) + views(src@);
    while src.len() > 0
        invariant
            views(dst@) + views(src@) == target,
        decreases src.len(),
    {
        let x = src.remove(0);
        let ghost before = views(dst@);
        dst.push(x);
        assert(views(dst@) == before.push(x@));
    }
}

/// The checks on the tag, in order.
pub open spec fn tag_errors(tag: Option<Seq<char>>, version: Seq<char>) -> Seq<Seq<char>> {
    match tag {
        Some(t) => if !release_tag_like(t) {
            seq!["tag must match vX.Y.Z format: `"@ + t + "`"@]
        } else if crate::deploy::provider_package::strip_leading(t, 'v') != version {
            seq![
                "tag version `"@ + crate::deploy::provider_package::strip_leading(t, 'v')
                    + "` does not match Cargo version `"@ + version + "`"@,
            ]
        } else {
            Seq::<Seq<char>>::empty()
        },
        None => Seq::empty(),
    }
}

fn tag_error_list(tag: Option<&str>, version: &str) -> (r: Vec<String>)
    ensures
        views(r@) == tag_errors(
            match tag {
                Some(t) => Some(t@),
                None => None,
            },
            version@,
        ),
{
    let mut errors: Vec<String> = Vec::new();
    if let Some(t) = tag {
        if !is_release_tag(t) {
            errors.push(crate::text::cat3("tag must match vX.Y.Z format: `", t, "`"));
        } else {
            let bare = crate::deploy::provider_package::trim_start_char(t, 'v');
            if !str_eq(bare.as_str(), version) {
                let mut m = crate::text::cat3("tag version `", bare.as_str(), "` does not match Cargo version `");
                m.append(version);
                m.append("`");
                errors.push(m);
            }
        }
    }
    errors
}

fn field_error_list(
    policy: &DistributionPolicy,
    has_package: bool,
    fields: &CargoPackageFields,
    tag: Option<&str>,
) -> (r: Vec<String>)
    ensures
        views(r@) == field_errors(
            *policy,
            has_package,
            *fields,
            match tag {
                Some(t) => Some(t@),
                None => None,
            },
        ),
{
    let name = match &fields.name {
        Some(n) => n.clone(),
        None => policy.package_name.clone(),
    };
    let version = match &fields.version {
        Some(v) => v.clone(),
        None => String::new(),
    };
    assert(version@ == or_empty(fields.version));
    let mut errors: Vec<String> = Vec::new();
    if !str_eq(name.as_str(), policy.package_name.as_str()) {
        let mut m = crate::text::cat3("expected package name `", policy.package_name.as_str(), "`, got `");
        m.append(name.as_str());
        m.append("`");
        errors.push(m);
    }
    let ghost e1 = views(errors@);
    if !is_semver_like(version.as_str()) {
        errors.push(crate::text::cat3("package version is not semver-like: `", version.as_str(), "`"));
    }
    let ghost e2 = views(errors@);
    let license_empty = match &fields.license {
        Some(l) => l.unicode_len() == 0,
        None => true,
    };
    if !policy.manifest_adopted && license_empty {
        errors.push("package license is empty".to_owned());
    }
    let ghost e3 = views(errors@);
    let description_empty = match &fields.description {
        Some(d) => d.unicode_len() == 0,
        None => true,
    };
    if !policy.manifest_adopted && has_package && description_empty {
        errors.push("package description is empty".to_owned());
    }
    let ghost e4 = views(errors@);
    let t = tag_error_list(tag, version.as_str());
    push_all(&mut errors, t);
    errors
}

/// Whether `errors` are what the metadata checks find when `is_file`
/// answered `present` for the required paths and the workflow (read only
/// when the manifest is not adopted) is `workflow`.
pub open spec fn metadata_checked<F: Fn(&str) -> bool, W: FnOnce(&str) -> Result<String, RunnerError>>(
    repo_root: Seq<char>,
    policy: DistributionPolicy,
    has_package: bool,
    fields: CargoPackageFields,
    tag: Option<Seq<char>>,
    is_file: F,
    read_workflow: W,
    present: Seq<bool>,
    workflow: String,
    errors: Seq<Seq<char>>,
) -> bool {
    let paths = views(policy.required_docs@) + views(policy.required_files@);
    &&& metadata_errors(policy, has_package, fields, tag, paths, present, workflow@) == errors
    &&& present.len() == paths.len()
    &&& forall|i: int|
        0 <= i < paths.len() ==> checked(is_file, join_path(repo_root, #[trigger] paths[i]), present[i])
    &&& !policy.manifest_adopted ==> workflow_read(read_workflow, workflow_path(repo_root), Ok(workflow))
}

/// The package table the checks read: `[package]`, else
/// `[workspace.package]`.
pub open spec fn chosen_fields(
    package: Option<CargoPackageFields>,
    workspace_package: Option<CargoPackageFields>,
) -> CargoPackageFields {
    match package {
        Some(p) => p,
        None => workspace_package->0,
    }
}

pub open spec fn opt_ref_fields(o: Option<&CargoPackageFields>) -> Option<CargoPackageFields> {
    match o {
        Some(f) => Some(*f),
        None => None,
    }
}

/// What a metadata report holds: the package fields (from `[package]`,
/// else `[workspace.package]`), the tag, the required paths, and the
/// errors the checks found.
pub open spec fn metadata_report_ok<F: Fn(&str) -> bool, W: FnOnce(&str) -> Result<String, RunnerError>>(
    repo_root: Seq<char>,
    policy: DistributionPolicy,
    package: Option<CargoPackageFields>,
    workspace_package: Option<CargoPackageFields>,
    tag: Option<Seq<char>>,
    is_file: F,
    read_workflow: W,
    rep: MetadataReport,
) -> bool {
    let fields = chosen_fields(package, workspace_package);
    &&& package is Some || workspace_package is Some
    &&& rep.name@ == match fields.name {
        Some(n) => n@,
        None => policy.package_name@,
    }
    &&& rep.version@ == or_empty(fields.version)
    &&& rep.license@ == or_empty(fields.license)
    &&& rep.description@ == or_empty(fields.description)
    &&& opt_view(rep.tag) == tag
    &&& rep.required_docs@ == policy.required_docs@
    &&& rep.required_files@ == policy.required_files@
    &&& rep.ok == (rep.errors@.len() == 0)
    &&& exists|present: Seq<bool>, workflow: String|
        #[trigger] metadata_checked(
            repo_root,
            policy,
            package is Some,
            fields,
            tag,
            is_file,
            read_workflow,
            present,
            workflow,
            views(rep.errors@),
        )
}

/// The distribution metadata checks: the package's name, semver version,
/// license and description; the tag's form and version; the required
/// documents and files (`is_file`); and, unless the manifest is adopted,
/// the release workflow's wiring (`read_workflow`). The package table is
/// `[package]`, else `[workspace.package]`.
pub fn run_validate_metadata<F: Fn(&str) -> bool, W: FnOnce(&str) -> Result<String, RunnerError>>(
    repo_root: &str,
    policy: &DistributionPolicy,
    package: Option<&CargoPackageFields>,
    workspace_package: Option<&CargoPackageFields>,
    tag: Option<&str>,
    is_file: &F,
    read_workflow: W,
) -> (r: Result<MetadataReport, RunnerError>)
    requires
        forall|p: &str| is_file.requires((p,)),
        forall|p: &str| read_workflow.requires((p,)),
    ensures
        package is None && workspace_package is None ==> (r matches Err(e) && is_invocation(
            e,
            "Cargo.toml is missing [package] or [workspace.package] metadata"@,
        )),
        r matches Ok(rep) ==> metadata_report_ok(
            repo_root@,
            *policy,
            opt_ref_fields(package),
            opt_ref_fields(workspace_package),
            match tag {
                Some(t) => Some(t@),
                None => None,
            },
            *is_file,
            read_workflow,
            rep,
        ),
        policy.manifest_adopted && (package is Some || workspace_package is Some) ==> r is Ok,
        r matches Err(e) ==> (package is None && workspace_package is None) || (!policy.manifest_adopted
            && workflow_read(read_workflow, workflow_path(repo_root@), Err(e))),
{
    let fields = match package {
        Some(p) => p,
        None => match workspace_package {
            Some(w) => w,
            None => {
                return Err(
                    RunnerError::task_invocation(
                        "Cargo.toml is missing [package] or [workspace.package] metadata",
                    ),
                );
            },
        },
    };
    let mut errors = field_error_list(policy, package.is_some(), fields, tag);
    let ghost paths = views(policy.required_docs@) + views(policy.required_files@);
    let mut all_paths: Vec<String> = crate::deploy::model::copy_strings(&policy.required_docs);
    let more = crate::deploy::model::copy_strings(&policy.required_files);
    push_all(&mut all_paths, more);
    let ghost mut present: Seq<bool> = Seq::empty();
    let ghost base = views(errors@);
    let mut i: usize = 0;
    while i < all_paths.len()
        invariant
            i <= all_paths.len(),
            views(all_paths@) == paths,
            present.len() == i,
            forall|k: int|
                0 <= k < i ==> checked(*is_file, join_path(repo_root@, #[trigger] paths[k]), present[k]),
            views(errors@) == base + missing_errors(paths.take(i as int), present),
            forall|p: &str| is_file.requires((p,)),
        decreases all_paths.len() - i,
    {
        let full = path_join(repo_root, all_paths[i].as_str());
        let found = is_file(full.as_str());
        assert(checked(*is_file, join_path(repo_root@, paths[i as int]), found));
        assert(paths.take(i + 1).drop_last() == paths.take(i as int));
        let ghost old_present = present;
        proof {
            present = present.push(found);
            assert(present.drop_last() == old_present);
        }
        if !found {
            let m = crate::text::cat("required file is missing: ", all_paths[i].as_str());
            let ghost before = views(errors@);
            errors.push(m);
            assert(views(errors@) == before.push(m@));
        }
        i = i + 1;
    }
    assert(paths.take(all_paths.len() as int) == paths);
    let ghost after_files = views(errors@);
    let ghost mut workflow_value: String = vstd::pervasive::arbitrary();
    if !policy.manifest_adopted {
        let wpath = path_join(repo_root, ".github/workflows/release-binaries.yml");
        let workflow = match read_workflow(wpath.as_str()) {
            Ok(w) => w,
            Err(e) => {
                assert(workflow_read(read_workflow, workflow_path(repo_root@), Err(e)));
                return Err(e);
            },
        };
        proof {
            workflow_value = workflow;
        }
        assert(workflow_read(read_workflow, workflow_path(repo_root@), Ok(workflow_value)));
        let needles: [(&str, &str); 7] = [
            ("name: Release Binaries", "release workflow name"),
            ("Create GitHub Release", "GitHub Release job wiring"),
            ("Update Homebrew tap", "Homebrew automation job wiring"),
            ("      - \"v*\"", "tag trigger wiring"),
            (
                "          - target: x86_64-unknown-linux-gnu\n            os: ubuntu-22.04",
                "x86_64 Linux release baseline pinning",
            ),
            (
                "          - target: aarch64-unknown-linux-gnu\n            os: ubuntu-22.04",
                "aarch64 Linux release baseline pinning",
            ),
            (
                "./scripts/check-linux-glibc-floor.sh ./effigy-${{ matrix.target }} 2.35",
                "Linux glibc compatibility guard",
            ),
        ];
        let ghost spec_needles = workflow_needles();
        assert(forall|k: int| 0 <= k < 7 ==> (#[trigger] needles@[k]).0@ == spec_needles[k].0 && needles@[k].1@ == spec_needles[k].1);
        let mut k: usize = 0;
        while k < 7
            invariant
                k <= 7,
                spec_needles == workflow_needles(),
                forall|j: int| 0 <= j < 7 ==> (#[trigger] needles@[j]).0@ == spec_needles[j].0 && needles@[j].1@ == spec_needles[j].1,
                views(errors@) == after_files + workflow_errors(workflow@, spec_needles.take(k as int)),
            decreases 7 - k,
        {
            let (needle, what) = needles[k];
            assert(spec_needles.take(k + 1).drop_last() == spec_needles.take(k as int));
            if !contains_str(workflow.as_str(), needle) {
                let m = crate::text::cat3("expected ", what, " in .github/workflows/release-binaries.yml");
                let ghost before = views(errors@);
                errors.push(m);
                assert(views(errors@) == before.push(m@));
            }
            k = k + 1;
        }
        assert(spec_needles.take(7) == spec_needles);
    }
    let ghost fields_v = match package {
        Some(p) => *p,
        None => *workspace_package->0,
    };
    assert(fields_v == *fields);
    let ghost tagv = match tag {
        Some(t) => Some(t@),
        None => None,
    };
    assert(metadata_errors(*policy, package is Some, fields_v, tagv, paths, present, workflow_value@) == views(errors@));
    let ok = errors.len() == 0;
    let tag_owned = match tag {
        Some(t) => Some(crate::text::owned(t)),
        None => None,
    };
    let name = match &fields.name {
        Some(n) => n.clone(),
        None => policy.package_name.clone(),
    };
    let report = MetadataReport {
        ok,
        name,
        version: match &fields.version {
            Some(v) => v.clone(),
            None => String::new(),
        },
        license: match &fields.license {
            Some(v) => v.clone(),
            None => String::new(),
        },
        description: match &fields.description {
            Some(v) => v.clone(),
            None => String::new(),
        },
        tag: tag_owned,
        required_docs: crate::deploy::model::copy_strings(&policy.required_docs),
        required_files: crate::deploy::model::copy_strings(&policy.required_files),
        errors,
    };
    assert(present.len() == paths.len());
    assert(forall|i: int|
        0 <= i < paths.len() ==> checked(*is_file, join_path(repo_root@, #[trigger] paths[i]), present[i]));
    assert(!policy.manifest_adopted ==> workflow_read(read_workflow, workflow_path(repo_root@), Ok(workflow_value)));
    assert(metadata_errors(*policy, package is Some, fields_v, tagv, paths, present, workflow_value@) == views(report.errors@));
    let ghost pk = opt_ref_fields(package);
    let ghost wk = opt_ref_fields(workspace_package);
    let ghost fs = match pk {
        Some(p) => p,
        None => wk->0,
    };
    assert(fs == fields_v);
    assert(metadata_checked(repo_root@, *policy, pk is Some, fs, tagv, *is_file, read_workflow, present, workflow_value, views(report.errors@)));
    assert(metadata_checked(repo_root@, *policy, opt_ref_fields(package) is Some, chosen_fields(opt_ref_fields(package), opt_ref_fields(workspace_package)), tagv, *is_file, read_workflow, present, workflow_value, views(report.errors@)));
    assert(metadata_report_ok(repo_root@, *policy, opt_ref_fields(package), opt_ref_fields(workspace_package), tagv, *is_file, read_workflow, report));
    Ok(report)
}

/// The metadata check as text: success, or its errors one per line.
pub fn metadata_text(rep: &MetadataReport) -> (r: Result<String, RunnerError>)
    ensures
        match r {
            Ok(t) => rep.ok && t@ == "[ok] distribution metadata checks passed"@,
            Err(e) => !rep.ok && is_invocation(e, join_seq(views(rep.errors@), "\n"@)),
        },
{
    if rep.ok {
        return Ok("[ok] distribution metadata checks passed".to_owned());
    }
    let m = crate::text::join(&rep.errors, "\n");
    Err(RunnerError::task_invocation(m.as_str()))
}

/// What the metadata check answers: in JSON mode the report's JSON
/// (`json`, rendered by the caller), as the answer when the checks passed
/// and as the error otherwise; else `metadata_text`.
pub fn metadata_output(rep: &MetadataReport, output_json: bool, json: &str) -> (r: Result<String, RunnerError>)
    ensures
        output_json && rep.ok ==> (r matches Ok(t) && t@ == json@),
        output_json && !rep.ok ==> (r matches Err(e) && is_invocation(e, json@)),
        !output_json ==> match r {
            Ok(t) => rep.ok && t@ == "[ok] distribution metadata checks passed"@,
            Err(e) => !rep.ok && is_invocation(e, join_seq(views(rep.errors@), "\n"@)),
        },
{
    if output_json {
        if rep.ok {
            Ok(crate::text::owned(json))
        } else {
            Err(RunnerError::task_invocation(json))
        }
    } else {
        metadata_text(rep)
    }
}

/// What the distribution preflight did.
#[derive(Debug)]
pub struct PreflightReport {
    pub tag: Option<String>,
    pub docs_status: String,
    pub metadata_status: String,
    pub smoke_status: String,
    pub output: Option<String>,
    pub next_command: String,
    pub text: String,
}

/// The publish command the preflight points to next.
pub open spec fn next_publish_command(tag: Option<Seq<char>>) -> Seq<char> {
    match tag {
        Some(t) => "effigy distribution first-publish --tag "@ + t + " --artifacts-dir ./artifacts/distribution-"@ + t,
        None => "effigy distribution first-publish --tag vX.Y.Z --artifacts-dir ./artifacts/distribution-vX.Y.Z"@,
    }
}

/// The summary file the preflight writes.
pub open spec fn preflight_summary(tag: Option<Seq<char>>, docs: Seq<char>, smoke: Seq<char>) -> Seq<char> {
    "TAG="@ + match tag {
        Some(t) => t,
        None => Seq::empty(),
    } + "\nDOCS_STATUS="@ + docs + "\nMETADATA_STATUS=ok\nSMOKE_STATUS="@ + smoke + "\n"@
}

/// Whether `run`, handed `task`, may answer `out`.
pub open spec fn task_ran<T: Fn(&str) -> Result<(), RunnerError>>(run: T, task: Seq<char>, out: Result<(), RunnerError>) -> bool {
    exists|p: &str| p@ == task && #[trigger] run.ensures((p,), out)
}

/// The distribution preflight: the docs task (unless skipped), the
/// metadata checks (`validate`), the smoke task (unless skipped), then the
/// summary written to `output_path` if one is given (`write`). Each step
/// that fails stops it.
pub fn run_preflight<
    T: Fn(&str) -> Result<(), RunnerError>,
    V: FnOnce() -> Result<(), RunnerError>,
    W: FnOnce(&str, &str) -> Result<(), RunnerError>,
>(
    policy: &DistributionPolicy,
    tag: Option<&str>,
    skip_docs: bool,
    skip_smoke: bool,
    output_path: Option<&str>,
    run_task: &T,
    validate: V,
    write: W,
) -> (r: Result<PreflightReport, RunnerError>)
    requires
        forall|p: &str| run_task.requires((p,)),
        validate.requires(()),
        forall|p: &str, c: &str| write.requires((p, c)),
    ensures
        r matches Ok(rep) ==> {
            let tagv = match tag {
                Some(t) => Some(t@),
                None => None,
            };
            &&& (!skip_docs ==> task_ran(*run_task, policy.docs_task@, Ok(())))
            &&& validate.ensures((), Ok(()))
            &&& (!skip_smoke ==> task_ran(*run_task, policy.smoke_task@, Ok(())))
            &&& rep.docs_status@ == if skip_docs { "skipped"@ } else { "ok"@ }
            &&& rep.metadata_status@ == "ok"@
            &&& rep.smoke_status@ == if skip_smoke { "skipped"@ } else { "ok"@ }
            &&& opt_view(rep.tag) == tagv
            &&& opt_view(rep.output) == match output_path {
                Some(p) => Some(p@),
                None => None,
            }
            &&& (output_path matches Some(p) ==> exists|a: &str, b: &str|
                a@ == p@ && b@ == preflight_summary(tagv, rep.docs_status@, rep.smoke_status@)
                    && #[trigger] write.ensures((a, b), Ok(())))
            &&& rep.next_command@ == next_publish_command(tagv)
            &&& rep.text@ == join_seq(
                match output_path {
                    Some(p) => seq!["[ok] wrote preflight summary: "@ + p@],
                    None => Seq::empty(),
                } + seq![
                    "[ok] distribution preflight checks passed"@,
                    "[next] real publish-cycle command: "@ + next_publish_command(tagv),
                ],
                "\n"@,
            )
        },
        r matches Err(e) ==> {
            ||| !skip_docs && task_ran(*run_task, policy.docs_task@, Err(e))
            ||| validate.ensures((), Err(e))
            ||| !skip_smoke && task_ran(*run_task, policy.smoke_task@, Err(e))
            ||| exists|a: &str, b: &str| #[trigger] write.ensures((a, b), Err(e))
        },
{
    let mut docs_status = "skipped";
    let mut smoke_status = "skipped";
    if !skip_docs {
        match run_task(policy.docs_task.as_str()) {
            Ok(u) => {
                proof {
                    crate::error::lemma_unit(u);
                }
                assert(task_ran(*run_task, policy.docs_task@, Ok(())));
            },
            Err(e) => {
                assert(task_ran(*run_task, policy.docs_task@, Err(e)));
                return Err(e);
            },
        }
        docs_status = "ok";
    }
    match validate() {
        Ok(u) => {
            proof {
                crate::error::lemma_unit(u);
            }
        },
        Err(e) => return Err(e),
    }
    if !skip_smoke {
        match run_task(policy.smoke_task.as_str()) {
            Ok(u) => {
                proof {
                    crate::error::lemma_unit(u);
                }
                assert(task_ran(*run_task, policy.smoke_task@, Ok(())));
            },
            Err(e) => {
                assert(task_ran(*run_task, policy.smoke_task@, Err(e)));
                return Err(e);
            },
        }
        smoke_status = "ok";
    }
    let mut lines: Vec<String> = Vec::new();
    if let Some(p) = output_path {
        let mut summary = crate::text::cat("TAG=", match tag {
            Some(t) => t,
            None => "",
        });
        summary.append("\nDOCS_STATUS=");
        summary.append(docs_status);
        summary.append("\nMETADATA_STATUS=ok\nSMOKE_STATUS=");
        summary.append(smoke_status);
        summary.append("\n");
        proof {
            reveal_strlit("");
        }
        match write(p, summary.as_str()) {
            Ok(u) => {
                proof {
                    crate::error::lemma_unit(u);
                }
            },
            Err(e) => return Err(e),
        }
        lines.push(crate::text::cat("[ok] wrote preflight summary: ", p));
    }
    let next = match tag {
        Some(t) => {
            let mut n = crate::text::cat3("effigy distribution first-publish --tag ", t, " --artifacts-dir ./artifacts/distribution-");
            n.append(t);
            n
        },
        None => "effigy distribution first-publish --tag vX.Y.Z --artifacts-dir ./artifacts/distribution-vX.Y.Z".to_owned(),
    };
    let ghost head = views(lines@);
    assert(head =~= match output_path {
        Some(p) => seq!["[ok] wrote preflight summary: "@ + p@],
        None => Seq::<Seq<char>>::empty(),
    });
    lines.push("[ok] distribution preflight checks passed".to_owned());
    lines.push(crate::text::cat("[next] real publish-cycle command: ", next.as_str()));
    assert(views(lines@) == head + seq![
        "[ok] distribution preflight checks passed"@,
        "[next] real publish-cycle command: "@ + next@,
    ]);
    let text = crate::text::join(&lines, "\n");
    Ok(
        PreflightReport {
            tag: match tag {
                Some(t) => Some(crate::text::owned(t)),
                None => None,
            },
            docs_status: crate::text::owned(docs_status),
            metadata_status: "ok".to_owned(),
            smoke_status: crate::text::owned(smoke_status),
            output: match output_path {
                Some(p) => Some(crate::text::owned(p)),
                None => None,
            },
            next_command: next,
            text,
        },
    )
}

/// The crate version a first publish uses: as given, else the tag without
/// its `v`; the tag must look like a release tag.
pub fn first_publish_crate_version(tag: &str, crate_version: Option<&str>) -> (r: Result<String, RunnerError>)
    ensures
        match r {
            Ok(v) => release_tag_like(tag@) && v@ == match crate_version {
                Some(c) => c@,
                None => crate::deploy::provider_package::strip_leading(tag@, 'v'),
            },
            Err(e) => !release_tag_like(tag@) && is_invocation(e, "tag must match vX.Y.Z format: "@ + tag@),
        },
{
    if !is_release_tag(tag) {
        let m = crate::text::cat("tag must match vX.Y.Z format: ", tag);
        return Err(RunnerError::task_invocation(m.as_str()));
    }
    match crate_version {
        Some(c) => Ok(crate::text::owned(c)),
        None => Ok(crate::deploy::provider_package::trim_start_char(tag, 'v')),
    }
}

/// The closeout output path relative to the repository when it lies
/// inside it.
pub fn closeout_output_path(path: &str, repo_root: &str) -> (r: String)
    ensures
        r@ == crate::deploy::report::display_path(path@, repo_root@),
{
    crate::deploy::report::path_display(path, repo_root)
}

/// The closeout text: a written log is named by its path under the
/// repository; other output is kept as it is.
pub open spec fn closeout_text_spec(rendered: Seq<char>, repo_root: Seq<char>, output_json: bool) -> Seq<char> {
    if !output_json && crate::text::has_prefix(rendered, "[ok] wrote log: "@) {
        "[ok] wrote log: "@ + join_path(repo_root, rendered.skip(16))
    } else {
        rendered
    }
}

/// The closeout command's answer as the runner prints it.
pub fn closeout_text(rendered: &str, repo_root: &str, output_json: bool) -> (r: String)
    ensures
        r@ == closeout_text_spec(rendered@, repo_root@, output_json),
{
    proof {
        reveal_strlit("[ok] wrote log: ");
    }
    if output_json {
        return crate::text::owned(rendered);
    }
    match crate::deploy::provider_package::strip_prefix_str(rendered, "[ok] wrote log: ") {
        Some(rest) => {
            let p = path_join(repo_root, rest.as_str());
            crate::text::cat("[ok] wrote log: ", p.as_str())
        },
        None => crate::text::owned(rendered),
    }
}

} // verus!