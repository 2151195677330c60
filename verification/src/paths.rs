//! File-system paths held as strings, with `std::path` doing the
//! component-level comparisons.
use vstd::prelude::*;
use std::path::Path;

verus! {

/// What `Path::starts_with` answers for `path` and `base`.
pub uninterp spec fn path_starts_with_view(path: Seq<char>, base: Seq<char>) -> bool;

/// What `Path::strip_prefix` gives back of `path` after `base`.
pub uninterp spec fn path_strip_prefix_view(path: Seq<char>, base: Seq<char>) -> Option<Seq<char>>;

/// What `Path::extension` gives back of `path`.
pub uninterp spec fn path_extension_view(path: Seq<char>) -> Option<Seq<char>>;

/// On Unix a path is absolute when it starts at the root `/`.
pub open spec fn is_absolute(p: Seq<char>) -> bool {
    p.len() > 0 && p[0] == '/'
}

/// `Path::join` on Unix: an absolute `rel` replaces `base`; otherwise `rel`
/// follows `base`, with one `/` between them unless `base` is empty or
/// already ends with `/`.
pub open spec fn join_path(base: Seq<char>, rel: Seq<char>) -> Seq<char> {
    if is_absolute(rel) {
        rel
    } else if base.len() == 0 || base.last() == '/' {
        base + rel
    } else {
        base + seq!['/'] + rel
    }
}

/// Joining keeps an absolute path as it is, and puts a relative one under
/// the base.
pub proof fn lemma_join_path_under_base(base: Seq<char>, rel: Seq<char>)
    ensures
        is_absolute(rel) ==> join_path(base, rel) == rel,
        !is_absolute(rel) ==> join_path(base, rel).take(base.len() as int) == base,
{
    if !is_absolute(rel) {
        if base.len() == 0 || base.last() == '/' {
            assert((base + rel).take(base.len() as int) =~= base);
        } else {
            assert((base + seq!['/'] + rel).take(base.len() as int) =~= base);
        }
    }
}

/// `Path::is_absolute` (Unix): whether `p` begins with `/`.
pub fn path_is_absolute(p: &str) -> (r: bool)
    ensures
        r == is_absolute(p@),
{
    let cs = crate::text::chars_of(p);
    cs.len() > 0 && cs[0] == '/'
}

/// `Path::starts_with`: whether `base` is a prefix of `path`, whole
/// components at a time.
#[verifier::external_body]
pub fn path_starts_with(path: &str, base: &str) -> (r: bool)
    ensures
        r == path_starts_with_view(path@, base@),
{
    Path::new(path).starts_with(Path::new(base))
}

/// `Path::strip_prefix`: the rest of `path` after `base`, which is there
/// exactly when `path` starts with `base`.
#[verifier::external_body]
pub fn path_strip_prefix(path: &str, base: &str) -> (r: Option<String>)
    ensures
        r matches Some(s) ==> path_strip_prefix_view(path@, base@) == Some(s@),
        r is None ==> path_strip_prefix_view(path@, base@) is None,
        r is Some <==> path_starts_with_view(path@, base@),
{
    match Path::new(path).strip_prefix(Path::new(base)) {
        Ok(rest) => Some(rest.to_string_lossy().into_owned()),
        Err(_) => None,
    }
}

/// `Path::extension`: the part of the file name after its last `.`, if
/// there is one.
#[verifier::external_body]
pub fn path_extension(path: &str) -> (r: Option<String>)
    ensures
        r matches Some(s) ==> path_extension_view(path@) == Some(s@),
        r is None ==> path_extension_view(path@) is None,
{
    Path::new(path).extension().map(|ext| ext.to_string_lossy().into_owned())
}

/// `Path::join` (Unix).
pub fn path_join(base: &str, rel: &str) -> (r: String)
    ensures
        r@ == join_path(base@, rel@),
{
    if path_is_absolute(rel) {
        return crate::text::owned(rel);
    }
    let b = crate::text::chars_of(base);
    if b.len() == 0 || b[b.len() - 1] == '/' {
        crate::text::cat(base, rel)
    } else {
        proof {
            reveal_strlit("/");
        }
        crate::text::cat3(base, "/", rel)
    }
}

/// `a` joined with `b`, then with `c`.
pub fn path_join3(a: &str, b: &str, c: &str) -> (r: String)
    ensures
        r@ == join_path(join_path(a@, b@), c@),
{
    let ab = path_join(a, b);
    path_join(ab.as_str(), c)
}

} // verus!
