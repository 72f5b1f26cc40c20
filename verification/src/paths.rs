use std::path::Path;
use vstd::prelude::*;

verus! {

/// `part` appended to `base` as a path component, the way a Unix path grows
/// by one component: an absolute `part` replaces `base`, an empty `base` gives
/// `part`, and otherwise one `'/'` separates them unless `base` already ends
/// with one.
pub open spec fn join_spec(base: Seq<char>, part: Seq<char>) -> Seq<char> {
    if part.len() > 0 && part[0] == '/' {
        part
    } else if base.len() == 0 {
        part
    } else if base.last() == '/' {
        base + part
    } else {
        base + seq!['/'] + part
    }
}

/// `part` appended to `base` as a path component (see [`join_spec`]).
pub fn join(base: &str, part: &str) -> (r: String)
    ensures
        r@ == join_spec(base@, part@),
{
    let b = crate::text::chars_of(base);
    let p = crate::text::chars_of(part);
    if p.len() > 0 && p[0] == '/' {
        return String::from_str(part);
    }
    if b.len() == 0 {
        return String::from_str(part);
    }
    if b[b.len() - 1] == '/' {
        let mut r = String::from_str(base);
        r.append(part);
        r
    } else {
        let mut r = String::from_str(base);
        r.append("/");
        proof {
            reveal_strlit("/");
        }
        r.append(part);
        r
    }
}

/// Appending a relative component to a non-empty path keeps the path as a
/// prefix: everything placed under a directory stays under it.
pub proof fn lemma_join_extends(base: Seq<char>, part: Seq<char>)
    requires
        base.len() > 0,
        !(part.len() > 0 && part[0] == '/'),
    ensures
        join_spec(base, part).take(base.len() as int) == base,
        join_spec(base, part).len() > base.len() || part.len() == 0,
{
    if base.last() == '/' {
        assert((base + part).take(base.len() as int) =~= base);
    } else {
        assert((base + seq!['/'] + part).take(base.len() as int) =~= base);
    }
}

/// The characters of an optional string.
pub open spec fn opt_view(s: Option<String>) -> Option<Seq<char>> {
    match s {
        Some(v) => Some(v@),
        None => None,
    }
}

/// The characters of an optional string slice.
pub open spec fn opt_str_view(s: Option<&str>) -> Option<Seq<char>> {
    match s {
        Some(v) => Some(v@),
        None => None,
    }
}

/// The final component of the host path `p`, as `Path::file_name` gives it
/// for the target the library is built for.
pub uninterp spec fn path_file_name(p: Seq<char>) -> Option<Seq<char>>;

/// The host path `p` without its final component, as `Path::parent` gives it
/// for the target the library is built for.
pub uninterp spec fn path_parent(p: Seq<char>) -> Option<Seq<char>>;

/// The final component of the host path `p` without its extension, as
/// `Path::file_stem` gives it for the target the library is built for.
pub uninterp spec fn path_file_stem(p: Seq<char>) -> Option<Seq<char>>;

/// `p` is `..` or ends in the component `..`.
pub open spec fn ends_in_parent_dir(p: Seq<char>) -> bool {
    p == ".."@ || (p.len() >= 3 && p.skip(p.len() - 3) == "/.."@)
}

/// The final component of the host path `p`, as `Path::file_name` finds it: a
/// function of `p` alone, named [`path_file_name`]. Stated besides: there is
/// none for a path that ends in `..`, as its documentation says.
#[verifier::external_body]
pub fn file_name_of(p: &str) -> (r: Option<String>)
    ensures
        opt_view(r) == path_file_name(p@),
        ends_in_parent_dir(p@) ==> r is None,
{
    match Path::new(p).file_name() {
        Some(n) => Some(n.to_string_lossy().into_owned()),
        None => None,
    }
}

/// The host path `p` without its final component, as `Path::parent` finds it:
/// a function of `p` alone, named [`path_parent`]. Stated besides, as its
/// documentation says: there is none for the empty path and for the root `/`,
/// and what it returns is `p` with its final component taken away, so it is
/// shorter than `p`.
#[verifier::external_body]
pub fn parent_of(p: &str) -> (r: Option<String>)
    ensures
        opt_view(r) == path_parent(p@),
        p@.len() == 0 || p@ == "/"@ ==> r is None,
        r is Some ==> r->0@.len() < p@.len(),
{
    match Path::new(p).parent() {
        Some(d) => Some(d.to_string_lossy().into_owned()),
        None => None,
    }
}

/// The final component of the host path `p` without its extension, as
/// `Path::file_stem` finds it: a function of `p` alone, named
/// [`path_file_stem`]. Stated besides: there is none when there is no final
/// component, as for a path that ends in `..`.
#[verifier::external_body]
pub fn file_stem_of(p: &str) -> (r: Option<String>)
    ensures
        opt_view(r) == path_file_stem(p@),
        ends_in_parent_dir(p@) ==> r is None,
{
    match Path::new(p).file_stem() {
        Some(n) => Some(n.to_string_lossy().into_owned()),
        None => None,
    }
}

} // verus!
