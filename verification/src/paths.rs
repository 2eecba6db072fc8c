//! Unix path strings: joining as `Path::join` does, the absolute test and
//! the `..` component test, plus the few `std::path` queries whose exact
//! rules are left to std.
use crate::text::{concat2, concat3, chars_of, owned};
use vstd::prelude::*;

verus! {

/// `Path::new(base).join(p)` on Unix, as a string: an absolute `p` replaces
/// `base`; otherwise a separator is put between them unless `base` is empty
/// or already ends with one.
pub open spec fn path_join(base: Seq<char>, p: Seq<char>) -> Seq<char> {
    if p.len() > 0 && p[0] == '/' {
        p
    } else if base.len() == 0 {
        p
    } else if base.last() == '/' {
        base + p
    } else {
        base + seq!['/'] + p
    }
}

/// `Path::new(p).is_absolute()` on Unix.
pub open spec fn is_absolute_path(p: Seq<char>) -> bool {
    p.len() > 0 && p[0] == '/'
}

/// A `..` component of `p` begins at index `i`.
pub open spec fn parent_dir_at(p: Seq<char>, i: int) -> bool {
    &&& 0 <= i
    &&& i + 2 <= p.len()
    &&& p[i] == '.'
    &&& p[i + 1] == '.'
    &&& (i == 0 || p[i - 1] == '/')
    &&& (i + 2 == p.len() || p[i + 2] == '/')
}

/// `Path::new(p).components()` holds a `ParentDir`.
pub open spec fn has_parent_dir(p: Seq<char>) -> bool {
    exists|i: int| parent_dir_at(p, i)
}

/// Joins two path strings as `Path::join` does on Unix.
pub fn join_path(base: &str, p: &str) -> (r: String)
    ensures
        r@ == path_join(base@, p@),
{
    let pv = chars_of(p);
    if pv.len() > 0 && pv[0] == '/' {
        return owned(p);
    }
    let bv = chars_of(base);
    if bv.len() == 0 {
        return owned(p);
    }
    if bv[bv.len() - 1] == '/' {
        concat2(base, p)
    } else {
        proof {
            reveal_strlit("/");
        }
        concat3(base, "/", p)
    }
}

/// `Path::new(p).is_absolute()` on Unix.
pub fn is_absolute(p: &str) -> (r: bool)
    ensures
        r == is_absolute_path(p@),
{
    let v = chars_of(p);
    v.len() > 0 && v[0] == '/'
}

/// Whether one of the components of `p` is `..`.
pub fn contains_parent_dir(p: &str) -> (r: bool)
    ensures
        r == has_parent_dir(p@),
{
    let v = chars_of(p);
    let n = v.len();
    let mut i: usize = 0;
    while i < n && n - i >= 2
        invariant
            n == v@.len(),
            v@ == p@,
            forall|t: int| 0 <= t < i ==> !parent_dir_at(p@, t),
        decreases n - i,
    {
        let starts = i == 0 || v[i - 1] == '/';
        let ends = i + 2 == n || v[i + 2] == '/';
        if v[i] == '.' && v[i + 1] == '.' && starts && ends {
            proof {
                assert(parent_dir_at(p@, i as int));
            }
            return true;
        }
        i = i + 1;
    }
    proof {
        assert forall|t: int| !parent_dir_at(p@, t) by {
            if parent_dir_at(p@, t) {
                assert(t < i);
            }
        }
    }
    false
}

/// What `Path::new(p).extension()` gives, as text.
pub uninterp spec fn std_path_extension(p: Seq<char>) -> Option<Seq<char>>;

/// What `Path::new(p).file_stem()` gives, as text.
pub uninterp spec fn std_path_file_stem(p: Seq<char>) -> Option<Seq<char>>;

/// What `Path::new(p).file_name()` gives, as text.
pub uninterp spec fn std_path_file_name(p: Seq<char>) -> Option<Seq<char>>;

/// What `Path::new(p).parent()` gives, as text.
pub uninterp spec fn std_path_parent(p: Seq<char>) -> Option<Seq<char>>;

/// `Path::extension`: the result is named, as std defines the rules for it
/// (last file name, text after its last `.`, with special cases for leading
/// dots); nothing more is claimed.
#[verifier::external_body]
pub(crate) fn path_extension(p: &str) -> (r: Option<String>)
    ensures
        r matches Some(e) ==> std_path_extension(p@) == Some(e@),
        r is None ==> std_path_extension(p@) is None,
{
    std::path::Path::new(p).extension().map(|e| e.to_string_lossy().to_string())
}

/// `Path::file_stem`: the result is named; nothing more is claimed.
#[verifier::external_body]
pub(crate) fn path_file_stem(p: &str) -> (r: Option<String>)
    ensures
        r matches Some(e) ==> std_path_file_stem(p@) == Some(e@),
        r is None ==> std_path_file_stem(p@) is None,
{
    std::path::Path::new(p).file_stem().map(|e| e.to_string_lossy().to_string())
}

/// `Path::file_name`: the result is named; nothing more is claimed.
#[verifier::external_body]
pub(crate) fn path_file_name(p: &str) -> (r: Option<String>)
    ensures
        r matches Some(e) ==> std_path_file_name(p@) == Some(e@),
        r is None ==> std_path_file_name(p@) is None,
{
    std::path::Path::new(p).file_name().map(|e| e.to_string_lossy().to_string())
}

/// `Path::parent`: the result is named; nothing more is claimed.
#[verifier::external_body]
pub(crate) fn path_parent(p: &str) -> (r: Option<String>)
    ensures
        r matches Some(e) ==> std_path_parent(p@) == Some(e@),
        r is None ==> std_path_parent(p@) is None,
{
    std::path::Path::new(p).parent().map(|e| e.to_string_lossy().to_string())
}

/// What `Path::new(p).components()` gives, each component as text.
pub uninterp spec fn std_path_components(p: Seq<char>) -> Seq<Seq<char>>;

/// `Path::components`: the components are named; nothing more is claimed.
#[verifier::external_body]
pub(crate) fn path_components(p: &str) -> (r: Vec<String>)
    ensures
        crate::runtime::views(r@) == std_path_components(p@),
{
    std::path::Path::new(p).components().map(|c| c.as_os_str().to_string_lossy().to_string()).collect()
}

} // verus!
