//! Path operations of `std::path` and of the `relative-path` crate, each
//! behind a trusted wrapper. Paths are handled as strings; every wrapper
//! turns its inputs into paths and its result back into a `String`.
//!
//! Most results are given a name: the rules behind them (component parsing,
//! separators, `..` handling) take pages to state, and each result depends
//! on the wrapper's arguments alone.
use vstd::prelude::*;
use relative_path::RelativePath;
use std::path::Path;

verus! {

/// What `RelativePath::new(rel).to_logical_path(base)` gives, as a string.
pub uninterp spec fn logical_path(rel: Seq<char>, base: Seq<char>) -> Seq<char>;

/// What `Path::new(a).join(b)` gives, as a string.
pub uninterp spec fn joined_path(a: Seq<char>, b: Seq<char>) -> Seq<char>;

/// What `Path::new(p).parent()` gives, as a string.
pub uninterp spec fn parent_path(p: Seq<char>) -> Option<Seq<char>>;

/// What `Path::new(p).file_name()` gives, as a string.
pub uninterp spec fn file_name_of(p: Seq<char>) -> Option<Seq<char>>;

/// What `Path::new(p).with_file_name(name)` gives, as a string.
pub uninterp spec fn with_file_name_of(p: Seq<char>, name: Seq<char>) -> Seq<char>;

/// A path has an extension when its file name holds a `.` after its first
/// character, as `Path::extension` documents it.
pub open spec fn has_extension(p: Seq<char>) -> bool {
    file_name_of(p) matches Some(n) && exists|i: int| 0 < i < n.len() && n[i] == '.'
}

/// The ASCII lower-case form of a character.
pub open spec fn ascii_lower(c: char) -> char {
    if 'A' <= c && c <= 'Z' {
        ((c as u32) + 32) as char
    } else {
        c
    }
}

/// What `Path::new(p).strip_prefix("/")` gives, as a string.
pub uninterp spec fn root_stripped(p: Seq<char>) -> Option<Seq<char>>;

/// What `Path::new(a) == Path::new(b)` gives (a comparison of components).
pub uninterp spec fn same_path(a: Seq<char>, b: Seq<char>) -> bool;

/// What `str::to_lowercase` gives.
pub uninterp spec fn lowercase_of(s: Seq<char>) -> Seq<char>;

/// `RelativePath::new(rel).to_logical_path(base)`: `base` with the components
/// of `rel` applied in turn (`.` skipped, `..` popping, names pushed).
/// Claims: the result is the named one; with an empty `rel` there is no
/// component to apply and the result is `base` itself, as the crate's source
/// starts from `base` and adds nothing.
#[verifier::external_body]
pub fn to_logical_path(rel: &str, base: &str) -> (r: String)
    ensures
        r@ == logical_path(rel@, base@),
        rel@.len() == 0 ==> r@ == base@,
{
    RelativePath::new(rel).to_logical_path(base).to_string_lossy().to_string()
}

/// `Path::is_absolute`. Claims, as std documents it for Unix targets (the
/// only ones this crate is built for): a path is absolute exactly when it
/// starts with the root `/`.
#[verifier::external_body]
pub fn path_is_absolute(p: &str) -> (r: bool)
    ensures
        r == (p@.len() > 0 && p@[0] == '/'),
{
    Path::new(p).is_absolute()
}

/// `Path::join`. Claims only that the result is the named one.
#[verifier::external_body]
pub fn path_join(a: &str, b: &str) -> (r: String)
    ensures
        r@ == joined_path(a@, b@),
{
    Path::new(a).join(b).to_string_lossy().to_string()
}

/// `Path::parent`. Claims: the result is the named one, and a parent, being
/// the path without its final component, is shorter than the path.
#[verifier::external_body]
pub fn path_parent(p: &str) -> (r: Option<String>)
    ensures
        r matches Some(q) ==> parent_path(p@) == Some(q@) && q@.len() < p@.len(),
        r is None ==> parent_path(p@) is None,
{
    match Path::new(p).parent() {
        Some(q) => Some(q.to_string_lossy().to_string()),
        None => None,
    }
}

/// `Path::file_name`. Claims only that the result is the named one.
#[verifier::external_body]
pub fn path_file_name(p: &str) -> (r: Option<String>)
    ensures
        r matches Some(q) ==> file_name_of(p@) == Some(q@),
        r is None ==> file_name_of(p@) is None,
{
    match Path::new(p).file_name() {
        Some(q) => Some(q.to_string_lossy().to_string()),
        None => None,
    }
}

/// `Path::with_file_name`. Claims only that the result is the named one.
#[verifier::external_body]
pub fn path_with_file_name(p: &str, name: &str) -> (r: String)
    ensures
        r@ == with_file_name_of(p@, name@),
{
    Path::new(p).with_file_name(name).to_string_lossy().to_string()
}

/// `Path::extension` tested for presence. Claims what std documents: there is
/// no extension without a file name, nor when the file name has no `.` but
/// possibly a leading one; otherwise there is one.
#[verifier::external_body]
pub fn path_has_extension(p: &str) -> (r: bool)
    ensures
        r == has_extension(p@),
{
    Path::new(p).extension().is_some()
}

/// `Path::strip_prefix("/")`, with the error turned into `None`. Claims: the
/// result is the named one, and, the root `/` being the first component of
/// exactly the paths that start with `/` (Unix), there is a result exactly
/// for those paths.
#[verifier::external_body]
pub fn path_strip_root(p: &str) -> (r: Option<String>)
    ensures
        r is Some <==> (p@.len() > 0 && p@[0] == '/'),
        r matches Some(q) ==> root_stripped(p@) == Some(q@),
        r is None ==> root_stripped(p@) is None,
{
    match Path::new(p).strip_prefix("/") {
        Ok(q) => Some(q.to_string_lossy().to_string()),
        Err(_) => None,
    }
}

/// `Path` equality, which compares the paths component by component. Claims:
/// the result is the named one, it is symmetric (as `PartialEq` requires of
/// every implementation), and two paths spelt alike are equal.
#[verifier::external_body]
pub fn paths_equal(a: &str, b: &str) -> (r: bool)
    ensures
        r == same_path(a@, b@),
        r == same_path(b@, a@),
        a@ == b@ ==> r,
{
    Path::new(a) == Path::new(b)
}

/// `str::to_lowercase`. Claims: the result is the named one, and for a
/// string of ASCII characters it maps `A`..`Z` to `a`..`z` and keeps every
/// other character.
#[verifier::external_body]
pub fn to_lowercase(s: &str) -> (r: String)
    ensures
        r@ == lowercase_of(s@),
        (forall|i: int| 0 <= i < s@.len() ==> (s@[i] as u32) < 128) ==> r@ == s@.map_values(
            |c: char| ascii_lower(c),
        ),
{
    s.to_lowercase()
}

} // verus!
