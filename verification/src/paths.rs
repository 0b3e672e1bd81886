//! The few `std::path` operations the library relies on, kept behind trusted
//! wrappers, plus the verified changed-file matching built on them.

use vstd::prelude::*;

use crate::text::{owned, str_eq};

verus! {

/// What `Path::new(path).strip_prefix(base)` yields, rendered back as text.
pub uninterp spec fn stripped_path(path: Seq<char>, base: Seq<char>) -> Option<Seq<char>>;

/// What `Path::new(base).join(part)` yields, rendered back as text.
pub uninterp spec fn joined_path(base: Seq<char>, part: Seq<char>) -> Seq<char>;

/// `Path::new(path).strip_prefix(base)` (std), as text.
///
/// Trusted: the result is named by `stripped_path`; the only fact stated is
/// that it depends on the two arguments alone. Component-wise prefix
/// matching is left to std and not described here.
#[verifier::external_body]
pub(crate) fn strip_path_prefix(path: &str, base: &str) -> (res: Option<String>)
    ensures
        res matches Some(r) ==> stripped_path(path@, base@) == Some(r@),
        res is None ==> stripped_path(path@, base@) is None,
{
    std::path::Path::new(path).strip_prefix(base).ok().map(|p| p.to_string_lossy().into_owned())
}

/// `Path::new(base).join(part)` (std), as text.
///
/// Trusted: the result is named by `joined_path`; it depends on the two
/// arguments alone. Where the separator goes is platform-dependent and left
/// to std, not described here.
#[verifier::external_body]
pub(crate) fn join_path(base: &str, part: &str) -> (res: String)
    ensures
        res@ == joined_path(base@, part@),
{
    std::path::Path::new(base).join(part).to_string_lossy().into_owned()
}

/// Whether `Path::new(a) <= Path::new(b)` in std's order on paths, which
/// compares paths component by component.
pub uninterp spec fn path_le(a: Seq<char>, b: Seq<char>) -> bool;

/// `Path::new(a) <= Path::new(b)` (std).
///
/// Trusted: the result is named by `path_le`. `Path` implements `Ord`, a
/// total order, so when `a` does not sort at or before `b`, `b` sorts at or
/// before `a`. How components are compared is left to std.
#[verifier::external_body]
pub(crate) fn path_sorts_no_later(a: &str, b: &str) -> (res: bool)
    ensures
        res == path_le(a@, b@),
        res || path_le(b@, a@),
{
    std::path::Path::new(a) <= std::path::Path::new(b)
}

/// `file` relative to `root` when `root` is a path prefix of it, else `file` itself.
pub open spec fn relative_to(file: Seq<char>, root: Seq<char>) -> Seq<char> {
    match stripped_path(file, root) {
        Some(r) => r,
        None => file,
    }
}

/// Whether `file` is one of the `changed` paths, comparing relative to `root`.
pub open spec fn file_changed(file: Seq<char>, changed: Seq<String>, root: Seq<char>) -> bool {
    exists|i: int| 0 <= i < changed.len() && relative_to(file, root) == (#[trigger] changed[i])@
}

/// Whether `file` is one of the `changed` paths, comparing relative to `root`.
pub fn is_file_changed(file: &str, changed: &[String], root: &str) -> (res: bool)
    ensures
        res == file_changed(file@, changed@, root@),
{
    let relative = match strip_path_prefix(file, root) {
        Some(r) => r,
        None => owned(file),
    };
    let mut i: usize = 0;
    while i < changed.len()
        invariant
            i <= changed@.len(),
            relative@ == relative_to(file@, root@),
            forall|j: int| 0 <= j < i ==> relative@ != (#[trigger] changed@[j])@,
        decreases changed@.len() - i,
    {
        if str_eq(relative.as_str(), changed[i].as_str()) {
            return true;
        }
        i = i + 1;
    }
    false
}

/// The sub-sequence of `files` that are among the `changed` paths, order kept.
pub open spec fn changed_files(files: Seq<String>, changed: Seq<String>, root: Seq<char>) -> Seq<String> {
    files.filter(|f: String| file_changed(f@, changed, root))
}

/// Filters `files` to those in the `changed` set, compared relative to `root`.
pub fn filter_files_by_changed(files: &[String], changed: &[String], root: &str) -> (res: Vec<String>)
    ensures
        res@ == changed_files(files@, changed@, root@),
{
    let mut res: Vec<String> = Vec::new();
    let mut i: usize = 0;
    while i < files.len()
        invariant
            i <= files@.len(),
            res@ == changed_files(files@.take(i as int), changed@, root@),
        decreases files@.len() - i,
    {
        let f = &files[i];
        proof {
            reveal_with_fuel(Seq::filter, 1);
            assert(files@.take(i + 1).drop_last() =~= files@.take(i as int));
        }
        if is_file_changed(f.as_str(), changed, root) {
            res.push(f.clone());
        }
        i = i + 1;
    }
    assert(files@.take(i as int) =~= files@);
    res
}

} // verus!
