//! The decisions behind `--diff-only`: reading git's answers about the default
//! branch, the merge base and the changed files.

use vstd::prelude::*;
use vstd::string::StrSliceExecFns;

use crate::text::{chars_of, has_prefix, lines_of, owned, push_str, split_lines, str_starts_with, string_of_chars, trim, trimmed};

verus! {

/// The prefix of a remote-tracking ref of `origin`.
pub open spec fn origin_ref_prefix() -> Seq<char> {
    "refs/remotes/origin/"@
}

/// `s` without `prefix` when it starts with it.
pub open spec fn strip_prefix_of(s: Seq<char>, prefix: Seq<char>) -> Option<Seq<char>> {
    if has_prefix(s, prefix) {
        Some(s.skip(prefix.len() as int))
    } else {
        None
    }
}

/// `s` without `prefix` when it starts with it (std `str::strip_prefix`).
pub fn strip_prefix(s: &str, prefix: &str) -> (res: Option<String>)
    ensures
        res matches Some(r) ==> strip_prefix_of(s@, prefix@) == Some(r@),
        res is None ==> strip_prefix_of(s@, prefix@) is None,
{
    if str_starts_with(s, prefix) {
        let cs = chars_of(s);
        let mut rest: Vec<char> = Vec::new();
        let mut i: usize = chars_of(prefix).len();
        while i < cs.len()
            invariant
                prefix@.len() <= i <= cs@.len(),
                cs@ == s@,
                rest@ == cs@.subrange(prefix@.len() as int, i as int),
            decreases cs@.len() - i,
        {
            rest.push(cs[i]);
            assert(cs@.subrange(prefix@.len() as int, i + 1) =~= cs@.subrange(prefix@.len() as int, i as int).push(
                cs@[i as int],
            ));
            i = i + 1;
        }
        assert(rest@ =~= s@.skip(prefix@.len() as int));
        Some(string_of_chars(&rest))
    } else {
        None
    }
}

/// The default branch named by `git symbolic-ref refs/remotes/origin/HEAD`:
/// when the command succeeded, its trimmed output without the
/// `refs/remotes/origin/` prefix; `None` when it failed or the ref has
/// another form.
pub fn branch_from_origin_head(succeeded: bool, stdout: &str) -> (res: Option<String>)
    ensures
        !succeeded ==> res is None,
        succeeded ==> match strip_prefix_of(trimmed(stdout@), origin_ref_prefix()) {
            Some(b) => res matches Some(r) && r@ == b,
            None => res is None,
        },
{
    if !succeeded {
        return None;
    }
    let ref_name = trim(stdout);
    proof {
        reveal_strlit("refs/remotes/origin/");
    }
    strip_prefix(ref_name.as_str(), "refs/remotes/origin/")
}

/// The branches tried, in order, when `origin/HEAD` names none.
pub fn default_branch_candidates() -> (res: Vec<&'static str>)
    ensures
        res@.len() == 2,
        res@[0]@ == "main"@,
        res@[1]@ == "master"@,
{
    vec!["main", "master"]
}

/// The remote-tracking name of `branch` on `origin`: `origin/<branch>`.
pub fn origin_branch(branch: &str) -> (res: String)
    ensures
        res@ == "origin/"@ + branch@,
{
    let mut r = owned("origin/");
    push_str(&mut r, branch);
    r
}

/// The text of the error when no default branch could be found.
pub open spec fn no_default_branch_text() -> Seq<char> {
    "Could not determine the default branch. Ensure 'origin/HEAD', 'origin/main', or 'origin/master' exists."@
}

/// The message when no default branch could be found.
pub fn no_default_branch_message() -> (res: &'static str)
    ensures
        res@ == no_default_branch_text(),
{
    "Could not determine the default branch. Ensure 'origin/HEAD', 'origin/main', or 'origin/master' exists."
}

/// The default branch git's answers point to: the branch `origin/HEAD` names
/// (when `git symbolic-ref refs/remotes/origin/HEAD` succeeded with a ref
/// under `refs/remotes/origin/`), else `main` when `origin/main` exists, else
/// `master` when `origin/master` exists, else none.
pub open spec fn default_branch_choice(
    head_succeeded: bool,
    head_stdout: Seq<char>,
    main_exists: bool,
    master_exists: bool,
) -> Option<Seq<char>> {
    if head_succeeded && strip_prefix_of(trimmed(head_stdout), origin_ref_prefix()) is Some {
        strip_prefix_of(trimmed(head_stdout), origin_ref_prefix())
    } else if main_exists {
        Some("main"@)
    } else if master_exists {
        Some("master"@)
    } else {
        None
    }
}

/// Decides the default branch from git's answers: whether the `origin/HEAD`
/// lookup succeeded and what it printed, and whether `origin/main` and
/// `origin/master` verify. Fails with `no_default_branch_message` when none
/// of them names a branch.
pub fn choose_default_branch(head_succeeded: bool, head_stdout: &str, main_exists: bool, master_exists: bool) -> (res:
    Result<String, &'static str>)
    ensures
        res matches Ok(b) ==> default_branch_choice(head_succeeded, head_stdout@, main_exists, master_exists) == Some(
            b@,
        ),
        res matches Err(m) ==> default_branch_choice(head_succeeded, head_stdout@, main_exists, master_exists) is None
            && m@ == no_default_branch_text(),
        res is Err <==> default_branch_choice(head_succeeded, head_stdout@, main_exists, master_exists) is None,
{
    match branch_from_origin_head(head_succeeded, head_stdout) {
        Some(b) => Ok(b),
        None => {
            let candidates = default_branch_candidates();
            if main_exists {
                Ok(owned(candidates[0]))
            } else if master_exists {
                Ok(owned(candidates[1]))
            } else {
                Err(no_default_branch_message())
            }
        },
    }
}

/// The message when HEAD and `origin/<branch>` share no ancestor, with git's stderr.
pub fn no_merge_base_message(branch: &str, stderr: &str) -> (res: String)
    ensures
        res@ == "No common ancestor found between HEAD and origin/"@ + branch@ + ".\n"@ + stderr@,
{
    let mut r = owned("No common ancestor found between HEAD and origin/");
    push_str(&mut r, branch);
    push_str(&mut r, ".\n");
    push_str(&mut r, stderr);
    r
}

/// The merge-base commit as `git merge-base` prints it, trimmed.
pub fn merge_base_sha(stdout: &str) -> (res: String)
    ensures
        res@ == trimmed(stdout@),
{
    trim(stdout)
}

/// The changed file names in `git diff --name-only` output: every non-empty
/// line, trimmed, in order.
pub open spec fn diff_names(lines: Seq<Seq<char>>) -> Seq<Seq<char>>
    decreases lines.len(),
{
    if lines.len() == 0 {
        Seq::empty()
    } else {
        let prev = diff_names(lines.drop_last());
        if lines.last().len() > 0 {
            prev.push(trimmed(lines.last()))
        } else {
            prev
        }
    }
}

/// Reads the file list out of `git diff --name-only` output.
pub fn diff_file_names(stdout: &str) -> (res: Vec<String>)
    ensures
        res@.map_values(|f: String| f@) == diff_names(lines_of(stdout@)),
{
    let lines = split_lines(stdout);
    let ghost ls = lines@.map_values(|l: String| l@);
    let mut out: Vec<String> = Vec::new();
    let mut i: usize = 0;
    while i < lines.len()
        invariant
            i <= lines@.len(),
            ls == lines@.map_values(|l: String| l@),
            out@.map_values(|f: String| f@) == diff_names(ls.take(i as int)),
        decreases lines@.len() - i,
    {
        assert(ls.take(i + 1).drop_last() =~= ls.take(i as int));
        assert(ls.take(i + 1).last() == lines@[i as int]@);
        if lines[i].as_str().unicode_len() > 0 {
            let t = trim(lines[i].as_str());
            let ghost before = out@;
            out.push(t);
            assert(out@.map_values(|f: String| f@) =~= before.map_values(|f: String| f@).push(t@));
        }
        i = i + 1;
    }
    assert(ls.take(i as int) =~= ls);
    out
}

} // verus!
