//! Cache keys for linter runs: what goes into a key, how it is hashed, and
//! where an entry for it lives on disk.

use vstd::prelude::*;
use vstd::multiset::Multiset;
use vstd::utf8::encode_utf8;

use crate::hasher::{fnv_fold, hex_digits, law_writes_compose, DeterministicHasher, FNV_OFFSET_BASIS};
use crate::paths::{join_path, joined_path, path_le, path_sorts_no_later};
use crate::text::{owned, push_str, str_eq, trim, trimmed};

verus! {

/// Key containing all inputs that can affect the lint result for a run.
#[derive(Clone, Debug)]
pub struct CacheKey {
    pub linter_version: String,
    pub toolchain: String,
    pub lint_flags: Vec<String>,
    pub package_args: Vec<String>,
    pub output_format: String,
    pub source_hash: String,
}

/// Cached output and exit code for a linter run.
#[derive(Clone, Debug)]
pub struct CacheEntry {
    pub key: String,
    pub exit_code: i32,
    pub stdout: String,
    pub stderr: String,
}

/// The bytes hashed for a list field: each item followed by a comma.
pub open spec fn list_material(items: Seq<String>) -> Seq<u8>
    decreases items.len(),
{
    if items.len() == 0 {
        Seq::empty()
    } else {
        list_material(items.drop_last()) + encode_utf8(items.last()@) + encode_utf8(","@)
    }
}

/// The bytes hashed for a cache key: every field, tagged and in a fixed order.
pub open spec fn cache_key_material(k: CacheKey) -> Seq<u8> {
    encode_utf8("linter_version:"@) + encode_utf8(k.linter_version@) + encode_utf8(";toolchain:"@)
        + encode_utf8(k.toolchain@) + encode_utf8(";lint_flags:"@) + list_material(k.lint_flags@)
        + encode_utf8(";package_args:"@) + list_material(k.package_args@) + encode_utf8(";output_format:"@)
        + encode_utf8(k.output_format@) + encode_utf8(";source_hash:"@) + encode_utf8(k.source_hash@)
}

/// The hexadecimal FNV-1a hash of a key's material.
pub open spec fn cache_key_hash(k: CacheKey) -> Seq<char> {
    hex_digits(fnv_fold(FNV_OFFSET_BASIS, cache_key_material(k)) as nat, 16)
}

/// Feeds `s` into `h`, keeping track of the bytes hashed so far.
fn feed(h: &mut DeterministicHasher, s: &str, Ghost(hashed): Ghost<Seq<u8>>)
    requires
        old(h)@ == fnv_fold(FNV_OFFSET_BASIS, hashed),
    ensures
        final(h)@ == fnv_fold(FNV_OFFSET_BASIS, hashed + encode_utf8(s@)),
{
    h.write_str(s);
    proof {
        law_writes_compose(FNV_OFFSET_BASIS, hashed, encode_utf8(s@));
    }
}

/// Feeds each item of `items`, each followed by a comma.
fn feed_list(h: &mut DeterministicHasher, items: &Vec<String>, Ghost(hashed): Ghost<Seq<u8>>)
    requires
        old(h)@ == fnv_fold(FNV_OFFSET_BASIS, hashed),
    ensures
        final(h)@ == fnv_fold(FNV_OFFSET_BASIS, hashed + list_material(items@)),
{
    let mut i: usize = 0;
    assert(hashed + list_material(items@.take(0)) =~= hashed);
    while i < items.len()
        invariant
            i <= items@.len(),
            h@ == fnv_fold(FNV_OFFSET_BASIS, hashed + list_material(items@.take(i as int))),
        decreases items@.len() - i,
    {
        let ghost before = hashed + list_material(items@.take(i as int));
        feed(h, items[i].as_str(), Ghost(before));
        feed(h, ",", Ghost(before + encode_utf8(items@[i as int]@)));
        proof {
            assert(items@.take(i + 1).drop_last() =~= items@.take(i as int));
            assert(before + encode_utf8(items@[i as int]@) + encode_utf8(","@) =~= hashed + list_material(
                items@.take(i + 1),
            ));
        }
        i = i + 1;
    }
    assert(items@.take(i as int) =~= items@);
}

impl CacheKey {
    /// Computes a deterministic hexadecimal hash for this cache key: the
    /// 16-digit FNV-1a hash of its tagged fields.
    pub fn compute_hash(&self) -> (res: String)
        ensures
            res@ == cache_key_hash(*self),
    {
        let mut h = DeterministicHasher::new();
        assert(fnv_fold(FNV_OFFSET_BASIS, Seq::<u8>::empty()) == FNV_OFFSET_BASIS);
        let ghost m0 = Seq::<u8>::empty();
        feed(&mut h, "linter_version:", Ghost(m0));
        let ghost m1 = m0 + encode_utf8("linter_version:"@);
        feed(&mut h, self.linter_version.as_str(), Ghost(m1));
        let ghost m2 = m1 + encode_utf8(self.linter_version@);
        feed(&mut h, ";toolchain:", Ghost(m2));
        let ghost m3 = m2 + encode_utf8(";toolchain:"@);
        feed(&mut h, self.toolchain.as_str(), Ghost(m3));
        let ghost m4 = m3 + encode_utf8(self.toolchain@);
        feed(&mut h, ";lint_flags:", Ghost(m4));
        let ghost m5 = m4 + encode_utf8(";lint_flags:"@);
        feed_list(&mut h, &self.lint_flags, Ghost(m5));
        let ghost m6 = m5 + list_material(self.lint_flags@);
        feed(&mut h, ";package_args:", Ghost(m6));
        let ghost m7 = m6 + encode_utf8(";package_args:"@);
        feed_list(&mut h, &self.package_args, Ghost(m7));
        let ghost m8 = m7 + list_material(self.package_args@);
        feed(&mut h, ";output_format:", Ghost(m8));
        let ghost m9 = m8 + encode_utf8(";output_format:"@);
        feed(&mut h, self.output_format.as_str(), Ghost(m9));
        let ghost m10 = m9 + encode_utf8(self.output_format@);
        feed(&mut h, ";source_hash:", Ghost(m10));
        let ghost m11 = m10 + encode_utf8(";source_hash:"@);
        feed(&mut h, self.source_hash.as_str(), Ghost(m11));
        assert(m11 + encode_utf8(self.source_hash@) =~= cache_key_material(*self));
        h.finish_hex()
    }
}

/// Two keys whose fields agree hash alike: the hash depends on the fields alone.
pub proof fn law_cache_key_hash_is_deterministic(a: CacheKey, b: CacheKey)
    requires
        a.linter_version@ == b.linter_version@,
        a.toolchain@ == b.toolchain@,
        a.lint_flags@.map_values(|f: String| f@) == b.lint_flags@.map_values(|f: String| f@),
        a.package_args@.map_values(|f: String| f@) == b.package_args@.map_values(|f: String| f@),
        a.output_format@ == b.output_format@,
        a.source_hash@ == b.source_hash@,
    ensures
        cache_key_hash(a) == cache_key_hash(b),
{
    lemma_list_material_by_view(a.lint_flags@, b.lint_flags@);
    lemma_list_material_by_view(a.package_args@, b.package_args@);
    assert(cache_key_material(a) == cache_key_material(b));
}

proof fn lemma_list_material_by_view(a: Seq<String>, b: Seq<String>)
    requires
        a.map_values(|f: String| f@) == b.map_values(|f: String| f@),
    ensures
        list_material(a) == list_material(b),
    decreases a.len(),
{
    assert(a.len() == a.map_values(|f: String| f@).len());
    if a.len() > 0 {
        assert(a.drop_last().map_values(|f: String| f@) =~= a.map_values(|f: String| f@).drop_last());
        assert(b.drop_last().map_values(|f: String| f@) =~= b.map_values(|f: String| f@).drop_last());
        assert(a.last()@ == a.map_values(|f: String| f@)[a.len() - 1]);
        assert(b.last()@ == b.map_values(|f: String| f@)[b.len() - 1]);
        lemma_list_material_by_view(a.drop_last(), b.drop_last());
    }
}

/// The cache directory under `base` (the current directory when absent):
/// `<base>/target/cost-lint-cache`.
pub open spec fn cache_dir_of(base: Option<Seq<char>>) -> Seq<char> {
    let b = match base {
        Some(b) => b,
        None => "."@,
    };
    joined_path(joined_path(b, "target"@), "cost-lint-cache"@)
}

/// Returns the cache directory path: `target/cost-lint-cache` under
/// `base_dir`, or under the current directory (`.`) when there is none.
pub fn get_cache_dir(base_dir: Option<&str>) -> (res: String)
    ensures
        res@ == cache_dir_of(
            match base_dir {
                Some(b) => Some(b@),
                None => None,
            },
        ),
{
    let base = match base_dir {
        Some(b) => b,
        None => ".",
    };
    let target = join_path(base, "target");
    join_path(target.as_str(), "cost-lint-cache")
}

/// The file that holds the cache entry for `key_hash` in `cache_dir`.
pub fn cache_entry_path(cache_dir: &str, key_hash: &str) -> (res: String)
    ensures
        res@ == joined_path(cache_dir@, key_hash@ + ".json"@),
{
    let mut name = owned(key_hash);
    push_str(&mut name, ".json");
    join_path(cache_dir, name.as_str())
}

/// Whether a file with this extension is a cache entry (`.json`).
pub fn is_cache_entry_extension(extension: Option<&str>) -> (res: bool)
    ensures
        res == (extension matches Some(e) && e@ == "json"@),
{
    match extension {
        Some(e) => str_eq(e, "json"),
        None => false,
    }
}

/// File names, besides `*.rs`, whose content goes into the source hash.
pub open spec fn source_file_names() -> Seq<Seq<char>> {
    seq!["Cargo.toml"@, "Cargo.lock"@, "budget.toml"@]
}

/// Whether a file with this extension and name feeds the source hash:
/// Rust sources, the cargo manifest and lock file, and `budget.toml`.
pub fn is_source_target(extension: &str, file_name: &str) -> (res: bool)
    ensures
        res == (extension@ == "rs"@ || file_name@ == "Cargo.toml"@ || file_name@ == "Cargo.lock"@
            || file_name@ == "budget.toml"@),
{
    str_eq(extension, "rs") || str_eq(file_name, "Cargo.toml") || str_eq(file_name, "Cargo.lock") || str_eq(
        file_name,
        "budget.toml",
    )
}

/// A source file as the hash sees it: its path relative to the workspace and its bytes.
#[derive(Clone, Debug)]
pub struct SourceFile {
    pub rel_path: String,
    pub content: Vec<u8>,
}

/// The bytes hashed for a list of source files: each path, then its content.
pub open spec fn source_material(files: Seq<SourceFile>) -> Seq<u8>
    decreases files.len(),
{
    if files.len() == 0 {
        Seq::empty()
    } else {
        source_material(files.drop_last()) + encode_utf8(files.last().rel_path@) + files.last().content@
    }
}

/// The hash of `files` taken in the given order, as 16 hexadecimal digits.
pub fn hash_source_files(files: &[SourceFile]) -> (res: String)
    ensures
        res@ == hex_digits(fnv_fold(FNV_OFFSET_BASIS, source_material(files@)) as nat, 16),
{
    let mut h = DeterministicHasher::new();
    let mut i: usize = 0;
    assert(source_material(files@.take(0)) =~= Seq::<u8>::empty());
    while i < files.len()
        invariant
            i <= files@.len(),
            h@ == fnv_fold(FNV_OFFSET_BASIS, source_material(files@.take(i as int))),
        decreases files@.len() - i,
    {
        let ghost before = source_material(files@.take(i as int));
        feed(&mut h, files[i].rel_path.as_str(), Ghost(before));
        let ghost mid = before + encode_utf8(files@[i as int].rel_path@);
        h.write_bytes(files[i].content.as_slice());
        proof {
            law_writes_compose(FNV_OFFSET_BASIS, mid, files@[i as int].content@);
            assert(files@.take(i + 1).drop_last() =~= files@.take(i as int));
        }
        i = i + 1;
    }
    assert(files@.take(i as int) =~= files@);
    h.finish_hex()
}

/// A regular file met by the workspace walk: its path as walked, and its
/// extension and file name (empty where it has none).
pub struct WalkedFile {
    pub path: String,
    pub extension: String,
    pub file_name: String,
}

/// Whether a walked file feeds the source hash.
pub open spec fn feeds_source_hash(f: WalkedFile) -> bool {
    f.extension@ == "rs"@ || f.file_name@ == "Cargo.toml"@ || f.file_name@ == "Cargo.lock"@ || f.file_name@
        == "budget.toml"@
}

/// The source files among the walked files, in walk order.
pub open spec fn selected_source_files(files: Seq<WalkedFile>) -> Seq<WalkedFile>
    decreases files.len(),
{
    if files.len() == 0 {
        Seq::empty()
    } else if feeds_source_hash(files.last()) {
        selected_source_files(files.drop_last()).push(files.last())
    } else {
        selected_source_files(files.drop_last())
    }
}

/// Keeps, in walk order, the walked files whose content feeds the source
/// hash: Rust sources, `Cargo.toml`, `Cargo.lock` and `budget.toml`.
pub fn select_source_files(files: Vec<WalkedFile>) -> (res: Vec<WalkedFile>)
    ensures
        res@ == selected_source_files(files@),
{
    let mut rest = files;
    let mut rev: Vec<WalkedFile> = Vec::new();
    let ghost mut tail: Seq<WalkedFile> = Seq::empty();
    while rest.len() > 0
        invariant
            selected_source_files(files@) == selected_source_files(rest@) + tail,
            rev@.len() == tail.len(),
            forall|k: int| 0 <= k < rev@.len() ==> #[trigger] rev@[k] == tail[tail.len() - 1 - k],
        decreases rest@.len(),
    {
        let ghost before = rest@;
        let f = rest.pop().unwrap();
        assert(rest@ == before.drop_last());
        if is_source_target(f.extension.as_str(), f.file_name.as_str()) {
            proof {
                assert(seq![f] + tail =~= tail.insert(0, f));
                assert(selected_source_files(rest@).push(f) + tail =~= selected_source_files(rest@) + (seq![f]
                    + tail));
                tail = seq![f] + tail;
            }
            rev.push(f);
        }
    }
    assert(selected_source_files(rest@) =~= Seq::<WalkedFile>::empty());
    assert(Seq::<WalkedFile>::empty() + tail =~= tail);
    let mut out: Vec<WalkedFile> = Vec::new();
    while rev.len() > 0
        invariant
            selected_source_files(files@) == tail,
            rev@.len() + out@.len() == tail.len(),
            out@ == tail.take(out@.len() as int),
            forall|k: int| 0 <= k < rev@.len() ==> #[trigger] rev@[k] == tail[tail.len() - 1 - k],
        decreases rev@.len(),
    {
        let ghost n: int = out@.len() as int;
        let ghost before = rev@;
        let x = rev.pop().unwrap();
        proof {
            assert(x == before[before.len() - 1]);
            assert(x == tail[n]);
            assert(rev@ =~= before.drop_last());
        }
        out.push(x);
        assert(out@ =~= tail.take(n + 1));
    }
    assert(out@ =~= tail);
    out
}

/// `selected_source_files` works piecewise: the selection of a concatenation is the
/// concatenation of the selections.
proof fn lemma_selected_source_files_concat(a: Seq<WalkedFile>, b: Seq<WalkedFile>)
    ensures
        selected_source_files(a + b) == selected_source_files(a) + selected_source_files(b),
    decreases b.len(),
{
    if b.len() == 0 {
        assert(a + b =~= a);
        assert(selected_source_files(a) + selected_source_files(b) =~= selected_source_files(a));
    } else {
        assert((a + b).drop_last() =~= a + b.drop_last());
        assert((a + b).last() == b.last());
        lemma_selected_source_files_concat(a, b.drop_last());
        if feeds_source_hash(b.last()) {
            assert((selected_source_files(a) + selected_source_files(b.drop_last())).push(b.last()) =~= selected_source_files(
                a,
            ) + selected_source_files(b.drop_last()).push(b.last()));
        }
    }
}

/// Only sources and manifests count: a walked file that is neither a Rust
/// source nor `Cargo.toml`, `Cargo.lock` or `budget.toml` (a README, say)
/// changes nothing in what is hashed, wherever the walk meets it.
pub proof fn law_other_files_do_not_count(before: Seq<WalkedFile>, other: WalkedFile, after: Seq<WalkedFile>)
    requires
        !feeds_source_hash(other),
    ensures
        selected_source_files(before.push(other) + after) == selected_source_files(before + after),
{
    lemma_selected_source_files_concat(before.push(other), after);
    lemma_selected_source_files_concat(before, after);
    assert(before.push(other).drop_last() =~= before);
}

/// Whether the files at `i` and `i + 1` are in std's path order.
pub open spec fn in_path_order_at(files: Seq<SourceFile>, i: int) -> bool {
    path_le(files[i].rel_path@, files[i + 1].rel_path@)
}

/// Whether `files` are sorted by relative path, in std's order on paths:
/// each file's path sorts no later than the next one's.
pub open spec fn path_sorted(files: Seq<SourceFile>) -> bool {
    forall|i: int| 0 <= i < files.len() - 1 ==> #[trigger] in_path_order_at(files, i)
}

/// Where `x` goes in the sorted `out`: after every file whose path sorts
/// strictly before it, at the first one it sorts no later than.
fn insertion_point(out: &Vec<SourceFile>, x: &SourceFile) -> (p: usize)
    ensures
        p <= out@.len(),
        p > 0 ==> path_le(out@[p - 1].rel_path@, x.rel_path@),
        p < out@.len() ==> path_le(x.rel_path@, out@[p as int].rel_path@),
{
    let mut p: usize = 0;
    while p < out.len()
        invariant
            p <= out@.len(),
            p > 0 ==> path_le(out@[p - 1].rel_path@, x.rel_path@),
        decreases out@.len() - p,
    {
        if path_sorts_no_later(x.rel_path.as_str(), out[p].rel_path.as_str()) {
            return p;
        }
        p = p + 1;
    }
    p
}

/// Sorts `files` by relative path in std's order on paths (`Path::cmp`):
/// the result holds the same files, each path sorting no later than the next.
pub fn sort_source_files(files: Vec<SourceFile>) -> (res: Vec<SourceFile>)
    ensures
        res@.to_multiset() == files@.to_multiset(),
        path_sorted(res@),
{
    let mut rest = files;
    let mut out: Vec<SourceFile> = Vec::new();
    proof {
        out@.to_multiset_ensures();
        assert(out@.to_multiset() =~= Multiset::<SourceFile>::empty());
        assert(out@.to_multiset().add(rest@.to_multiset()) =~= files@.to_multiset());
    }
    while rest.len() > 0
        invariant
            out@.to_multiset().add(rest@.to_multiset()) == files@.to_multiset(),
            path_sorted(out@),
        decreases rest@.len(),
    {
        let ghost before_rest = rest@;
        let ghost before_out = out@;
        let x = rest.pop().unwrap();
        let p = insertion_point(&out, &x);
        out.insert(p, x);
        proof {
            assert(before_rest =~= rest@.push(x));
            let n = out@;
            assert(n.remove(p as int) =~= before_out);
            assert(n[p as int] == x);
            n.to_multiset_ensures();
            rest@.to_multiset_ensures();
            assert(n.remove(p as int).to_multiset() =~= n.to_multiset().remove(n[p as int]));
            assert(n.contains(x));
            assert(n.to_multiset().count(x) > 0);
            assert(n.to_multiset() =~= n.to_multiset().remove(x).insert(x));
            assert(n.to_multiset() =~= before_out.to_multiset().insert(x));
            assert(rest@.push(x).to_multiset() =~= rest@.to_multiset().insert(x));
            assert(out@.to_multiset().add(rest@.to_multiset()) =~= before_out.to_multiset().add(
                before_rest.to_multiset(),
            ));
            assert forall|i: int| 0 <= i < n.len() - 1 implies #[trigger] in_path_order_at(n, i) by {
                if i + 1 < p {
                    assert(in_path_order_at(before_out, i));
                } else if i + 1 == p {
                } else if i == p {
                } else {
                    assert(in_path_order_at(before_out, i - 1));
                }
            }
        }
    }
    proof {
        rest@.to_multiset_ensures();
    }
    assert(rest@.to_multiset() =~= Multiset::<SourceFile>::empty());
    assert(out@.to_multiset().add(Multiset::<SourceFile>::empty()) =~= out@.to_multiset());
    out
}

/// Whether std's order on paths, on the relative paths of the files in
/// `scope`, is transitive and tells the files apart: no two different files
/// sit at paths that each sort no later than the other.
pub open spec fn path_order_strict_on(scope: Seq<SourceFile>) -> bool {
    &&& forall|x: SourceFile, y: SourceFile, z: SourceFile|
        #![trigger path_le(x.rel_path@, y.rel_path@), path_le(y.rel_path@, z.rel_path@)]
        scope.contains(x) && scope.contains(y) && scope.contains(z) && path_le(x.rel_path@, y.rel_path@)
            && path_le(y.rel_path@, z.rel_path@) ==> path_le(x.rel_path@, z.rel_path@)
    &&& forall|x: SourceFile, y: SourceFile|
        #![trigger path_le(x.rel_path@, y.rel_path@), path_le(y.rel_path@, x.rel_path@)]
        scope.contains(x) && scope.contains(y) && path_le(x.rel_path@, y.rel_path@) && path_le(
            y.rel_path@,
            x.rel_path@,
        ) ==> x == y
}

/// In a sorted list, the first file's path sorts no later than any later one's.
proof fn lemma_first_sorts_first(s: Seq<SourceFile>, k: int, scope: Seq<SourceFile>)
    requires
        path_sorted(s),
        path_order_strict_on(scope),
        forall|q: int| 0 <= q < s.len() ==> scope.contains(#[trigger] s[q]),
        1 <= k < s.len(),
    ensures
        path_le(s[0].rel_path@, s[k].rel_path@),
    decreases k,
{
    assert(in_path_order_at(s, k - 1));
    if k > 1 {
        lemma_first_sorts_first(s, k - 1, scope);
        assert(scope.contains(s[0]) && scope.contains(s[k - 1]) && scope.contains(s[k]));
    }
}

/// The walk order does not matter: two sorted lists of the same files are
/// one list, so they give one source hash. This holds wherever std's order
/// is transitive on the files' paths and no two different files sit at
/// paths that compare equal (as `a/b` and `a//b` do).
pub proof fn law_walk_order_does_not_matter(a: Seq<SourceFile>, b: Seq<SourceFile>)
    requires
        a.to_multiset() == b.to_multiset(),
        path_sorted(a),
        path_sorted(b),
        path_order_strict_on(a),
    ensures
        a == b,
        source_material(a) == source_material(b),
    decreases a.len(),
{
    a.to_multiset_ensures();
    b.to_multiset_ensures();
    assert forall|x: SourceFile| a.contains(x) <==> b.contains(x) by {
        assert(a.contains(x) <==> a.to_multiset().count(x) > 0);
        assert(b.contains(x) <==> b.to_multiset().count(x) > 0);
    }
    assert(a.len() == a.to_multiset().len() && b.len() == b.to_multiset().len());
    if a.len() == 0 {
        assert(a =~= b);
    } else {
        let x = a[0];
        assert(a.contains(x));
        let j = choose|j: int| 0 <= j < b.len() && b[j] == x;
        let y = b[0];
        assert(b.contains(y));
        let i = choose|i: int| 0 <= i < a.len() && a[i] == y;
        assert forall|q: int| 0 <= q < a.len() implies a.contains(#[trigger] a[q]) by {}
        assert forall|q: int| 0 <= q < b.len() implies a.contains(#[trigger] b[q]) by {
            assert(b.contains(b[q]));
        }
        if i > 0 && j > 0 {
            lemma_first_sorts_first(a, i, a);
            lemma_first_sorts_first(b, j, a);
            assert(a.contains(x) && a.contains(y));
        }
        assert(x == y);
        let a2 = a.drop_first();
        let b2 = b.drop_first();
        assert(a.remove(0) =~= a2);
        assert(b.remove(0) =~= b2);
        assert(a2.to_multiset() =~= b2.to_multiset());
        assert forall|q: int| 0 <= q < a2.len() - 1 implies #[trigger] in_path_order_at(a2, q) by {
            assert(in_path_order_at(a, q + 1));
        }
        assert forall|q: int| 0 <= q < b2.len() - 1 implies #[trigger] in_path_order_at(b2, q) by {
            assert(in_path_order_at(b, q + 1));
        }
        assert forall|z: SourceFile| a2.contains(z) implies a.contains(z) by {
            let q = choose|q: int| 0 <= q < a2.len() && a2[q] == z;
            assert(a[q + 1] == z);
        }
        law_walk_order_does_not_matter(a2, b2);
        assert forall|q: int| 0 <= q < a.len() implies a[q] == b[q] by {
            if q > 0 {
                assert(a[q] == a2[q - 1] && b[q] == b2[q - 1]);
            }
        }
        assert(a =~= b);
    }
}

/// The toolchain description from `rustc -Vv`: its trimmed output when the
/// command succeeded, else `unknown-toolchain`.
pub fn toolchain_version_text(succeeded: bool, stdout: &str) -> (res: String)
    ensures
        succeeded ==> res@ == trimmed(stdout@),
        !succeeded ==> res@ == "unknown-toolchain"@,
{
    if succeeded {
        trim(stdout)
    } else {
        owned("unknown-toolchain")
    }
}

} // verus!
