//! `soroban_redundant_storage_read` — flags a storage read of a key that was
//! already read, unchanged, earlier in the same block.
//!
//! The tracker walks a block's top-level statements, remembers the last read
//! as `(storage accessor, key)`, forgets it on a `set`, and reports a read that
//! repeats what it remembers.

use vstd::prelude::*;

use crate::text::{chars_of, has_suffix, is_one_of, owned, str_ends_with, str_eq, str_in, string_of_chars};

verus! {

/// Storage accessor types, as `(exact, anchored)` path-suffix pairs.
pub const STORAGE_ACCESSOR_SUFFIXES: [(&'static str, &'static str); 3] = [
    ("soroban_sdk::storage::Instance", "::soroban_sdk::storage::Instance"),
    ("soroban_sdk::storage::Persistent", "::soroban_sdk::storage::Persistent"),
    ("soroban_sdk::storage::Temporary", "::soroban_sdk::storage::Temporary"),
];

/// Crate names the SDK is known to be compiled under.
pub const SOROBAN_ROOTS: [&'static str; 3] = ["soroban_sdk", "soroban_env_host", "soroban_env_common"];

/// Observing methods this lint tracks.
pub const STORAGE_READ_METHODS: [&'static str; 2] = ["get", "has"];

/// The write method that clears a tracked read.
pub const STORAGE_WRITE_METHOD: &'static str = "set";

/// Message reported for a repeat read of an unchanged key.
pub const SOROBAN_REDUNDANT_STORAGE_READ_MSG: &'static str = "redundant storage read: this key was already read without modification";

/// Help note attached to the message.
pub const SOROBAN_REDUNDANT_STORAGE_READ_HELP: &'static str = "store the value from the first read and reuse it instead of reading again";

/// Index of the first `::` in `s`, or its length when there is none.
pub open spec fn separator_index(s: Seq<char>) -> int
    decreases s.len(),
{
    if s.len() < 2 {
        s.len() as int
    } else if s[0] == ':' && s[1] == ':' {
        0
    } else {
        1 + separator_index(s.drop_first())
    }
}

/// The first `::`-separated segment of a path.
pub open spec fn first_segment(s: Seq<char>) -> Seq<char> {
    s.take(separator_index(s))
}

proof fn lemma_separator_index(s: Seq<char>, k: int)
    requires
        0 <= k <= s.len(),
        forall|j: int| 0 <= j < k && j + 1 < s.len() ==> !(#[trigger] s[j] == ':' && s[j + 1] == ':'),
        (k + 1 < s.len() && s[k] == ':' && s[k + 1] == ':') || k == s.len(),
    ensures
        separator_index(s) == k,
    decreases k,
{
    if s.len() >= 2 && k > 0 {
        assert(!(s[0] == ':' && s[1] == ':'));
        assert forall|j: int| 0 <= j < k - 1 && j + 1 < s.drop_first().len() implies !(#[trigger] s.drop_first()[j] == ':'
            && s.drop_first()[j + 1] == ':') by {
            assert(s.drop_first()[j] == s[j + 1]);
            assert(s.drop_first()[j + 1] == s[j + 2]);
        }
        lemma_separator_index(s.drop_first(), k - 1);
    }
}

/// Whether the first segment of a definition path is a known SDK crate name.
pub open spec fn is_soroban_root_spec(full: Seq<char>) -> bool {
    is_one_of(first_segment(full), SOROBAN_ROOTS@)
}

/// Whether `full` names one of the storage accessor types: equal to one of the
/// exact paths, or ending in an anchored path under a known SDK root.
pub open spec fn is_storage_accessor_path_spec(full: Seq<char>) -> bool {
    exists|i: int| 0 <= i < 3 && (full == (#[trigger] STORAGE_ACCESSOR_SUFFIXES@[i]).0@ || (has_suffix(
        full,
        STORAGE_ACCESSOR_SUFFIXES@[i].1@,
    ) && is_soroban_root_spec(full)))
}

/// The first `::`-separated segment of `full` (all of it when there is no `::`).
pub fn first_path_segment(full: &str) -> (res: String)
    ensures
        res@ == first_segment(full@),
{
    let cs = chars_of(full);
    let n = cs.len();
    let mut i: usize = 0;
    while i < n && i + 1 < n && !(cs[i] == ':' && cs[i + 1] == ':')
        invariant
            n == cs@.len(),
            i <= n,
            forall|j: int| 0 <= j < i && j + 1 < cs@.len() ==> !(#[trigger] cs@[j] == ':' && cs@[j + 1] == ':'),
        decreases n - i,
    {
        i = i + 1;
    }
    let k: usize = if i < n && i + 1 < n {
        i
    } else {
        n
    };
    proof {
        lemma_separator_index(cs@, k as int);
    }
    let mut seg: Vec<char> = Vec::new();
    let mut j: usize = 0;
    while j < k
        invariant
            j <= k <= cs@.len(),
            seg@ == cs@.take(j as int),
        decreases k - j,
    {
        seg.push(cs[j]);
        assert(cs@.take(j + 1) =~= cs@.take(j as int).push(cs@[j as int]));
        j = j + 1;
    }
    string_of_chars(&seg)
}

/// Whether the first segment of a definition path is one of the crate names
/// the SDK is known to be compiled under.
pub fn is_soroban_root(full: &str) -> (res: bool)
    ensures
        res == is_soroban_root_spec(full@),
{
    let seg = first_path_segment(full);
    str_in(seg.as_str(), SOROBAN_ROOTS.as_slice())
}

/// Whether `full` names one of the storage accessor types.
pub fn is_storage_accessor_path(full: &str) -> (res: bool)
    ensures
        res == is_storage_accessor_path_spec(full@),
{
    let table = STORAGE_ACCESSOR_SUFFIXES;
    let mut i: usize = 0;
    while i < 3
        invariant
            i <= 3,
            table@ == STORAGE_ACCESSOR_SUFFIXES@,
            forall|j: int| 0 <= j < i ==> !(full@ == (#[trigger] STORAGE_ACCESSOR_SUFFIXES@[j]).0@ || (has_suffix(
                full@,
                STORAGE_ACCESSOR_SUFFIXES@[j].1@,
            ) && is_soroban_root_spec(full@))),
        decreases 3 - i,
    {
        let (exact, anchored) = table[i];
        if str_eq(full, exact) || (str_ends_with(full, anchored) && is_soroban_root(full)) {
            assert(STORAGE_ACCESSOR_SUFFIXES@[i as int] == (exact, anchored));
            return true;
        }
        i = i + 1;
    }
    false
}

/// A storage access at the top level of a block.
#[derive(Clone, Debug)]
pub enum StorageOp {
    /// A `get`/`has` on the accessor with this definition path, whose key prints as `key_text`.
    Read { accessor: String, key_text: String },
    /// A `set`, which invalidates any tracked read.
    Write,
}

/// How a method call classifies: a read, a write, or neither.
pub open spec fn classify_spec(method: Seq<char>, accessor: Option<Seq<char>>, key_text: Option<Seq<char>>) -> Option<
    (bool, Seq<char>, Seq<char>),
> {
    if !(is_one_of(method, STORAGE_READ_METHODS@) || method == "set"@) {
        None
    } else {
        match accessor {
            Some(a) => if !is_storage_accessor_path_spec(a) {
                None
            } else if method == "set"@ {
                Some((false, Seq::empty(), Seq::empty()))
            } else {
                match key_text {
                    Some(k) => Some((true, a, k)),
                    None => None,
                }
            },
            None => None,
        }
    }
}

/// The view of a storage operation: `(is_read, accessor, key)`.
pub open spec fn op_view(op: StorageOp) -> (bool, Seq<char>, Seq<char>) {
    match op {
        StorageOp::Read { accessor, key_text } => (true, accessor@, key_text@),
        StorageOp::Write => (false, Seq::empty(), Seq::empty()),
    }
}

/// Classifies a top-level method call: `method` on a receiver whose type has
/// definition path `accessor_path` (`None` when it is not an ADT), with the
/// first argument's text (borrow removed) in `key_text`.
pub fn extract_storage_op(method: &str, accessor_path: Option<&str>, key_text: Option<&str>) -> (res: Option<StorageOp>)
    ensures
        res matches Some(op) ==> classify_spec(method@, match accessor_path {
            Some(a) => Some(a@),
            None => None,
        }, match key_text {
            Some(k) => Some(k@),
            None => None,
        }) == Some(op_view(op)),
        res is None ==> classify_spec(method@, match accessor_path {
            Some(a) => Some(a@),
            None => None,
        }, match key_text {
            Some(k) => Some(k@),
            None => None,
        }) is None,
{
    let is_write = str_eq(method, STORAGE_WRITE_METHOD);
    if !(str_in(method, STORAGE_READ_METHODS.as_slice()) || is_write) {
        return None;
    }
    let accessor = match accessor_path {
        Some(a) => a,
        None => {
            return None;
        },
    };
    if !is_storage_accessor_path(accessor) {
        return None;
    }
    if is_write {
        return Some(StorageOp::Write);
    }
    match key_text {
        Some(k) => Some(StorageOp::Read { accessor: owned(accessor), key_text: owned(k) }),
        None => None,
    }
}

/// The read the tracker remembers after the operations `ops` (`None` entries
/// are statements that touch no storage).
pub open spec fn last_read(ops: Seq<Option<StorageOp>>) -> Option<(Seq<char>, Seq<char>)>
    decreases ops.len(),
{
    if ops.len() == 0 {
        None
    } else {
        match ops.last() {
            Some(StorageOp::Read { accessor, key_text }) => Some((accessor@, key_text@)),
            Some(StorageOp::Write) => None,
            None => last_read(ops.drop_last()),
        }
    }
}

/// Whether the operation at `i` is a read of the key the tracker remembers.
pub open spec fn redundant_read_at(ops: Seq<Option<StorageOp>>, i: int) -> bool {
    match ops[i] {
        Some(StorageOp::Read { accessor, key_text }) => last_read(ops.take(i)) == Some((accessor@, key_text@)),
        _ => false,
    }
}

/// The indices of the redundant reads among `ops`, in order.
pub open spec fn redundant_reads_spec(ops: Seq<Option<StorageOp>>) -> Seq<int> {
    Seq::new(ops.len(), |i: int| i).filter(|i: int| redundant_read_at(ops, i))
}

/// The statements of a block that are reported: the indices of the reads that
/// repeat the remembered read (same accessor, same key text) with no `set` in
/// between.
pub fn redundant_reads(ops: &[Option<StorageOp>]) -> (res: Vec<usize>)
    ensures
        res@.map_values(|i: usize| i as int) == redundant_reads_spec(ops@),
{
    let ghost all = Seq::new(ops@.len(), |i: int| i);
    let mut last: Option<(String, String)> = None;
    let mut out: Vec<usize> = Vec::new();
    let mut i: usize = 0;
    while i < ops.len()
        invariant
            i <= ops@.len(),
            all == Seq::new(ops@.len(), |i: int| i),
            out@.map_values(|i: usize| i as int) == all.take(i as int).filter(|i: int| redundant_read_at(ops@, i)),
            match last {
                Some((a, k)) => last_read(ops@.take(i as int)) == Some((a@, k@)),
                None => last_read(ops@.take(i as int)) is None,
            },
        decreases ops@.len() - i,
    {
        proof {
            reveal_with_fuel(Seq::filter, 1);
            assert(all.take(i + 1).drop_last() =~= all.take(i as int));
            assert(all.take(i + 1).last() == i as int);
            assert(ops@.take(i + 1).drop_last() =~= ops@.take(i as int));
            assert(ops@.take(i + 1).last() == ops@[i as int]);
        }
        match &ops[i] {
            Some(StorageOp::Read { accessor, key_text }) => {
                let repeated = match &last {
                    Some((a, k)) => str_eq(a.as_str(), accessor.as_str()) && str_eq(k.as_str(), key_text.as_str()),
                    None => false,
                };
                if repeated {
                    let ghost before = out@;
                    out.push(i);
                    assert(out@.map_values(|i: usize| i as int) =~= before.map_values(|i: usize| i as int).push(
                        i as int,
                    ));
                }
                last = Some((owned(accessor.as_str()), owned(key_text.as_str())));
            },
            Some(StorageOp::Write) => {
                last = None;
            },
            None => {},
        }
        i = i + 1;
    }
    assert(all.take(i as int) =~= all);
    out
}

/// A read right after a `set` is never reported: the write clears the tracker.
pub proof fn law_write_clears_tracker(ops: Seq<Option<StorageOp>>, i: int)
    requires
        1 <= i < ops.len(),
        ops[i - 1] matches Some(StorageOp::Write),
    ensures
        !redundant_read_at(ops, i),
{
    assert(ops.take(i).last() == ops[i - 1]);
}

/// Reading the same key of the same accessor twice in a row reports the second read.
pub proof fn law_repeated_read_is_reported(ops: Seq<Option<StorageOp>>, i: int)
    requires
        1 <= i < ops.len(),
        ops[i - 1] matches Some(StorageOp::Read { accessor: a1, key_text: k1 }),
        ops[i] matches Some(StorageOp::Read { accessor: a2, key_text: k2 }),
        op_view(ops[i - 1].unwrap()) == op_view(ops[i].unwrap()),
    ensures
        redundant_read_at(ops, i),
{
    assert(ops.take(i).last() == ops[i - 1]);
}

/// The three SDK storage accessor types are storage accessors.
pub proof fn law_sdk_accessors_are_storage(tier: Seq<char>)
    requires
        tier == "soroban_sdk::storage::Instance"@ || tier == "soroban_sdk::storage::Persistent"@ || tier
            == "soroban_sdk::storage::Temporary"@,
    ensures
        is_storage_accessor_path_spec(tier),
{
    if tier == "soroban_sdk::storage::Instance"@ {
        assert(STORAGE_ACCESSOR_SUFFIXES@[0].0@ == tier);
    } else if tier == "soroban_sdk::storage::Persistent"@ {
        assert(STORAGE_ACCESSOR_SUFFIXES@[1].0@ == tier);
    } else {
        assert(STORAGE_ACCESSOR_SUFFIXES@[2].0@ == tier);
    }
}

/// On a storage accessor, `get(&k)` and `has(&k)` are both reads of `k` on
/// that accessor, `set` is a write, and every other method is neither.
/// Off a storage accessor, or without a key for a read, nothing is tracked.
pub proof fn law_get_and_has_read_set_writes(method: Seq<char>, accessor: Seq<char>, key: Seq<char>)
    ensures
        is_storage_accessor_path_spec(accessor) ==> classify_spec("get"@, Some(accessor), Some(key)) == Some(
            (true, accessor, key),
        ),
        is_storage_accessor_path_spec(accessor) ==> classify_spec("has"@, Some(accessor), Some(key)) == Some(
            (true, accessor, key),
        ),
        is_storage_accessor_path_spec(accessor) ==> classify_spec("set"@, Some(accessor), Some(key)) == Some(
            (false, Seq::<char>::empty(), Seq::<char>::empty()),
        ),
        method != "get"@ && method != "has"@ && method != "set"@ ==> classify_spec(method, Some(accessor), Some(key))
            is None,
        !is_storage_accessor_path_spec(accessor) ==> classify_spec(method, Some(accessor), Some(key)) is None,
        classify_spec(method, None, Some(key)) is None,
        (method == "get"@ || method == "has"@) ==> classify_spec(method, Some(accessor), None) is None,
{
    reveal_strlit("get");
    reveal_strlit("has");
    reveal_strlit("set");
    assert(STORAGE_READ_METHODS@[0]@ == "get"@);
    assert(STORAGE_READ_METHODS@[1]@ == "has"@);
    assert(is_one_of("get"@, STORAGE_READ_METHODS@));
    assert(is_one_of("has"@, STORAGE_READ_METHODS@));
    assert("get"@[0] != "set"@[0]);
    assert("has"@[0] != "set"@[0]);
    if method != "get"@ && method != "has"@ {
        assert(!is_one_of(method, STORAGE_READ_METHODS@)) by {
            if is_one_of(method, STORAGE_READ_METHODS@) {
                let i = choose|i: int| 0 <= i < STORAGE_READ_METHODS@.len() && STORAGE_READ_METHODS@[i]@ == method;
                assert(i == 0 || i == 1);
            }
        }
    }
}

/// A path's first segment names the SDK exactly when it is `soroban_sdk`,
/// `soroban_env_host` or `soroban_env_common`.
pub proof fn law_sdk_roots(full: Seq<char>)
    ensures
        is_soroban_root_spec(full) <==> (first_segment(full) == "soroban_sdk"@ || first_segment(full)
            == "soroban_env_host"@ || first_segment(full) == "soroban_env_common"@),
{
    assert(SOROBAN_ROOTS@[0]@ == "soroban_sdk"@);
    assert(SOROBAN_ROOTS@[1]@ == "soroban_env_host"@);
    assert(SOROBAN_ROOTS@[2]@ == "soroban_env_common"@);
    if is_soroban_root_spec(full) {
        let i = choose|i: int| 0 <= i < SOROBAN_ROOTS@.len() && SOROBAN_ROOTS@[i]@ == first_segment(full);
        assert(0 <= i < 3);
    }
}

/// Whether `full` is the path of the storage tier `tier` (`Instance`,
/// `Persistent` or `Temporary`): exactly `soroban_sdk::storage::<tier>`, or a
/// path under an SDK crate ending in `::soroban_sdk::storage::<tier>`.
pub open spec fn names_tier(full: Seq<char>, exact: Seq<char>, anchored: Seq<char>) -> bool {
    full == exact || (has_suffix(full, anchored) && is_soroban_root_spec(full))
}

/// The storage accessors are exactly the instance, persistent and temporary
/// accessor types of the SDK, named directly or anchored under an SDK crate.
pub proof fn law_storage_accessor_paths(full: Seq<char>)
    ensures
        is_storage_accessor_path_spec(full) <==> (names_tier(
            full,
            "soroban_sdk::storage::Instance"@,
            "::soroban_sdk::storage::Instance"@,
        ) || names_tier(full, "soroban_sdk::storage::Persistent"@, "::soroban_sdk::storage::Persistent"@)
            || names_tier(full, "soroban_sdk::storage::Temporary"@, "::soroban_sdk::storage::Temporary"@)),
{
    assert(STORAGE_ACCESSOR_SUFFIXES@[0].0@ == "soroban_sdk::storage::Instance"@);
    assert(STORAGE_ACCESSOR_SUFFIXES@[0].1@ == "::soroban_sdk::storage::Instance"@);
    assert(STORAGE_ACCESSOR_SUFFIXES@[1].0@ == "soroban_sdk::storage::Persistent"@);
    assert(STORAGE_ACCESSOR_SUFFIXES@[1].1@ == "::soroban_sdk::storage::Persistent"@);
    assert(STORAGE_ACCESSOR_SUFFIXES@[2].0@ == "soroban_sdk::storage::Temporary"@);
    assert(STORAGE_ACCESSOR_SUFFIXES@[2].1@ == "::soroban_sdk::storage::Temporary"@);
    if is_storage_accessor_path_spec(full) {
        let i = choose|i: int|
            0 <= i < 3 && (full == (#[trigger] STORAGE_ACCESSOR_SUFFIXES@[i]).0@ || (has_suffix(
                full,
                STORAGE_ACCESSOR_SUFFIXES@[i].1@,
            ) && is_soroban_root_spec(full)));
        assert(i == 0 || i == 1 || i == 2);
    }
}

/// A statement that touches no storage leaves the tracked read as it was, so
/// it never hides a repeated read.
pub proof fn law_other_statements_keep_the_tracked_read(ops: Seq<Option<StorageOp>>)
    ensures
        last_read(ops.push(None)) == last_read(ops),
{
    assert(ops.push(None).drop_last() =~= ops);
}

/// A read right after a read of another key, or of the same key on another
/// accessor, is not reported: only the very read remembered counts.
pub proof fn law_different_read_is_not_reported(ops: Seq<Option<StorageOp>>, i: int)
    requires
        1 <= i < ops.len(),
        ops[i - 1] matches Some(StorageOp::Read { accessor: a1, key_text: k1 }),
        ops[i] matches Some(StorageOp::Read { accessor: a2, key_text: k2 }),
        op_view(ops[i - 1].unwrap()) != op_view(ops[i].unwrap()),
    ensures
        !redundant_read_at(ops, i),
{
    assert(ops.take(i).last() == ops[i - 1]);
}

} // verus!
