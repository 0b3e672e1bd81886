//! `storage_read_modify_write` — flags the second and later read-modify-write
//! cycles on one storage key within a block.
//!
//! Per key the pass tracks whether a read is pending and how many
//! read-then-write cycles it has completed. A statement that may itself touch
//! storage (any call other than a method on a literal) resets every key.

use vstd::prelude::*;

use crate::text::{has_infix, owned, str_contains, str_eq};

verus! {

/// Message reported for a repeated cycle.
pub const STORAGE_READ_MODIFY_WRITE_MSG: &'static str = "storage read-modify-write cycle: this key was already read, modified, and written once; repeating the cycle wastes storage operations";

/// Help note attached to the message.
pub const STORAGE_READ_MODIFY_WRITE_HELP: &'static str = "reuse the value from the first cycle instead of re-reading and re-writing the same key";

/// Whether a receiver type name is a storage accessor.
pub fn is_storage_receiver(ty: &str) -> (res: bool)
    ensures
        res == (has_infix(ty@, "Instance"@) || has_infix(ty@, "Persistent"@) || has_infix(ty@, "Temporary"@)),
{
    str_contains(ty, "Instance") || str_contains(ty, "Persistent") || str_contains(ty, "Temporary")
}

/// The storage namespace of a receiver: from its type name, else from the
/// name of the accessor method that produced it, else `unknown`.
pub open spec fn namespace_of(ty: Seq<char>, receiver_method: Option<Seq<char>>) -> Seq<char> {
    if has_infix(ty, "Instance"@) {
        "instance"@
    } else if has_infix(ty, "Persistent"@) {
        "persistent"@
    } else if has_infix(ty, "Temporary"@) {
        "temporary"@
    } else {
        match receiver_method {
            Some(m) => if m == "instance"@ || m == "persistent"@ || m == "temporary"@ {
                m
            } else {
                "unknown"@
            },
            None => "unknown"@,
        }
    }
}

/// Infers the storage namespace of a receiver with type name `ty`, produced by
/// `receiver_method` when the receiver is itself a method call.
pub fn infer_namespace_from_receiver(ty: &str, receiver_method: Option<&str>) -> (res: String)
    ensures
        res@ == namespace_of(ty@, match receiver_method {
            Some(m) => Some(m@),
            None => None,
        }),
{
    if str_contains(ty, "Instance") {
        owned("instance")
    } else if str_contains(ty, "Persistent") {
        owned("persistent")
    } else if str_contains(ty, "Temporary") {
        owned("temporary")
    } else {
        match receiver_method {
            Some(m) => if str_eq(m, "instance") || str_eq(m, "persistent") || str_eq(m, "temporary") {
                owned(m)
            } else {
                owned("unknown")
            },
            None => owned("unknown"),
        }
    }
}

/// The shape of a statement that is not a direct storage access, as far as
/// deciding whether it may touch storage.
#[derive(Debug)]
pub enum ExprShape {
    /// A function call.
    Call,
    /// A method call; whether its receiver is a literal.
    MethodCall { literal_receiver: bool },
    /// An `if`, with the statements of its `then` block and its `else` part.
    If { then_branch: Vec<ExprShape>, else_branch: Option<Box<ExprShape>> },
    /// A block, with its statements and trailing expression.
    Block(Vec<ExprShape>),
    /// Anything else.
    Other,
}

/// Whether an expression may call into code that touches storage.
pub open spec fn potential_storage_call(e: ExprShape) -> bool
    decreases e,
{
    match e {
        ExprShape::Call => true,
        ExprShape::MethodCall { literal_receiver } => !literal_receiver,
        ExprShape::If { then_branch, else_branch } => any_potential(then_branch@) || match else_branch {
            Some(b) => potential_storage_call(*b),
            None => false,
        },
        ExprShape::Block(items) => any_potential(items@),
        ExprShape::Other => false,
    }
}

/// Whether any of the expressions may touch storage.
pub open spec fn any_potential(items: Seq<ExprShape>) -> bool
    decreases items,
{
    if items.len() == 0 {
        false
    } else {
        potential_storage_call(items[0]) || any_potential(items.subrange(1, items.len() as int))
    }
}

fn any_potential_exec(items: &Vec<ExprShape>) -> (res: bool)
    ensures
        res == any_potential(items@),
    decreases items@,
{
    let mut i: usize = 0;
    assert(items@.subrange(0, items@.len() as int) =~= items@);
    while i < items.len()
        invariant
            i <= items@.len(),
            any_potential(items@) == any_potential(items@.subrange(i as int, items@.len() as int)),
        decreases items@.len() - i,
    {
        let ghost rest = items@.subrange(i as int, items@.len() as int);
        assert(rest[0] == items@[i as int]);
        assert(rest.subrange(1, rest.len() as int) =~= items@.subrange(i + 1, items@.len() as int));
        proof {
            assert(decreases_to!(items@ => items@[i as int]));
        }
        if is_potential_storage_call(&items[i]) {
            return true;
        }
        i = i + 1;
    }
    false
}

/// Whether a statement may call into code that touches storage: any function
/// call, a method call on anything but a literal, or an `if` or block that
/// contains one.
pub fn is_potential_storage_call(e: &ExprShape) -> (res: bool)
    ensures
        res == potential_storage_call(*e),
    decreases *e,
{
    match e {
        ExprShape::Call => true,
        ExprShape::MethodCall { literal_receiver } => !*literal_receiver,
        ExprShape::If { then_branch, else_branch } => {
            if any_potential_exec(then_branch) {
                return true;
            }
            match else_branch {
                Some(b) => is_potential_storage_call(&**b),
                None => false,
            }
        },
        ExprShape::Block(items) => any_potential_exec(items),
        ExprShape::Other => false,
    }
}

/// A storage key: the key expression's text and the accessor's namespace.
#[derive(Clone, Debug)]
pub struct StorageKey {
    pub text: String,
    pub namespace: String,
}

/// A statement of a block, classified.
#[derive(Debug)]
pub enum RmwOp {
    /// A `get`/`has` on a storage accessor, reading this key.
    Read(StorageKey),
    /// A `set` on a storage accessor, writing this key (`None` without arguments).
    Write(Option<StorageKey>),
    /// Anything else.
    Other(ExprShape),
}

/// The view of a key.
pub open spec fn key_view(k: StorageKey) -> (Seq<char>, Seq<char>) {
    (k.text@, k.namespace@)
}

/// Whether a method is a storage access whose first argument is a key.
pub open spec fn is_key_method(m: Seq<char>) -> bool {
    m == "get"@ || m == "has"@ || m == "set"@
}

/// The key of a key expression with source text `text`: its namespace comes
/// from the receiver of the enclosing `get`/`has`/`set` call (whose name is
/// `parent_method`); an expression in any other place has namespace `unknown`.
pub open spec fn key_of(
    text: Seq<char>,
    parent_method: Option<Seq<char>>,
    receiver_type: Seq<char>,
    receiver_method: Option<Seq<char>>,
) -> (Seq<char>, Seq<char>) {
    match parent_method {
        Some(m) => if is_key_method(m) {
            (text, namespace_of(receiver_type, receiver_method))
        } else {
            (text, "unknown"@)
        },
        None => (text, "unknown"@),
    }
}

/// Builds the key of a key expression: its source text, and the namespace of
/// the receiver of the enclosing call when that call is `get`, `has` or `set`.
/// `parent_method` is the name of the enclosing method call, if the parent is
/// one; `receiver_type` and `receiver_method` describe its receiver.
pub fn make_key(
    text: &str,
    parent_method: Option<&str>,
    receiver_type: &str,
    receiver_method: Option<&str>,
) -> (res: StorageKey)
    ensures
        key_view(res) == key_of(
            text@,
            match parent_method {
                Some(m) => Some(m@),
                None => None,
            },
            receiver_type@,
            match receiver_method {
                Some(m) => Some(m@),
                None => None,
            },
        ),
{
    proof {
        reveal_strlit("get");
        reveal_strlit("has");
        reveal_strlit("set");
    }
    let namespace = match parent_method {
        Some(m) => if str_eq(m, "get") || str_eq(m, "has") || str_eq(m, "set") {
            infer_namespace_from_receiver(receiver_type, receiver_method)
        } else {
            owned("unknown")
        },
        None => owned("unknown"),
    };
    StorageKey { text: owned(text), namespace }
}

/// Keys are compared by what they say, not where they stand: two key
/// expressions with the same source text, each the key of a `get`, `has` or
/// `set` on receivers of the same storage tier, are one key.
pub proof fn law_same_text_on_one_tier_is_one_key(
    text: Seq<char>,
    method_a: Seq<char>,
    type_a: Seq<char>,
    receiver_method_a: Option<Seq<char>>,
    method_b: Seq<char>,
    type_b: Seq<char>,
    receiver_method_b: Option<Seq<char>>,
)
    requires
        is_key_method(method_a),
        is_key_method(method_b),
        namespace_of(type_a, receiver_method_a) == namespace_of(type_b, receiver_method_b),
    ensures
        key_of(text, Some(method_a), type_a, receiver_method_a) == key_of(
            text,
            Some(method_b),
            type_b,
            receiver_method_b,
        ),
{
}

/// Each storage tier has its own namespace: a receiver type naming only
/// `Instance`, only `Persistent` or only `Temporary` gives `instance`,
/// `persistent` or `temporary`; failing a type, the accessor method's own name
/// gives the tier; anything else is `unknown`. The three tier names differ,
/// so keys with the same text on different tiers are different keys.
pub proof fn law_each_tier_has_its_namespace(ty: Seq<char>, receiver_method: Option<Seq<char>>)
    ensures
        has_infix(ty, "Instance"@) ==> namespace_of(ty, receiver_method) == "instance"@,
        !has_infix(ty, "Instance"@) && has_infix(ty, "Persistent"@) ==> namespace_of(ty, receiver_method)
            == "persistent"@,
        !has_infix(ty, "Instance"@) && !has_infix(ty, "Persistent"@) && has_infix(ty, "Temporary"@) ==> namespace_of(
            ty,
            receiver_method,
        ) == "temporary"@,
        !has_infix(ty, "Instance"@) && !has_infix(ty, "Persistent"@) && !has_infix(ty, "Temporary"@)
            ==> namespace_of(ty, receiver_method) == match receiver_method {
            Some(m) => if m == "instance"@ || m == "persistent"@ || m == "temporary"@ {
                m
            } else {
                "unknown"@
            },
            None => "unknown"@,
        },
        "instance"@ != "persistent"@,
        "instance"@ != "temporary"@,
        "persistent"@ != "temporary"@,
        "unknown"@ != "instance"@ && "unknown"@ != "persistent"@ && "unknown"@ != "temporary"@,
{
    reveal_strlit("instance");
    reveal_strlit("persistent");
    reveal_strlit("temporary");
    reveal_strlit("unknown");
    assert("instance"@[0] != "persistent"@[0]);
    assert("instance"@[0] != "temporary"@[0]);
    assert("persistent"@[0] != "temporary"@[0]);
    assert("unknown"@[0] != "instance"@[0]);
    assert("unknown"@[0] != "persistent"@[0]);
    assert("unknown"@[0] != "temporary"@[0]);
}

/// Keys on different tiers are different keys: the same key text under a
/// `Persistent` receiver and under a `Temporary` one (each naming only its
/// own tier) never meet.
pub proof fn law_same_text_on_different_tiers_differs(
    text: Seq<char>,
    method_a: Seq<char>,
    type_a: Seq<char>,
    receiver_method_a: Option<Seq<char>>,
    method_b: Seq<char>,
    type_b: Seq<char>,
    receiver_method_b: Option<Seq<char>>,
)
    requires
        is_key_method(method_a),
        is_key_method(method_b),
        !has_infix(type_a, "Instance"@) && has_infix(type_a, "Persistent"@),
        !has_infix(type_b, "Instance"@) && !has_infix(type_b, "Persistent"@) && has_infix(type_b, "Temporary"@),
    ensures
        key_of(text, Some(method_a), type_a, receiver_method_a) != key_of(text, Some(method_b), type_b, receiver_method_b),
{
    law_each_tier_has_its_namespace(type_a, receiver_method_a);
    law_each_tier_has_its_namespace(type_b, receiver_method_b);
}

/// `(completed cycles, read pending)` for `key` after the statements `ops`.
pub open spec fn key_state(ops: Seq<RmwOp>, key: (Seq<char>, Seq<char>)) -> (nat, bool)
    decreases ops.len(),
{
    if ops.len() == 0 {
        (0, false)
    } else {
        let prev = key_state(ops.drop_last(), key);
        match ops.last() {
            RmwOp::Read(k) => if key_view(k) == key {
                (prev.0, true)
            } else {
                prev
            },
            RmwOp::Write(Some(k)) => if key_view(k) == key && prev.1 {
                (prev.0 + 1, false)
            } else {
                prev
            },
            RmwOp::Write(None) => prev,
            RmwOp::Other(shape) => if potential_storage_call(shape) {
                (0, false)
            } else {
                prev
            },
        }
    }
}

/// Whether the statement at `i` completes a second (or later) cycle on its key.
pub open spec fn repeated_cycle_at(ops: Seq<RmwOp>, i: int) -> bool {
    match ops[i] {
        RmwOp::Write(Some(k)) => key_state(ops.take(i), key_view(k)).1 && key_state(ops.take(i), key_view(k)).0 >= 1,
        _ => false,
    }
}

/// The indices of the repeated cycles, in order.
pub open spec fn repeated_cycles_spec(ops: Seq<RmwOp>) -> Seq<int> {
    Seq::new(ops.len(), |i: int| i).filter(|i: int| repeated_cycle_at(ops, i))
}

proof fn lemma_cycles_bounded(ops: Seq<RmwOp>, key: (Seq<char>, Seq<char>))
    ensures
        key_state(ops, key).0 <= ops.len(),
    decreases ops.len(),
{
    if ops.len() > 0 {
        lemma_cycles_bounded(ops.drop_last(), key);
    }
}

/// One key the pass follows, with its state.
struct KeyEntry {
    text: String,
    namespace: String,
    cycles: usize,
    pending: bool,
}

fn find_entry(entries: &Vec<KeyEntry>, k: &StorageKey) -> (res: Option<usize>)
    ensures
        res matches Some(j) ==> j < entries@.len() && (entries@[j as int].text@, entries@[j as int].namespace@)
            == key_view(*k),
        res is None ==> forall|j: int| 0 <= j < entries@.len() ==> (#[trigger] entries@[j].text@, entries@[j].namespace@)
            != key_view(*k),
{
    let mut j: usize = 0;
    while j < entries.len()
        invariant
            j <= entries@.len(),
            forall|q: int| 0 <= q < j ==> (#[trigger] entries@[q].text@, entries@[q].namespace@) != key_view(*k),
        decreases entries@.len() - j,
    {
        if str_eq(entries[j].text.as_str(), k.text.as_str()) && str_eq(
            entries[j].namespace.as_str(),
            k.namespace.as_str(),
        ) {
            return Some(j);
        }
        j = j + 1;
    }
    None
}

/// The state the tracker holds for `key`: its entry, or no cycles and nothing pending.
spec fn entry_state(entries: Seq<KeyEntry>, key: (Seq<char>, Seq<char>)) -> (nat, bool) {
    if exists|j: int| 0 <= j < entries.len() && (#[trigger] entries[j].text@, entries[j].namespace@) == key {
        let j = choose|j: int| 0 <= j < entries.len() && (#[trigger] entries[j].text@, entries[j].namespace@) == key;
        (entries[j].cycles as nat, entries[j].pending)
    } else {
        (0, false)
    }
}

spec fn entries_distinct(entries: Seq<KeyEntry>) -> bool {
    forall|a: int, b: int| 0 <= a < b < entries.len() ==> (#[trigger] entries[a].text@, entries[a].namespace@) != (
    #[trigger] entries[b].text@, entries[b].namespace@)
}

proof fn lemma_tracked_at(entries: Seq<KeyEntry>, j: int)
    requires
        entries_distinct(entries),
        0 <= j < entries.len(),
    ensures
        entry_state(entries, (entries[j].text@, entries[j].namespace@)) == (entries[j].cycles as nat, entries[j].pending),
{
    let key = (entries[j].text@, entries[j].namespace@);
    let q = choose|q: int| 0 <= q < entries.len() && (#[trigger] entries[q].text@, entries[q].namespace@) == key;
    if q != j {
        if q < j {
            assert((entries[q].text@, entries[q].namespace@) != (entries[j].text@, entries[j].namespace@));
        } else {
            assert((entries[j].text@, entries[j].namespace@) != (entries[q].text@, entries[q].namespace@));
        }
    }
}

/// The statements of a block that are reported: each write that completes a
/// second or later read-then-write cycle on its key (same key text, same
/// namespace) with no possibly-storage-touching statement in between.
pub fn repeated_cycles(ops: &[RmwOp]) -> (res: Vec<usize>)
    ensures
        res@.map_values(|i: usize| i as int) == repeated_cycles_spec(ops@),
{
    let ghost all = Seq::new(ops@.len(), |i: int| i);
    let mut entries: Vec<KeyEntry> = Vec::new();
    let mut out: Vec<usize> = Vec::new();
    let mut i: usize = 0;
    while i < ops.len()
        invariant
            i <= ops@.len(),
            all == Seq::new(ops@.len(), |i: int| i),
            out@.map_values(|i: usize| i as int) == all.take(i as int).filter(|i: int| repeated_cycle_at(ops@, i)),
            entries_distinct(entries@),
            forall|key: (Seq<char>, Seq<char>)| #[trigger] key_state(ops@.take(i as int), key) == entry_state(entries@, key),
            forall|j: int| 0 <= j < entries@.len() ==> (#[trigger] entries@[j]).cycles <= i,
        decreases ops@.len() - i,
    {
        let ghost pre = ops@.take(i as int);
        let ghost next = ops@.take(i + 1);
        proof {
            reveal_with_fuel(Seq::filter, 1);
            assert(all.take(i + 1).drop_last() =~= all.take(i as int));
            assert(all.take(i + 1).last() == i as int);
            assert(next.drop_last() =~= pre);
            assert(next.last() == ops@[i as int]);
        }
        match &ops[i] {
            RmwOp::Read(k) => {
                match find_entry(&entries, k) {
                    Some(j) => {
                        let ghost old_entries = entries@;
                        proof {
                            lemma_tracked_at(old_entries, j as int);
                        }
                        entries.set(j, KeyEntry {
                            text: owned(k.text.as_str()),
                            namespace: owned(k.namespace.as_str()),
                            cycles: entries[j].cycles,
                            pending: true,
                        });
                        proof {
                            assert forall|a: int, b: int| 0 <= a < b < entries@.len() implies (#[trigger] entries@[a].text@, entries@[a].namespace@) != (
                            #[trigger] entries@[b].text@, entries@[b].namespace@) by {
                                assert((old_entries[a].text@, old_entries[a].namespace@) != (old_entries[b].text@, old_entries[b].namespace@));
                            }
                            lemma_tracked_at(entries@, j as int);
                            assert forall|key: (Seq<char>, Seq<char>)| #[trigger] key_state(next, key) == entry_state(entries@, key) by {
                                assert(key_state(pre, key) == entry_state(old_entries, key));
                                if key != key_view(*k) {
                                    lemma_tracked_same(old_entries, entries@, j as int, key);
                                }
                            }
                        }
                    },
                    None => {
                        let ghost old_entries = entries@;
                        entries.push(KeyEntry {
                            text: owned(k.text.as_str()),
                            namespace: owned(k.namespace.as_str()),
                            cycles: 0,
                            pending: true,
                        });
                        proof {
                            assert forall|a: int, b: int| 0 <= a < b < entries@.len() implies (#[trigger] entries@[a].text@, entries@[a].namespace@) != (
                            #[trigger] entries@[b].text@, entries@[b].namespace@) by {
                                if b < old_entries.len() {
                                    assert(entries@[a] == old_entries[a]);
                                    assert(entries@[b] == old_entries[b]);
                                } else {
                                    assert(entries@[a] == old_entries[a]);
                                }
                            }
                            lemma_tracked_at(entries@, old_entries.len() as int);
                            assert forall|key: (Seq<char>, Seq<char>)| #[trigger] key_state(next, key) == entry_state(entries@, key) by {
                                assert(key_state(pre, key) == entry_state(old_entries, key));
                                if key != key_view(*k) {
                                    lemma_tracked_push(old_entries, entries@, key);
                                }
                            }
                        }
                    },
                }
            },
            RmwOp::Write(Some(k)) => {
                match find_entry(&entries, k) {
                    Some(j) => {
                        let ghost old_entries = entries@;
                        proof {
                            lemma_tracked_at(old_entries, j as int);
                            assert(key_state(pre, key_view(*k)) == entry_state(old_entries, key_view(*k)));
                            lemma_cycles_bounded(pre, key_view(*k));
                        }
                        if entries[j].pending {
                            let cycles = entries[j].cycles + 1;
                            if cycles >= 2 {
                                let ghost before = out@;
                                out.push(i);
                                assert(out@.map_values(|i: usize| i as int) =~= before.map_values(|i: usize| i as int).push(
                                    i as int,
                                ));
                            }
                            entries.set(j, KeyEntry {
                                text: owned(k.text.as_str()),
                                namespace: owned(k.namespace.as_str()),
                                cycles,
                                pending: false,
                            });
                            proof {
                                assert forall|a: int, b: int| 0 <= a < b < entries@.len() implies (#[trigger] entries@[a].text@, entries@[a].namespace@) != (
                                #[trigger] entries@[b].text@, entries@[b].namespace@) by {
                                    assert((old_entries[a].text@, old_entries[a].namespace@) != (old_entries[b].text@, old_entries[b].namespace@));
                                }
                                lemma_tracked_at(entries@, j as int);
                                assert forall|key: (Seq<char>, Seq<char>)| #[trigger] key_state(next, key) == entry_state(entries@, key) by {
                                    assert(key_state(pre, key) == entry_state(old_entries, key));
                                    if key != key_view(*k) {
                                        lemma_tracked_same(old_entries, entries@, j as int, key);
                                    }
                                }
                            }
                        } else {
                            proof {
                                assert forall|key: (Seq<char>, Seq<char>)| #[trigger] key_state(next, key) == entry_state(entries@, key) by {
                                    assert(key_state(pre, key) == entry_state(old_entries, key));
                                }
                            }
                        }
                    },
                    None => {
                        proof {
                            assert(key_state(pre, key_view(*k)) == entry_state(entries@, key_view(*k)));
                            assert forall|key: (Seq<char>, Seq<char>)| #[trigger] key_state(next, key) == entry_state(entries@, key) by {
                                assert(key_state(pre, key) == entry_state(entries@, key));
                            }
                        }
                    },
                }
            },
            RmwOp::Write(None) => {
                proof {
                    assert forall|key: (Seq<char>, Seq<char>)| #[trigger] key_state(next, key) == entry_state(entries@, key) by {
                        assert(key_state(pre, key) == entry_state(entries@, key));
                    }
                }
            },
            RmwOp::Other(shape) => {
                let ghost old_entries = entries@;
                if is_potential_storage_call(shape) {
                    entries = Vec::new();
                }
                proof {
                    assert forall|key: (Seq<char>, Seq<char>)| #[trigger] key_state(next, key) == entry_state(entries@, key) by {
                        assert(key_state(pre, key) == entry_state(old_entries, key));
                    }
                }
            },
        }
        i = i + 1;
    }
    assert(all.take(i as int) =~= all);
    out
}


/// A statement that may touch storage resets every key: a write right after
/// one is never reported.
pub proof fn law_possible_storage_call_resets(ops: Seq<RmwOp>, i: int)
    requires
        1 <= i < ops.len(),
        ops[i - 1] matches RmwOp::Other(shape) && potential_storage_call(shape),
    ensures
        !repeated_cycle_at(ops, i),
{
    assert(ops.take(i).drop_last() =~= ops.take(i - 1));
    assert(ops.take(i).last() == ops[i - 1]);
}

/// Read, write, read, write on one key: the second write is reported.
pub proof fn law_second_cycle_is_reported(ops: Seq<RmwOp>, i: int, key: (Seq<char>, Seq<char>))
    requires
        3 <= i < ops.len(),
        ops[i - 3] matches RmwOp::Read(k) && key_view(k) == key,
        ops[i - 2] matches RmwOp::Write(Some(k)) && key_view(k) == key,
        ops[i - 1] matches RmwOp::Read(k) && key_view(k) == key,
        ops[i] matches RmwOp::Write(Some(k)) && key_view(k) == key,
    ensures
        repeated_cycle_at(ops, i),
{
    let t1 = ops.take(i - 2);
    let t2 = ops.take(i - 1);
    let t3 = ops.take(i);
    assert(t1.drop_last() =~= ops.take(i - 3));
    assert(t1.last() == ops[i - 3]);
    assert(t2.drop_last() =~= t1);
    assert(t2.last() == ops[i - 2]);
    assert(t3.drop_last() =~= t2);
    assert(t3.last() == ops[i - 1]);
    assert(key_state(t1, key).1);
    assert(key_state(t2, key).0 >= 1);
    assert(key_state(t3, key).1 && key_state(t3, key).0 >= 1);
}

/// The first read-then-write cycle on a key is never reported.
pub proof fn law_first_cycle_is_not_reported(ops: Seq<RmwOp>, i: int, key: (Seq<char>, Seq<char>))
    requires
        0 <= i < ops.len(),
        ops[i] matches RmwOp::Write(Some(k)) && key_view(k) == key,
        forall|j: int| 0 <= j < i ==> !(#[trigger] ops[j] matches RmwOp::Write(Some(k)) && key_view(k) == key),
    ensures
        !repeated_cycle_at(ops, i),
{
    lemma_no_cycle_without_write(ops.take(i), key);
}

proof fn lemma_no_cycle_without_write(ops: Seq<RmwOp>, key: (Seq<char>, Seq<char>))
    requires
        forall|j: int| 0 <= j < ops.len() ==> !(#[trigger] ops[j] matches RmwOp::Write(Some(k)) && key_view(k) == key),
    ensures
        key_state(ops, key).0 == 0,
    decreases ops.len(),
{
    if ops.len() > 0 {
        assert(!(ops[ops.len() - 1] matches RmwOp::Write(Some(k)) && key_view(k) == key));
        lemma_no_cycle_without_write(ops.drop_last(), key);
    }
}

proof fn lemma_tracked_same(a: Seq<KeyEntry>, b: Seq<KeyEntry>, j: int, key: (Seq<char>, Seq<char>))
    requires
        entries_distinct(a),
        entries_distinct(b),
        0 <= j < a.len(),
        a.len() == b.len(),
        (a[j].text@, a[j].namespace@) == (b[j].text@, b[j].namespace@),
        forall|q: int| 0 <= q < a.len() && q != j ==> a[q] == b[q],
        key != (a[j].text@, a[j].namespace@),
    ensures
        entry_state(a, key) == entry_state(b, key),
{
    if exists|q: int| 0 <= q < a.len() && (#[trigger] a[q].text@, a[q].namespace@) == key {
        let q = choose|q: int| 0 <= q < a.len() && (#[trigger] a[q].text@, a[q].namespace@) == key;
        assert(b[q] == a[q]);
        lemma_tracked_at(a, q);
        lemma_tracked_at(b, q);
    } else {
        assert forall|q: int| 0 <= q < b.len() implies (#[trigger] b[q].text@, b[q].namespace@) != key by {
            if q != j {
                assert(b[q] == a[q]);
            }
        }
    }
}

proof fn lemma_tracked_push(a: Seq<KeyEntry>, b: Seq<KeyEntry>, key: (Seq<char>, Seq<char>))
    requires
        entries_distinct(a),
        entries_distinct(b),
        b.len() == a.len() + 1,
        forall|q: int| 0 <= q < a.len() ==> a[q] == b[q],
        key != (b[a.len() as int].text@, b[a.len() as int].namespace@),
    ensures
        entry_state(a, key) == entry_state(b, key),
{
    if exists|q: int| 0 <= q < a.len() && (#[trigger] a[q].text@, a[q].namespace@) == key {
        let q = choose|q: int| 0 <= q < a.len() && (#[trigger] a[q].text@, a[q].namespace@) == key;
        assert(b[q] == a[q]);
        lemma_tracked_at(a, q);
        lemma_tracked_at(b, q);
    } else {
        assert forall|q: int| 0 <= q < b.len() implies (#[trigger] b[q].text@, b[q].namespace@) != key by {
            if q < a.len() {
                assert(b[q] == a[q]);
            }
        }
    }
}

/// How one more statement moves the state `(cycles, read pending)` of a key:
/// a read of the key leaves a read pending; a write of the key after a pending
/// read completes a cycle; a function call, or a method call on anything but a
/// literal, forgets every key; other keys' reads and writes, a `set` without
/// arguments, a method on a literal and any other statement change nothing.
pub proof fn law_one_statement_step(ops: Seq<RmwOp>, key: (Seq<char>, Seq<char>), k: StorageKey)
    ensures
        key_state(ops.push(RmwOp::Other(ExprShape::Call)), key) == (0nat, false),
        key_state(ops.push(RmwOp::Other(ExprShape::MethodCall { literal_receiver: false })), key) == (0nat, false),
        key_state(ops.push(RmwOp::Other(ExprShape::MethodCall { literal_receiver: true })), key) == key_state(ops, key),
        key_state(ops.push(RmwOp::Other(ExprShape::Other)), key) == key_state(ops, key),
        key_state(ops.push(RmwOp::Write(None)), key) == key_state(ops, key),
        key_view(k) != key ==> key_state(ops.push(RmwOp::Read(k)), key) == key_state(ops, key),
        key_view(k) != key ==> key_state(ops.push(RmwOp::Write(Some(k))), key) == key_state(ops, key),
        key_view(k) == key ==> key_state(ops.push(RmwOp::Read(k)), key) == (key_state(ops, key).0, true),
        key_view(k) == key && key_state(ops, key).1 ==> key_state(ops.push(RmwOp::Write(Some(k))), key) == (
        key_state(ops, key).0 + 1, false),
        key_view(k) == key && !key_state(ops, key).1 ==> key_state(ops.push(RmwOp::Write(Some(k))), key)
            == key_state(ops, key),
{
    assert(ops.push(RmwOp::Other(ExprShape::Call)).drop_last() =~= ops);
    assert(ops.push(RmwOp::Other(ExprShape::MethodCall { literal_receiver: false })).drop_last() =~= ops);
    assert(ops.push(RmwOp::Other(ExprShape::MethodCall { literal_receiver: true })).drop_last() =~= ops);
    assert(ops.push(RmwOp::Other(ExprShape::Other)).drop_last() =~= ops);
    assert(ops.push(RmwOp::Write(None)).drop_last() =~= ops);
    assert(ops.push(RmwOp::Read(k)).drop_last() =~= ops);
    assert(ops.push(RmwOp::Write(Some(k))).drop_last() =~= ops);
}

proof fn lemma_any_potential_exists(items: Seq<ExprShape>)
    ensures
        any_potential(items) <==> exists|i: int| 0 <= i < items.len() && potential_storage_call(#[trigger] items[i]),
    decreases items.len(),
{
    if items.len() > 0 {
        let rest = items.subrange(1, items.len() as int);
        lemma_any_potential_exists(rest);
        if exists|i: int| 0 <= i < items.len() && potential_storage_call(#[trigger] items[i]) {
            let i = choose|i: int| 0 <= i < items.len() && potential_storage_call(#[trigger] items[i]);
            if i > 0 {
                assert(rest[i - 1] == items[i]);
            }
        }
        if exists|i: int| 0 <= i < rest.len() && potential_storage_call(#[trigger] rest[i]) {
            let i = choose|i: int| 0 <= i < rest.len() && potential_storage_call(#[trigger] rest[i]);
            assert(items[i + 1] == rest[i]);
        }
    }
}

/// A block may touch storage exactly when one of its statements may; an `if`
/// exactly when a statement of its `then` block or its `else` part may.
pub proof fn law_nested_statements_may_touch_storage(
    items: Vec<ExprShape>,
    then_branch: Vec<ExprShape>,
    else_branch: Option<Box<ExprShape>>,
)
    ensures
        potential_storage_call(ExprShape::Block(items)) <==> exists|i: int|
            0 <= i < items@.len() && potential_storage_call(#[trigger] items@[i]),
        potential_storage_call(ExprShape::If { then_branch, else_branch }) <==> ((exists|i: int|
            0 <= i < then_branch@.len() && potential_storage_call(#[trigger] then_branch@[i])) || match else_branch {
            Some(e) => potential_storage_call(*e),
            None => false,
        }),
{
    lemma_any_potential_exists(items@);
    lemma_any_potential_exists(then_branch@);
}

} // verus!
