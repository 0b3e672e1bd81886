//! `storage_write_without_read` — flags a storage write whose receiver and
//! key were not read earlier in the same function body.
//!
//! Receivers and keys are compared by their source text. Functions whose name
//! marks them as initialisers are exempt.

use vstd::prelude::*;

use crate::text::{has_infix, is_one_of, str_contains, str_eq, str_in};

verus! {

/// Accessor methods that observe a key without overwriting it.
pub const STORAGE_READ_METHODS: [&'static str; 5] = ["get", "try_get", "has", "remove", "update"];

/// The write method this lint pairs with a preceding read.
pub const STORAGE_WRITE_METHOD: &'static str = "set";

/// Message reported for a write whose key was not read first.
pub const STORAGE_WRITE_WITHOUT_READ_MSG: &'static str = "storage write without a corresponding read";

/// Help note attached to the message.
pub const STORAGE_WRITE_WITHOUT_READ_HELP: &'static str = "consider reading the value before writing or using `.has()` to check existence";

/// Whether a function name marks a deliberate initialiser: it contains
/// `init` or `set_admin`.
pub fn is_initialiser(fn_name: &str) -> (res: bool)
    ensures
        res == (has_infix(fn_name@, "init"@) || has_infix(fn_name@, "set_admin"@)),
{
    str_contains(fn_name, "init") || str_contains(fn_name, "set_admin")
}

/// A method call in a function body, as the lint compares it.
#[derive(Clone, Debug)]
pub struct StorageCall {
    /// The method name.
    pub method: String,
    /// Whether the receiver is a storage accessor.
    pub storage_receiver: bool,
    /// The receiver's source text (empty when unavailable).
    pub receiver: String,
    /// The first argument's source text (empty when unavailable).
    pub key: String,
    /// The number of arguments.
    pub arg_count: usize,
}

/// Whether a call reads a key: an observing method on a storage accessor, with a key.
pub open spec fn is_read(c: StorageCall) -> bool {
    is_one_of(c.method@, STORAGE_READ_METHODS@) && c.storage_receiver && c.arg_count >= 1
}

/// Whether a call writes a key: `set` on a storage accessor with key and value.
pub open spec fn is_write(c: StorageCall) -> bool {
    c.method@ == "set"@ && c.storage_receiver && c.arg_count >= 2
}

/// Whether the write at `i` is reported: no earlier call read the same receiver and key.
pub open spec fn unread_write_at(calls: Seq<StorageCall>, i: int) -> bool {
    is_write(calls[i]) && !exists|j: int| 0 <= j < i && is_read(#[trigger] calls[j]) && calls[j].receiver@
        == calls[i].receiver@ && calls[j].key@ == calls[i].key@
}

/// The indices of the reported writes in a function named `fn_name`, in order.
pub open spec fn unread_writes_spec(fn_name: Seq<char>, calls: Seq<StorageCall>) -> Seq<int> {
    if has_infix(fn_name, "init"@) || has_infix(fn_name, "set_admin"@) {
        Seq::empty()
    } else {
        Seq::new(calls.len(), |i: int| i).filter(|i: int| unread_write_at(calls, i))
    }
}

fn read_before(calls: &[StorageCall], i: usize) -> (res: bool)
    requires
        i < calls@.len(),
    ensures
        res == exists|j: int| 0 <= j < i && is_read(#[trigger] calls@[j]) && calls@[j].receiver@ == calls@[i as int].receiver@
            && calls@[j].key@ == calls@[i as int].key@,
{
    let mut j: usize = 0;
    while j < i
        invariant
            j <= i < calls@.len(),
            forall|k: int| 0 <= k < j ==> !(is_read(#[trigger] calls@[k]) && calls@[k].receiver@ == calls@[i as int].receiver@
                && calls@[k].key@ == calls@[i as int].key@),
        decreases i - j,
    {
        let c = &calls[j];
        if str_in(c.method.as_str(), STORAGE_READ_METHODS.as_slice()) && c.storage_receiver && c.arg_count >= 1
            && str_eq(c.receiver.as_str(), calls[i].receiver.as_str()) && str_eq(c.key.as_str(), calls[i].key.as_str()) {
            assert(is_read(calls@[j as int]));
            return true;
        }
        j = j + 1;
    }
    false
}

/// The indices of the storage writes reported in the body of `fn_name`:
/// every `set` whose receiver and key no earlier observing call touched,
/// unless the function is an initialiser.
pub fn unread_writes(fn_name: &str, calls: &[StorageCall]) -> (res: Vec<usize>)
    ensures
        res@.map_values(|i: usize| i as int) == unread_writes_spec(fn_name@, calls@),
{
    proof {
        reveal_strlit("init");
        reveal_strlit("set_admin");
    }
    if is_initialiser(fn_name) {
        return Vec::new();
    }
    let ghost all = Seq::new(calls@.len(), |i: int| i);
    let mut out: Vec<usize> = Vec::new();
    let mut i: usize = 0;
    while i < calls.len()
        invariant
            i <= calls@.len(),
            all == Seq::new(calls@.len(), |i: int| i),
            out@.map_values(|i: usize| i as int) == all.take(i as int).filter(|i: int| unread_write_at(calls@, i)),
        decreases calls@.len() - i,
    {
        proof {
            reveal_with_fuel(Seq::filter, 1);
            assert(all.take(i + 1).drop_last() =~= all.take(i as int));
            assert(all.take(i + 1).last() == i as int);
        }
        let c = &calls[i];
        if str_eq(c.method.as_str(), STORAGE_WRITE_METHOD) && c.storage_receiver && c.arg_count >= 2 && !read_before(
            calls,
            i,
        ) {
            let ghost before = out@;
            out.push(i);
            assert(out@.map_values(|i: usize| i as int) =~= before.map_values(|i: usize| i as int).push(i as int));
        }
        i = i + 1;
    }
    assert(all.take(i as int) =~= all);
    out
}

/// Whether `m` is one of the observing methods: `get`, `try_get`, `has`,
/// `remove` or `update`.
pub open spec fn observes_key(m: Seq<char>) -> bool {
    m == "get"@ || m == "try_get"@ || m == "has"@ || m == "remove"@ || m == "update"@
}

proof fn lemma_is_read_literal(c: StorageCall)
    ensures
        is_read(c) <==> observes_key(c.method@) && c.storage_receiver && c.arg_count >= 1,
{
    assert(STORAGE_READ_METHODS@[0]@ == "get"@);
    assert(STORAGE_READ_METHODS@[1]@ == "try_get"@);
    assert(STORAGE_READ_METHODS@[2]@ == "has"@);
    assert(STORAGE_READ_METHODS@[3]@ == "remove"@);
    assert(STORAGE_READ_METHODS@[4]@ == "update"@);
    if is_one_of(c.method@, STORAGE_READ_METHODS@) {
        let i = choose|i: int| 0 <= i < STORAGE_READ_METHODS@.len() && STORAGE_READ_METHODS@[i]@ == c.method@;
        assert(0 <= i < 5);
    }
}

/// A deliberate initialiser — a function whose name contains `init` or
/// `set_admin` — has no write reported, whatever its body.
pub proof fn law_initialisers_are_exempt(fn_name: Seq<char>, calls: Seq<StorageCall>)
    requires
        has_infix(fn_name, "init"@) || has_infix(fn_name, "set_admin"@),
    ensures
        unread_writes_spec(fn_name, calls) == Seq::<int>::empty(),
{
}

/// Outside initialisers, the write at `i` is reported exactly when it is a
/// `set` with key and value on a storage accessor and no earlier `get`,
/// `try_get`, `has`, `remove` or `update` (with a key, on a storage accessor)
/// touched the same receiver and key.
pub proof fn law_unread_write_is_reported(fn_name: Seq<char>, calls: Seq<StorageCall>, i: int)
    requires
        !has_infix(fn_name, "init"@),
        !has_infix(fn_name, "set_admin"@),
        0 <= i < calls.len(),
    ensures
        unread_writes_spec(fn_name, calls).contains(i) <==> (calls[i].method@ == "set"@ && calls[i].storage_receiver
            && calls[i].arg_count >= 2 && !exists|j: int|
            0 <= j < i && observes_key(#[trigger] calls[j].method@) && calls[j].storage_receiver && calls[j].arg_count
                >= 1 && calls[j].receiver@ == calls[i].receiver@ && calls[j].key@ == calls[i].key@),
{
    let all = Seq::new(calls.len(), |k: int| k);
    let f = |k: int| unread_write_at(calls, k);
    assert(all[i] == i);
    assert(unread_writes_spec(fn_name, calls) == all.filter(f));
    if all.filter(f).contains(i) {
        let q = choose|q: int| 0 <= q < all.filter(f).len() && all.filter(f)[q] == i;
        all.lemma_filter_pred(f, q);
    } else {
        if f(i) {
            all.lemma_filter_contains(f, i);
        }
    }
    assert forall|j: int| 0 <= j < i implies (is_read(#[trigger] calls[j]) <==> (observes_key(calls[j].method@)
        && calls[j].storage_receiver && calls[j].arg_count >= 1)) by {
        lemma_is_read_literal(calls[j]);
    }
}

} // verus!
