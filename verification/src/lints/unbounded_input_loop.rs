//! `unbounded_input_loop` — flags a `for` loop driven by caller-supplied input
//! whose body writes to storage.

use vstd::prelude::*;

use crate::text::{contains_any, has_infix, is_one_of, str_contains_any, str_eq, str_in};

verus! {

/// Storage mutations that make an iteration expensive.
pub const WRITE_METHODS: [&'static str; 3] = ["set", "put", "make_persistent"];

/// Methods that iterate over a collection.
pub const ITERATING_METHODS: [&'static str; 2] = ["iter", "iter_combined"];

/// Type-name fragments of caller-sized collections.
pub const COLLECTION_FRAGMENTS: [&'static str; 5] = ["Vec", "Map", "Array", "Bytes", "Set"];

/// Type-name fragments of storage accessors.
pub const STORAGE_TYPE_FRAGMENTS: [&'static str; 4] = ["Storage", "Instance", "Persistent", "Temporary"];

/// Message reported for an input-driven loop that writes to storage.
pub const UNBOUNDED_INPUT_LOOP_MSG: &'static str = "loop is driven by caller-supplied input and performs storage writes inside the loop body";

/// Help note attached to the message.
pub const UNBOUNDED_INPUT_LOOP_HELP: &'static str = "the number of iterations is controlled by the caller and each iteration performs a storage write; bound the loop (e.g. cap iterations or batch the writes) so a single invocation cannot exhaust the budget";

/// Whether `name` contains at least one of `fragments`.
pub fn name_contains_any(name: &str, fragments: &[&str]) -> (res: bool)
    ensures
        res == contains_any(name@, fragments@),
{
    str_contains_any(name, fragments)
}

/// Whether a type name looks like a caller-sized collection.
pub open spec fn is_collection_name(ty: Seq<char>) -> bool {
    contains_any(ty, COLLECTION_FRAGMENTS@)
}

/// What a `for` loop iterates over, as the lint sees it.
#[derive(Clone, Debug)]
pub enum LoopSource {
    /// `recv.method(..)`, with the receiver's type name (references peeled).
    MethodCall { method: String, receiver_type: String },
    /// A path or a borrow (`input`, `&input`), with its type name (references peeled).
    PathOrBorrow { ty: String },
    /// A call such as the range constructor, with its arguments.
    Call { args: Vec<RangeBound> },
    /// Anything else.
    Other,
}

/// An argument of a call a loop iterates over.
#[derive(Clone, Debug)]
pub enum RangeBound {
    /// `recv.method(..)`, with the receiver's type name (references peeled).
    MethodCall { method: String, receiver_type: String },
    /// Any other expression, with its type name (references peeled).
    Expr { ty: String },
}

/// Whether a range bound is the size of caller input: `input.len()` on a
/// collection, or a collection itself.
pub open spec fn bound_is_input_driven(b: RangeBound) -> bool {
    match b {
        RangeBound::MethodCall { method, receiver_type } => method@ == "len"@ && is_collection_name(receiver_type@),
        RangeBound::Expr { ty } => is_collection_name(ty@),
    }
}

/// Whether a loop iterates over caller-supplied input.
pub open spec fn iterates_over_input_spec(src: LoopSource) -> bool {
    match src {
        LoopSource::MethodCall { method, receiver_type } => is_one_of(method@, ITERATING_METHODS@)
            && is_collection_name(receiver_type@),
        LoopSource::PathOrBorrow { ty } => is_collection_name(ty@),
        LoopSource::Call { args } => exists|i: int| 0 <= i < args@.len() && bound_is_input_driven(#[trigger] args@[i]),
        LoopSource::Other => false,
    }
}

fn is_collection(ty: &str) -> (res: bool)
    ensures
        res == is_collection_name(ty@),
{
    str_contains_any(ty, COLLECTION_FRAGMENTS.as_slice())
}

fn is_input_driven(b: &RangeBound) -> (res: bool)
    ensures
        res == bound_is_input_driven(*b),
{
    match b {
        RangeBound::MethodCall { method, receiver_type } => str_eq(method.as_str(), "len") && is_collection(
            receiver_type.as_str(),
        ),
        RangeBound::Expr { ty } => is_collection(ty.as_str()),
    }
}

fn any_input_driven(args: &Vec<RangeBound>) -> (res: bool)
    ensures
        res == exists|i: int| 0 <= i < args@.len() && bound_is_input_driven(#[trigger] args@[i]),
{
    let mut i: usize = 0;
    while i < args.len()
        invariant
            i <= args@.len(),
            forall|j: int| 0 <= j < i ==> !bound_is_input_driven(#[trigger] args@[j]),
        decreases args@.len() - i,
    {
        if is_input_driven(&args[i]) {
            return true;
        }
        i = i + 1;
    }
    false
}

/// Whether a loop iterates over caller-supplied input: `input.iter()` (or
/// `iter_combined`) on a collection, a collection or a borrow of one, or a
/// call (such as a range) with an input-driven argument.
pub fn iterates_over_input(src: &LoopSource) -> (res: bool)
    ensures
        res == iterates_over_input_spec(*src),
{
    match src {
        LoopSource::MethodCall { method, receiver_type } => str_in(method.as_str(), ITERATING_METHODS.as_slice())
            && is_collection(receiver_type.as_str()),
        LoopSource::PathOrBorrow { ty } => is_collection(ty.as_str()),
        LoopSource::Call { args } => any_input_driven(args),
        LoopSource::Other => false,
    }
}

/// A method call in a loop body: its name and its receiver's type name.
#[derive(Clone, Debug)]
pub struct BodyCall {
    pub method: String,
    pub receiver_type: String,
}

/// Whether a call writes to storage: a write method on a storage accessor.
pub open spec fn is_storage_write(c: BodyCall) -> bool {
    is_one_of(c.method@, WRITE_METHODS@) && contains_any(c.receiver_type@, STORAGE_TYPE_FRAGMENTS@)
}

/// Whether any of the body's method calls writes to storage.
pub fn contains_storage_write(calls: &[BodyCall]) -> (res: bool)
    ensures
        res == exists|i: int| 0 <= i < calls@.len() && is_storage_write(#[trigger] calls@[i]),
{
    let mut i: usize = 0;
    while i < calls.len()
        invariant
            i <= calls@.len(),
            forall|j: int| 0 <= j < i ==> !is_storage_write(#[trigger] calls@[j]),
        decreases calls@.len() - i,
    {
        if str_in(calls[i].method.as_str(), WRITE_METHODS.as_slice()) && str_contains_any(
            calls[i].receiver_type.as_str(),
            STORAGE_TYPE_FRAGMENTS.as_slice(),
        ) {
            return true;
        }
        i = i + 1;
    }
    false
}

/// Whether a `for` loop is reported: it iterates over caller input and its
/// body writes to storage.
pub fn is_reported(src: &LoopSource, body_calls: &[BodyCall]) -> (res: bool)
    ensures
        res == (iterates_over_input_spec(*src) && exists|i: int| 0 <= i < body_calls@.len() && is_storage_write(#[trigger] body_calls@[i])),
{
    iterates_over_input(src) && contains_storage_write(body_calls)
}

/// Whether a type name names storage: it contains `Storage`, `Instance`,
/// `Persistent` or `Temporary`.
pub open spec fn names_storage(ty: Seq<char>) -> bool {
    has_infix(ty, "Storage"@) || has_infix(ty, "Instance"@) || has_infix(ty, "Persistent"@) || has_infix(
        ty,
        "Temporary"@,
    )
}

/// Whether a type name names a caller-sized collection: it contains `Vec`,
/// `Map`, `Array`, `Bytes` or `Set`.
pub open spec fn names_collection(ty: Seq<char>) -> bool {
    has_infix(ty, "Vec"@) || has_infix(ty, "Map"@) || has_infix(ty, "Array"@) || has_infix(ty, "Bytes"@)
        || has_infix(ty, "Set"@)
}

/// A body call writes storage exactly when it is `set`, `put` or
/// `make_persistent` on a receiver whose type names any storage tier
/// (`Storage`, `Instance`, `Persistent` or `Temporary`).
pub proof fn law_storage_writes(c: BodyCall)
    ensures
        is_storage_write(c) <==> ((c.method@ == "set"@ || c.method@ == "put"@ || c.method@ == "make_persistent"@)
            && names_storage(c.receiver_type@)),
{
    assert(WRITE_METHODS@[0]@ == "set"@);
    assert(WRITE_METHODS@[1]@ == "put"@);
    assert(WRITE_METHODS@[2]@ == "make_persistent"@);
    assert(STORAGE_TYPE_FRAGMENTS@[0]@ == "Storage"@);
    assert(STORAGE_TYPE_FRAGMENTS@[1]@ == "Instance"@);
    assert(STORAGE_TYPE_FRAGMENTS@[2]@ == "Persistent"@);
    assert(STORAGE_TYPE_FRAGMENTS@[3]@ == "Temporary"@);
    if is_one_of(c.method@, WRITE_METHODS@) {
        let i = choose|i: int| 0 <= i < WRITE_METHODS@.len() && WRITE_METHODS@[i]@ == c.method@;
        assert(0 <= i < 3);
    }
    if contains_any(c.receiver_type@, STORAGE_TYPE_FRAGMENTS@) {
        let i = choose|i: int| 0 <= i < STORAGE_TYPE_FRAGMENTS@.len() && has_infix(
            c.receiver_type@,
            STORAGE_TYPE_FRAGMENTS@[i]@,
        );
        assert(0 <= i < 4);
    }
}

/// A type is a caller-sized collection exactly when its name contains `Vec`,
/// `Map`, `Array`, `Bytes` or `Set`.
pub proof fn law_collections(ty: Seq<char>)
    ensures
        is_collection_name(ty) <==> names_collection(ty),
{
    assert(COLLECTION_FRAGMENTS@[0]@ == "Vec"@);
    assert(COLLECTION_FRAGMENTS@[1]@ == "Map"@);
    assert(COLLECTION_FRAGMENTS@[2]@ == "Array"@);
    assert(COLLECTION_FRAGMENTS@[3]@ == "Bytes"@);
    assert(COLLECTION_FRAGMENTS@[4]@ == "Set"@);
    if is_collection_name(ty) {
        let i = choose|i: int| 0 <= i < COLLECTION_FRAGMENTS@.len() && has_infix(ty, COLLECTION_FRAGMENTS@[i]@);
        assert(0 <= i < 5);
    }
}

/// Which loops iterate over caller input: `iter()` or `iter_combined()` on a
/// collection, a collection (or a borrow of one), or a call with an argument
/// that is a collection or a collection's `len()`; nothing else.
pub proof fn law_input_driven_loops(src: LoopSource)
    ensures
        iterates_over_input_spec(src) <==> match src {
            LoopSource::MethodCall { method, receiver_type } => (method@ == "iter"@ || method@ == "iter_combined"@)
                && names_collection(receiver_type@),
            LoopSource::PathOrBorrow { ty } => names_collection(ty@),
            LoopSource::Call { args } => exists|i: int|
                0 <= i < args@.len() && match #[trigger] args@[i] {
                    RangeBound::MethodCall { method, receiver_type } => method@ == "len"@ && names_collection(
                        receiver_type@,
                    ),
                    RangeBound::Expr { ty } => names_collection(ty@),
                },
            LoopSource::Other => false,
        },
{
    assert(ITERATING_METHODS@[0]@ == "iter"@);
    assert(ITERATING_METHODS@[1]@ == "iter_combined"@);
    match src {
        LoopSource::MethodCall { method, receiver_type } => {
            law_collections(receiver_type@);
            if is_one_of(method@, ITERATING_METHODS@) {
                let i = choose|i: int| 0 <= i < ITERATING_METHODS@.len() && ITERATING_METHODS@[i]@ == method@;
                assert(0 <= i < 2);
            }
        },
        LoopSource::PathOrBorrow { ty } => {
            law_collections(ty@);
        },
        LoopSource::Call { args } => {
            assert forall|i: int| 0 <= i < args@.len() implies bound_is_input_driven(#[trigger] args@[i]) == match args@[i] {
                RangeBound::MethodCall { method, receiver_type } => method@ == "len"@ && names_collection(
                    receiver_type@,
                ),
                RangeBound::Expr { ty } => names_collection(ty@),
            } by {
                match args@[i] {
                    RangeBound::MethodCall { method, receiver_type } => law_collections(receiver_type@),
                    RangeBound::Expr { ty } => law_collections(ty@),
                }
            }
        },
        LoopSource::Other => {},
    }
}

/// An input-driven loop whose body makes a storage write is reported, and a
/// loop whose body makes none is not: a `for x in input.iter()` whose body
/// calls `set` on a `Temporary` accessor is reported.
pub proof fn law_input_loops_with_writes_are_reported(src: LoopSource, body: Seq<BodyCall>, i: int)
    requires
        iterates_over_input_spec(src),
        0 <= i < body.len(),
        body[i].method@ == "set"@ || body[i].method@ == "put"@ || body[i].method@ == "make_persistent"@,
        names_storage(body[i].receiver_type@),
    ensures
        exists|j: int| 0 <= j < body.len() && is_storage_write(#[trigger] body[j]),
{
    law_storage_writes(body[i]);
}

} // verus!
