//! Loop cases: loop-invariant storage access and ledger context reads.

use vstd::prelude::*;

use crate::fixture_sdk::{Env, Instance};

verus! {

/// The same key read on every iteration: reported.
pub fn invariant_get(env: Env) {
    for _i in 0..10u32 {
        let _v: Option<i32> = env.storage().instance().get(&1i32);
    }
}

/// A different accessor on every iteration: not reported.
pub fn varying_receiver(env: Env, stores: std::vec::Vec<Instance>) {
    for i in 0..stores.len() {
        let _v: Option<i32> = stores[i].get(&1i32);
    }
}

/// The key comes from a binding the loop mutates: the read is not reported.
pub fn varying_key_from_mutated_binding(env: Env, keys: std::vec::Vec<u32>) {
    let mut key = 0u32;
    for i in 0..keys.len() {
        key = keys[i];
        let _v: Option<i32> = env.storage().instance().get(&key);
    }
}

/// The key is local to each iteration: the read is not reported.
pub fn varying_key_from_iteration_local(env: Env, keys: std::vec::Vec<u32>) {
    for i in 0..keys.len() {
        let key = keys[i];
        let _v: Option<i32> = env.storage().instance().get(&key);
    }
}

/// The key is bound outside the loop: reported.
pub fn invariant_key_from_outer_binding(env: Env) {
    let key = 7u32;
    for _i in 0..10u32 {
        let _v: Option<i32> = env.storage().instance().get(&key);
    }
}

/// An invariant read in a `while` loop: reported.
pub fn invariant_in_while_loop(env: Env) {
    let mut n: i32 = 0;
    while n < 10
        decreases 10 - n,
    {
        n += 1;
        let _v: Option<i32> = env.storage().instance().get(&1i32);
    }
}

/// An invariant TTL extension: reported.
pub fn invariant_non_terminal_method(env: Env) {
    for _i in 0..10u32 {
        env.storage().persistent().extend_ttl(&1i32, 100, 100);
    }
}

/// An invariant read in the outer loop, a varying one in the inner loop.
pub fn invariant_in_nested_loop(env: Env) {
    for _i in 0..10u32 {
        let _v: Option<i32> = env.storage().instance().get(&1i32);
        for i in 0..3i32 {
            let _w: Option<i32> = env.storage().instance().get(&i);
        }
    }
}

/// The ledger sequence in a `for` loop: reported.
pub fn bad_sequence_in_for_loop(env: Env) {
    for _i in 0..10u32 {
        let _seq = env.ledger().sequence();
    }
}

/// The ledger time in a `while` loop: reported.
pub fn bad_timestamp_in_while_loop(env: Env) {
    let mut i: i32 = 0;
    while i < 10
        decreases 10 - i,
    {
        let _ts = env.ledger().timestamp();
        i += 1;
    }
}

/// Every ledger accessor in a loop: all reported.
pub fn bad_all_accessors_in_loop(env: Env) {
    for _i in 0..3u32 {
        let _seq = env.ledger().sequence();
        let _ts = env.ledger().timestamp();
        let _nid = env.ledger().network_id();
    }
}

/// The ledger sequence outside any loop: not reported.
pub fn good_sequence_outside_loop(env: Env) {
    let _seq = env.ledger().sequence();
}

/// The ledger time outside any loop: not reported.
pub fn good_timestamp_outside_loop(env: Env) {
    let _ts = env.ledger().timestamp();
}

/// The network id outside any loop: not reported.
pub fn good_network_id_outside_loop(env: Env) {
    let _nid = env.ledger().network_id();
}

/// The ledger sequence read once before the loop: not reported.
pub fn good_sequence_hoisted(env: Env) {
    let seq = env.ledger().sequence();
    for _i in 0..10u32 {
        let _s = seq;
    }
}

/// `let _ =` on a read: reported as discarded.
pub fn bad_let_underscore(env: Env) {
    let _ = env.storage().instance().get::<u32, i32>(&1u32);
}

/// A read as a statement: reported as discarded.
pub fn bad_statement(env: Env) {
    env.storage().persistent().get::<u32, i32>(&1u32);
}

/// A read whose value is used: not reported.
pub fn good_used(env: Env) {
    let val: Option<i32> = env.storage().instance().get(&1u32);
    let _ = val;
}

/// A presence check used as a condition: not reported.
pub fn good_has_branch(env: Env) {
    if env.storage().persistent().has(&1u32) {
        let _ = env.storage().persistent().get::<u32, i32>(&1u32);
    }
}

/// An `Option<u32>` written to storage: reported.
pub fn bad_option_u32(env: Env) {
    let val: Option<u32> = Some(42);
    env.storage().instance().set(&"key", &val);
}

/// A `None` written to storage: reported.
pub fn bad_option_none(env: Env) {
    let val: Option<i64> = None;
    env.storage().persistent().set(&1i32, &val);
}

/// An `Option` read back and written again: reported.
pub fn bad_option_from_get(env: Env) {
    let val: Option<u32> = env.storage().instance().get(&"other");
    env.storage().persistent().set(&1i32, &val);
}

/// An `Option<String>` written to temporary storage: reported.
pub fn bad_option_temporary(env: Env) {
    let val: Option<String> = Some(String::new());
    env.storage().temporary().set(&"key", &val);
}

/// A plain `u32`: not reported.
pub fn good_plain_u32(env: Env) {
    env.storage().instance().set(&"key", &42u32);
}

/// A plain `String`: not reported.
pub fn good_plain_string(env: Env) {
    let val = String::new();
    env.storage().persistent().set(&1i32, &val);
}

/// A plain `bool`: not reported.
pub fn good_plain_bool(env: Env) {
    env.storage().instance().set(&"flag", &true);
}

} // verus!
