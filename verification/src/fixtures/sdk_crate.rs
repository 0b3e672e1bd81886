//! Cases written against the SDK crate's own surface: storage in loops,
//! clones, host calls and blind writes.

use vstd::prelude::*;

use crate::fixture_sdk::Env;

verus! {

/// A write in a `for` loop.
pub fn bad_storage_in_loop(env: Env) {
    for _i in 0..10u32 {
        env.storage().instance().set(&1u32, &1i32);
    }
}

/// A read in a `while` loop.
pub fn bad_storage_in_while_loop(env: Env) {
    let mut i: u32 = 0;
    while i < 10
        decreases 10 - i,
    {
        let _ = env.storage().persistent().get::<u32, i32>(&i);
        i += 1;
    }
}

/// A write outside any loop.
pub fn good_storage_outside_loop(env: Env) {
    env.storage().instance().set(&1u32, &1i32);
}

/// A redundant clone of `Env`.
pub fn bad_clone_env(env: Env) {
    let _cloned = env.clone();
}

/// A ledger read in a loop.
pub fn bad_host_call_in_loop(env: Env) {
    for _i in 0..10u32 {
        let _seq = env.ledger().sequence();
    }
}

/// A case whose body is disabled.
pub fn bad_host_in_loop(env: Env) {
}

/// A case whose body is disabled.
pub fn good_host_outside_loop(env: Env) {
}

/// An instance write with no read.
pub fn bad_blind_write_instance(env: Env) {
    env.storage().instance().set(&1u32, &1i32);
}

/// A persistent write with no read.
pub fn bad_blind_write_persistent(env: Env) {
    env.storage().persistent().set(&2u32, &2i32);
}

/// A temporary write with no read.
pub fn bad_blind_write_temporary(env: Env) {
    env.storage().temporary().set(&3u32, &3i32);
}

/// A write after a read.
pub fn good_write_after_get(env: Env) {
    let _ = env.storage().instance().get::<u32, i32>(&1u32);
    env.storage().instance().set(&1u32, &1i32);
}

/// A write guarded by a presence check.
pub fn good_write_after_has(env: Env) {
    if env.storage().persistent().has(&2u32) {
        env.storage().persistent().set(&2u32, &2i32);
    }
}

} // verus!
