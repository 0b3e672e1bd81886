//! Storage tier cases: persistent data removed on every path, unbounded
//! collections in instance storage, contract and host calls in loops.

use vstd::prelude::*;

use crate::fixture_sdk::{Address, Bytes, Env, HostMap, Symbol, Vec};

verus! {

/// A persistent write removed right after: reported.
pub fn bad_set_then_remove(env: Env) {
    let key = 1i32;
    env.storage().persistent().set(&key, &42i32);
    env.storage().persistent().remove(&key);
}

/// A persistent write removed on both branches: reported.
pub fn bad_remove_on_all_branches(env: Env, c: bool) {
    let key = 1i32;
    env.storage().persistent().set(&key, &42i32);
    if c {
        env.storage().persistent().remove(&key);
    } else {
        env.storage().persistent().remove(&key);
    }
}

/// Removing another key: not reported.
pub fn good_remove_of_different_key(env: Env) {
    let key = 1i32;
    env.storage().persistent().set(&key, &42i32);
    env.storage().persistent().remove(&2i32);
}

/// Removing on one branch only: not reported.
pub fn good_remove_on_one_branch(env: Env, overwrite: bool) {
    let key = 1i32;
    env.storage().persistent().set(&key, &42i32);
    if overwrite {
        env.storage().persistent().remove(&key);
    }
}

/// An early return skips the read that follows: not reported.
pub fn good_early_return_skips_remove(env: Env, c: bool) {
    let key = 1i32;
    env.storage().persistent().set(&key, &42i32);
    if c {
        env.storage().persistent().remove(&key);
        return;
    }
    let _ = env.storage().persistent().get::<i32, i32>(&key);
}

/// The entry survives to the end of the function: not reported.
pub fn good_survives_to_exit(env: Env) -> (res: i32)
    ensures
        res == 0,
{
    let key = 1i32;
    env.storage().persistent().set(&key, &42i32);
    env.storage().persistent().get::<i32, i32>(&key).unwrap_or(0)
}

/// Removal behind a flag: not reported.
pub fn good_guard_flag(env: Env, cleanup: bool) {
    let key = 1i32;
    env.storage().persistent().set(&key, &42i32);
    if cleanup {
        env.storage().persistent().remove(&key);
    }
    let _ = env.storage().persistent().get::<i32, i32>(&key);
}

/// Removal inside a loop: not reported.
pub fn good_remove_inside_loop(env: Env, n: u32) {
    let key = 1i32;
    env.storage().persistent().set(&key, &42i32);
    for _i in 0..n {
        if env.storage().persistent().has(&key) {
            env.storage().persistent().remove(&key);
        }
    }
}

/// A host vector in instance storage: reported.
pub fn bad_vec_in_instance_storage(env: Env) {
    let _existing: Option<Vec<u32>> = env.storage().instance().get(&1u32);
    let items: Vec<u32> = Vec::new();
    env.storage().instance().set(&1u32, &items);
}

/// A host map in instance storage: reported.
pub fn bad_map_in_instance_storage(env: Env) {
    let _existing: Option<HostMap<u32, u32>> = env.storage().instance().get(&2u32);
    let entries: HostMap<u32, u32> = HostMap::new();
    env.storage().instance().set(&2u32, &entries);
}

/// Host bytes in instance storage: reported.
pub fn bad_bytes_in_instance_storage(env: Env) {
    let _existing: Option<Bytes> = env.storage().instance().get(&3u32);
    let blob: Bytes = Bytes::new();
    env.storage().instance().set(&3u32, &blob);
}

/// Configuration held in instance storage.
pub struct Config {
    pub max_supply: u32,
    pub admin_set: bool,
}

/// A scalar in instance storage: not reported.
pub fn good_scalar_in_instance_storage(env: Env) {
    let _existing: Option<u32> = env.storage().instance().get(&4u32);
    env.storage().instance().set(&4u32, &42u32);
}

/// A fixed-size array in instance storage: not reported.
pub fn good_fixed_array_in_instance_storage(env: Env) {
    let _existing: Option<[u8; 32]> = env.storage().instance().get(&5u32);
    let fixed: [u8; 32] = [0u8; 32];
    env.storage().instance().set(&5u32, &fixed);
}

/// A configuration struct in instance storage: not reported.
pub fn good_config_struct_in_instance_storage(env: Env) {
    let _existing: Option<Config> = env.storage().instance().get(&6u32);
    let cfg = Config { max_supply: 1_000_000, admin_set: true };
    env.storage().instance().set(&6u32, &cfg);
}

/// A host vector in persistent storage: not reported.
pub fn good_vec_in_persistent_storage(env: Env) {
    let _existing: Option<Vec<u32>> = env.storage().persistent().get(&7u32);
    let items: Vec<u32> = Vec::new();
    env.storage().persistent().set(&7u32, &items);
}

/// A contract call in a `for` loop: reported.
pub fn bad_contract_call_in_for_loop(env: Env) {
    let addr = Address;
    let sym = Symbol;
    for _i in 0..10u32 {
        let _r: () = env.invoke_contract(&addr, &sym, ());
    }
}

/// A contract call in a `while` loop: reported.
pub fn bad_contract_call_in_while_loop(env: Env) {
    let addr = Address;
    let sym = Symbol;
    let mut i: i32 = 0;
    while i < 10
        decreases 10 - i,
    {
        let _r: () = env.invoke_contract(&addr, &sym, ());
        i += 1;
    }
}

/// A contract call hoisted out of the loop: not reported.
pub fn near_miss_invariant_call_hoisted_out(env: Env) {
    let addr = Address;
    let sym = Symbol;
    let shared: () = env.invoke_contract(&addr, &sym, ());
    for _i in 0..10u32 {
        let _s = &shared;
    }
}

/// A contract call outside any loop: not reported.
pub fn good_contract_call_outside_loop(env: Env) {
    let addr = Address;
    let sym = Symbol;
    let _r: () = env.invoke_contract(&addr, &sym, ());
}

/// A contract call and a raw host call in one loop: both reported.
pub fn overlapping_host_and_contract_call(env: Env) {
    let addr = Address;
    let sym = Symbol;
    for _i in 0..10u32 {
        let _r: () = env.invoke_contract(&addr, &sym, ());
        env.host().invoke_contract();
    }
}

/// A raw host call in a `for` loop: reported.
pub fn bad_host_in_for_loop(env: Env) {
    for _i in 0..10u32 {
        env.host().invoke_contract();
    }
}

/// A raw host call in a `while` loop: reported.
pub fn bad_host_in_while_loop(env: Env) {
    let mut i: i32 = 0;
    while i < 10
        decreases 10 - i,
    {
        env.host().budget_cloned();
        i += 1;
    }
}

/// A raw host call in a `loop` left after one pass: reported.
pub fn bad_host_in_loop_loop(env: Env) {
    loop
        decreases 1int,
    {
        env.host().invoke_contract();
        break;
    }
}

/// A raw host call outside any loop: not reported.
pub fn good_host_outside_loop(env: Env) {
    env.host().invoke_contract();
}

} // verus!
