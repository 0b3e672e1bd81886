//! Cases each lint would report, with that lint allowed: none is reported.

use vstd::prelude::*;

use crate::fixture_sdk::{Address, Bytes, Env, HostMap, Symbol, Vec};
use crate::fixtures::general::persist;

verus! {

/// Storage through a callee in a loop.
#[allow(unknown_lints, soroban_storage_in_loop)]
pub fn allowed_storage_through_call_in_loop(env: Env) {
    for _i in 0..10u32 {
        persist(&env);
    }
}

/// A write in a loop.
#[allow(unknown_lints, soroban_storage_in_loop)]
pub fn allowed_storage_in_loop(env: Env) {
    for i in 0..10i32 {
        env.storage().instance().set(&i, &1i32);
    }
}

/// A redundant clone of `Env`.
#[allow(unknown_lints, redundant_env_clone)]
pub fn allowed_clone_env(env: Env) {
    let _cloned = env.clone();
}

/// A host call in a loop.
#[allow(unknown_lints, unnecessary_host_function_call)]
pub fn allowed_host_call_in_loop(env: Env) {
    for _i in 0..10u32 {
        let _seq = env.ledger().sequence();
    }
}

/// `Symbol::new` for a short literal.
#[allow(unknown_lints, symbol_new_for_short_literal)]
pub fn allowed_symbol_new_short_literal(env: Env) {
    let _sym = Symbol::new(&env, "hello");
}

/// A write with no prior read.
#[allow(unknown_lints, storage_write_without_read)]
pub fn allowed_storage_write_without_read(env: Env) {
    env.storage().instance().set(&"key1", &1i32);
}

/// Map inserts in a loop.
#[allow(unknown_lints, map_insert_in_loop)]
pub fn allowed_map_insert_in_loop(env: Env) {
    let mut map: HostMap<i32, i32> = HostMap::new();
    for i in 0..10i32 {
        map.insert(i, 1);
    }
}

/// Contract calls in a loop.
#[allow(unknown_lints, contract_call_in_loop)]
pub fn allowed_invoke_contract_in_loop(env: Env, addr: Address, func: Symbol) {
    for _i in 0..10u32 {
        let _r: i32 = env.invoke_contract(&addr, &func, ());
    }
}

/// Signature checks in a loop.
#[allow(unknown_lints, signature_verification_in_loop)]
pub fn allowed_signature_verification_in_loop(env: Env) {
    let key = [0u8; 32];
    let msg = [0u8; 32];
    let sig = [0u8; 64];
    for _i in 0..10u32 {
        env.crypto().ed25519_verify(&key, &msg, &sig);
    }
}

/// A persistent read without TTL extension.
#[allow(unknown_lints, persistent_read_without_ttl_extension)]
pub fn allowed_persistent_read(env: Env) {
    let _val: Option<i32> = env.storage().persistent().get(&1i32);
}

/// Two reads of one key.
#[allow(unknown_lints, soroban_redundant_storage_read)]
pub fn allowed_sequential_read(env: Env, key: i32) {
    let _a: Option<i32> = env.storage().instance().get(&key);
    let _b: Option<i32> = env.storage().instance().get(&key);
}

/// A blind overwrite.
#[allow(unknown_lints, blind_storage_write)]
pub fn allowed_blind_overwrite(env: Env) {
    let _ = env.storage().instance().get::<i32, i32>(&1i32);
    env.storage().instance().set(&1i32, &2i32);
    env.storage().instance().set(&1i32, &3i32);
}

/// Appends in a short loop.
#[allow(unknown_lints, bytes_append_in_loop)]
pub fn good_small_append(mut b: Bytes, other: &Bytes) {
    for _i in 0..2u32 {
        b.append(other);
    }
}

/// Slices in a loop.
#[allow(unknown_lints, bytes_slice_copy_in_loop)]
pub fn allowed_slice_in_loop(payload: Bytes) {
    for i in 0..10u32 {
        let _s = payload.slice(i, i + 1);
    }
}

/// A contract call's result discarded.
#[allow(unknown_lints, cross_contract_result_discarded)]
pub fn allowed_discard(env: Env, addr: Address, func: Symbol) {
    let _ = env.invoke_contract::<i32>(&addr, &func, ());
}

/// A key built in two functions (first of two).
#[allow(unknown_lints, duplicate_storage_key_construction)]
pub fn allowed_dup_key_1(env: &Env) {
    let key = Symbol::new(env, "suppressed");
    env.storage().instance().set(&key, &1i32);
}

/// A key built in two functions (second of two).
#[allow(unknown_lints, duplicate_storage_key_construction)]
pub fn allowed_dup_key_2(env: &Env) {
    let key = Symbol::new(env, "suppressed");
    let _val: Option<i32> = env.storage().instance().get(&key);
}

/// A raw host call in a loop.
#[allow(unknown_lints, host_in_loop)]
pub fn allowed_host_in_loop(env: Env) {
    for _i in 0..10u32 {
        env.host().invoke_contract();
    }
}

/// A host vector in instance storage.
#[allow(unknown_lints, instance_storage_for_unbounded_data)]
pub fn allowed_vec_in_instance_storage(env: Env) {
    let _existing: Option<Vec<u32>> = env.storage().instance().get(&8u32);
    let items: Vec<u32> = Vec::new();
    env.storage().instance().set(&8u32, &items);
}

/// Instance writes in a loop.
#[allow(unknown_lints, instance_storage_write_in_loop)]
pub fn allowed_instance_write_in_loop(env: Env) {
    for i in 0..10i32 {
        let _existing: Option<i32> = env.storage().instance().get(&i);
        env.storage().instance().set(&i, &1i32);
    }
}

/// A ledger read in a loop.
#[allow(unknown_lints, ledger_context_read_in_loop)]
pub fn allowed_sequence_in_loop(env: Env) {
    for _i in 0..10u32 {
        let _seq = env.ledger().sequence();
    }
}

/// A linear scan in a loop.
#[allow(unknown_lints, linear_scan_in_loop)]
pub fn allowed_scan_in_loop() {
    let v: Vec<i32> = Vec::new();
    let target = 5i32;
    for _i in 0..10u32 {
        let _ = v.contains(&target);
    }
}

/// An invariant storage read in a loop.
#[allow(unknown_lints, loop_invariant_storage_access)]
pub fn allowed_invariant_access(env: Env) {
    for _i in 0..10u32 {
        let _v: Option<i32> = env.storage().instance().get(&1i32);
    }
}

/// Storage two loops deep.
#[allow(unknown_lints, nested_loop_storage_access)]
pub fn allowed_nested(env: Env) {
    for i in 0..5i32 {
        for j in 0..5i32
            invariant
                0 <= i < 5,
        {
            env.storage().instance().set(&(i + j), &1i32);
        }
    }
}

/// An `Option` written to storage.
#[allow(unknown_lints, option_wrapping_in_storage)]
pub fn allowed_option_in_storage(env: Env) {
    let val: Option<u32> = Some(42);
    env.storage().instance().set(&"key", &val);
}

/// A redundant address clone.
#[allow(unknown_lints, redundant_address_clone)]
pub fn allowed_clone_addr(addr: Address) {
    let _cloned = addr.clone();
}

/// Authorization in a loop.
#[allow(unknown_lints, require_auth_in_loop)]
pub fn allowed_auth_in_loop(env: Env) {
    let addr = Address;
    for _i in 0..10u32 {
        addr.require_auth();
    }
}

/// A key symbol built in a loop.
#[allow(unknown_lints, storage_key_construction_in_loop)]
pub fn allowed_key_construction_in_loop(env: Env) {
    for i in 0..10i32 {
        let key = Symbol::new(&env, "my_key");
        env.storage().instance().set(&key, &i);
    }
}

/// A hash of a constant.
#[allow(unknown_lints, crypto_hash_of_constant)]
pub fn allowed_const_hash(env: Env) {
    let _h = env.crypto().sha256(&[1u8, 2, 3, 4]);
}

/// Byte pushes in a short loop.
#[allow(unknown_lints, soroban_inefficient_bytes_concat)]
pub fn good_small_push_back(mut b: Bytes) {
    for _i in 0..2u32 {
        b.push_back(1);
    }
}

/// Concatenation with `+` in a loop.
#[allow(unknown_lints, inefficient_bytes_concat)]
pub fn allowed_inefficient_bytes_concat(env: Env) {
    let mut result = Bytes::from("");
    for _i in 0..10u32 {
        result = result + Bytes::from("x");
    }
}

} // verus!
