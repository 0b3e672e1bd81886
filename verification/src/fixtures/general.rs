//! Contract code the lints are exercised on: storage in loops, host calls,
//! clones of `Env`, symbols, blind writes, map inserts, contract calls,
//! signature checks and TTL handling. Each function is a case that a lint
//! should or should not report.

use vstd::prelude::*;

use crate::fixture_sdk::{Address, Bytes, Env, HostMap, Symbol, Vec};

verus! {

/// Batch-writes a different key on every iteration (allowed).
pub fn batch_write_different_keys(env: Env, pairs: &[(u32, u32)]) {
    for i in 0..pairs.len() {
        env.storage().instance().set(&pairs[i].0, &pairs[i].1);
    }
}

/// Writes one instance key.
pub fn persist(env: &Env) {
    env.storage().instance().set(&"key", &42i32);
}

/// Does nothing.
pub fn noop(_env: &Env) {
}

/// Storage reached through a callee inside a loop: reported.
pub fn bad_storage_through_call_in_loop(env: Env) {
    for _i in 0..10u32 {
        persist(&env);
    }
}

/// A callee that does nothing, inside a loop: not reported.
pub fn good_noop_call_in_loop(env: Env) {
    for _i in 0..10u32 {
        noop(&env);
    }
}

/// Storage through a callee outside any loop: not reported.
pub fn good_storage_through_call_outside_loop(env: Env) {
    persist(&env);
}

/// Storage through a callee in a loop, with the lint allowed.
pub fn allowed_storage_through_call_in_loop(env: Env) {
    for _i in 0..10u32 {
        persist(&env);
    }
}

/// A write in a `for` loop: reported.
pub fn bad_storage_in_for_loop(env: Env) {
    for i in 0..10i32 {
        env.storage().instance().set(&i, &1i32);
    }
}

/// A read in a `while` loop: reported.
pub fn bad_storage_in_while_loop(env: Env) {
    let mut i: i32 = 0;
    while i < 10
        decreases 10 - i,
    {
        let _v: Option<i32> = env.storage().persistent().get(&i);
        i += 1;
    }
}

/// A write outside any loop: not reported.
pub fn good_storage_outside_loop(env: Env) {
    env.storage().instance().set(&1i32, &1i32);
}

/// A write in a loop, with the lint allowed.
pub fn allowed_storage_in_loop(env: Env) {
    for i in 0..10i32 {
        env.storage().instance().set(&i, &1i32);
    }
}

/// Clones an owned `Env` that is never used again: reported.
pub fn bad_clone_env(env: Env) {
    let _cloned = env.clone();
}

/// Takes a reference instead of cloning: not reported.
pub fn good_no_clone_needed(env: Env) {
    let _r = &env;
}

/// Clones through `Env::clone`: reported.
pub fn bad_clone_env_ufcs_env(env: Env) {
    let _cloned = Env::clone(&env);
}

/// Clones through `Clone::clone`: reported.
pub fn bad_clone_env_ufcs_clone(env: Env) {
    let _cloned = Clone::clone(&env);
}

/// Clones a borrowed `Env`, which yields the owned handle: not reported.
pub fn good_env_ref_clone(env: &Env) {
    let _cloned = env.clone();
}

/// Clones an `Env` that is used afterwards: not reported.
pub fn good_env_used_after_clone(env: Env) {
    let _cloned = env.clone();
    let _also_env = env;
}

/// Hands the clone on and keeps the original: not reported.
pub fn good_fn_takes_env_by_value(env: Env) {
    let cloned = env.clone();
    takes_env(cloned);
    let _still_here = env;
}

/// Consumes an `Env`.
pub fn takes_env(_e: Env) {
}

/// A redundant clone, with the lint allowed.
pub fn allowed_clone_env(env: Env) {
    let _cloned = env.clone();
}

/// Reads the ledger sequence on every iteration: reported.
pub fn bad_host_call_in_loop(env: Env) {
    for _i in 0..10u32 {
        let _seq = env.ledger().sequence();
    }
}

/// Reads the ledger sequence once before the loop: not reported.
pub fn good_host_call_outside_loop(env: Env) {
    let seq = env.ledger().sequence();
    for _i in 0..10u32 {
        let _seq = seq;
    }
}

/// A host call in a loop, with the lint allowed.
pub fn allowed_host_call_in_loop(env: Env) {
    for _i in 0..10u32 {
        let _seq = env.ledger().sequence();
    }
}

/// Hashes the same input on every iteration: reported.
pub fn bad_crypto_call_in_loop(env: Env) {
    let data = [1u8, 2, 3];
    for _i in 0..10u32 {
        let _hash = env.crypto().sha256(&data);
    }
}

/// Hashes a different input on every iteration: not reported.
pub fn good_crypto_call_on_loop_variable(env: Env) {
    let data = [[1u8; 4], [2u8; 4], [3u8; 4]];
    for i in 0..3usize {
        let _hash = env.crypto().sha256(&data[i]);
    }
}

/// Draws a random number on every iteration: reported.
pub fn bad_prng_call_in_loop(env: Env) {
    for _i in 0..10u32 {
        let _n = env.prng().u64_in_range(0, 100);
    }
}

/// Asks for the contract's own address on every iteration: reported.
pub fn bad_current_contract_address_in_loop(env: Env) {
    for _i in 0..10u32 {
        let _addr = env.current_contract_address();
    }
}

/// Publishes the value of each iteration: not reported.
pub fn good_events_publish_of_loop_value(env: Env) {
    for i in 0..10u32 {
        env.events().publish((i,), i);
    }
}

/// Reads the Wasm hash once before the loop: not reported.
pub fn good_deployer_call_outside_loop(env: Env) {
    let hash = env.deployer().uploaded_wasm_hash();
    for _i in 0..10u32 {
        let _hash = hash;
    }
}

/// `Symbol::new` for a short literal: reported.
pub fn bad_symbol_new_short_literal(env: Env) {
    let _sym = Symbol::new(&env, "hello");
}

/// `Symbol::new` for a literal of exactly nine characters: reported.
pub fn bad_symbol_new_9_chars(env: Env) {
    let _sym = Symbol::new(&env, "abcdefghi");
}

/// `Symbol::new` for nine characters with an underscore: reported.
pub fn bad_symbol_new_short_with_underscore(env: Env) {
    let _sym = Symbol::new(&env, "hello_wor");
}

/// `Symbol::new` for a literal longer than nine characters: not reported.
pub fn good_symbol_new_too_long(env: Env) {
    let _sym = Symbol::new(&env, "hello_world");
}

/// `Symbol::new` for a literal with a character symbols cannot hold: not reported.
pub fn good_symbol_new_invalid_chars(env: Env) {
    let _sym = Symbol::new(&env, "hello-world");
}

/// `Symbol::new` for a non-literal: not reported.
pub fn good_symbol_new_non_literal(env: Env) {
    let s = "hello";
    let _sym = Symbol::new(&env, s);
}

/// `Symbol::new` for the empty string: not reported.
pub fn good_symbol_new_empty(env: Env) {
    let _sym = Symbol::new(&env, "");
}

/// A write with no prior read: reported.
pub fn bad_storage_write_without_read(env: Env) {
    env.storage().instance().set(&"key1", &1i32);
}

/// A read before the write: not reported.
pub fn good_storage_write_with_read(env: Env) {
    let _v: Option<i32> = env.storage().instance().get(&"key1");
    env.storage().instance().set(&"key1", &1i32);
}

/// A presence check before the write: not reported.
pub fn good_storage_write_with_has(env: Env) {
    let _exists = env.storage().instance().has(&"key1");
    env.storage().instance().set(&"key1", &1i32);
}

/// Gathers bytes in a native buffer and builds `Bytes` once: not reported.
pub fn good_efficient_bytes_concat(env: Env) {
    let mut buf: std::vec::Vec<u8> = std::vec::Vec::new();
    for _i in 0..10u32 {
        buf.push(120u8);
    }
    let _result = Bytes(buf);
}

/// Inserts into a map on every iteration: reported.
pub fn bad_map_insert_in_loop(env: Env) {
    let mut map: HostMap<i32, i32> = HostMap::new();
    for i in 0..10i32 {
        map.insert(i, 1);
    }
}

/// Inserts once, reads in the loop: not reported.
pub fn good_map_insert_outside_loop(env: Env) {
    let mut map: HostMap<i32, i32> = HostMap::new();
    map.insert(1, 1);
    for i in 0..10i32 {
        let _v: Option<i32> = map.get(&i);
    }
}

/// A contract call in a `for` loop: reported.
pub fn bad_invoke_contract_in_for_loop(env: Env, addr: Address, func: Symbol) {
    for _i in 0..10u32 {
        let _r: i32 = env.invoke_contract(&addr, &func, ());
    }
}

/// A contract call in a `while` loop: reported.
pub fn bad_invoke_contract_in_while_loop(env: Env, addr: Address, func: Symbol) {
    let mut i: i32 = 0;
    while i < 10
        decreases 10 - i,
    {
        let _r: i32 = env.invoke_contract(&addr, &func, ());
        i += 1;
    }
}

/// One append outside any loop: not reported.
pub fn good_single_append_outside_loop() {
    let mut bytes = Bytes(std::vec::Vec::new());
    bytes.append(&Bytes(std::vec::Vec::new()));
}

/// A signature check on every iteration: reported.
pub fn bad_signature_verification_in_for_loop(env: Env) {
    let key = [0u8; 32];
    let msg = [0u8; 32];
    let sig = [0u8; 64];
    for _i in 0..10u32 {
        env.crypto().ed25519_verify(&key, &msg, &sig);
    }
}

/// One signature check: not reported.
pub fn good_signature_verification_outside_loop(env: Env) {
    let key = [0u8; 32];
    let msg = [0u8; 32];
    let sig = [0u8; 64];
    env.crypto().ed25519_verify(&key, &msg, &sig);
}

/// A vector with a wildly excessive capacity.
pub fn bad_excessive_vec_capacity() {
    let _v: Vec<i32> = Vec::with_capacity(1_000_000);
}

/// One contract call outside any loop: not reported.
pub fn good_invoke_contract_outside_loop(env: Env, addr: Address, func: Symbol) {
    let _r: i32 = env.invoke_contract(&addr, &func, ());
}

/// A persistent read without extending its TTL: reported.
pub fn bad_persistent_read_no_ttl_extension(env: Env) {
    let _val: Option<i32> = env.storage().persistent().get(&1i32);
}

/// A persistent presence check without extending its TTL: reported.
pub fn bad_persistent_has_no_ttl_extension(env: Env) {
    if env.storage().persistent().has(&1i32) {
    }
}

/// A persistent read after extending its TTL: not reported.
pub fn good_persistent_read_with_ttl_extension(env: Env) {
    env.storage().persistent().extend_ttl(&1i32, 100, 100);
    let _val: Option<i32> = env.storage().persistent().get(&1i32);
}

/// An instance read: not reported.
pub fn good_instance_read(env: Env) {
    let _val: Option<i32> = env.storage().instance().get(&1i32);
}

/// A temporary read: not reported.
pub fn good_temporary_read(env: Env) {
    let _val: Option<i32> = env.storage().temporary().get(&1i32);
}

/// Two reads of one key in a row: the second is reported.
pub fn bad_sequential_get_same_key(env: Env, key: i32) {
    let _a: Option<i32> = env.storage().instance().get(&key);
    let _b: Option<i32> = env.storage().instance().get(&key);
}

/// A presence check then a read of the same key: the read is reported.
pub fn bad_sequential_has_then_get(env: Env, key: i32) {
    let _exists = env.storage().instance().has(&key);
    let _val: Option<i32> = env.storage().instance().get(&key);
}

/// Two presence checks of one key: the second is reported.
pub fn bad_sequential_has_then_has(env: Env, key: i32) {
    let _a = env.storage().instance().has(&key);
    let _b = env.storage().instance().has(&key);
}

/// Two persistent reads of one key: the second is reported.
pub fn bad_sequential_persistent_get(env: Env, key: i32) {
    let _a: Option<i32> = env.storage().persistent().get(&key);
    let _b: Option<i32> = env.storage().persistent().get(&key);
}

/// Two temporary reads of one key: the second is reported.
pub fn bad_sequential_temporary_get(env: Env, key: i32) {
    let _a: Option<i32> = env.storage().temporary().get(&key);
    let _b: Option<i32> = env.storage().temporary().get(&key);
}

/// A write between the reads resets the tracker: not reported.
pub fn good_set_resets_tracking(env: Env, key: i32) {
    let _a: Option<i32> = env.storage().instance().get(&key);
    env.storage().instance().set(&key, &1i32);
    let _b: Option<i32> = env.storage().instance().get(&key);
}

/// Reads of two different keys: not reported.
pub fn good_different_keys(env: Env, key1: i32, key2: i32) {
    let _a: Option<i32> = env.storage().instance().get(&key1);
    let _b: Option<i32> = env.storage().instance().get(&key2);
}

/// A single read: not reported.
pub fn good_single_read(env: Env, key: i32) {
    let _a: Option<i32> = env.storage().instance().get(&key);
}

} // verus!
