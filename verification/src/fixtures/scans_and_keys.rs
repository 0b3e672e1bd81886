//! Linear scans in loops, storage keys built in loops, reads of keys never
//! written, signature checks in loops, repeated reads and blind overwrites.

use vstd::prelude::*;

use crate::fixture_sdk::{Env, Symbol, Vec};

verus! {

/// The same membership test on every iteration: reported.
pub fn bad_scan_in_for_loop() {
    let v: Vec<i32> = Vec::new();
    let target = 5i32;
    for _i in 0..10u32 {
        let _ = v.contains(&target);
    }
}

/// The same membership test in a `while` loop: reported.
pub fn bad_scan_in_while_loop() {
    let v: Vec<i32> = Vec::new();
    let target = 5i32;
    let mut i: i32 = 0;
    while i < 10
        decreases 10 - i,
    {
        let _ = v.contains(&target);
        i += 1;
    }
}

/// A membership test of the loop variable: not reported.
pub fn near_miss_scan_depends_on_loop_state() {
    let v: Vec<i32> = Vec::new();
    for x in 0..10i32 {
        let _ = v.contains(&x);
    }
}

/// A membership test outside any loop: not reported.
pub fn good_scan_outside_loop() {
    let v: Vec<i32> = Vec::new();
    let target = 5i32;
    let _ = v.contains(&target);
}

/// The same key symbol built on every iteration of a `for` loop: reported.
pub fn bad_invariant_key_in_for_loop(env: Env) {
    for i in 0..10i32 {
        let key = Symbol::new(&env, "my_key");
        env.storage().instance().set(&key, &i);
    }
}

/// The same key symbol built in a `while` loop: reported.
pub fn bad_invariant_key_in_while_loop(env: Env) {
    let mut i: i32 = 0;
    while i < 10
        decreases 10 - i,
    {
        let key = Symbol::new(&env, "counter");
        env.storage().instance().set(&key, &i);
        i += 1;
    }
}

/// The same key symbol built in a `loop`: reported.
pub fn bad_invariant_key_in_loop_loop(env: Env) {
    let mut count: i32 = 0;
    loop
        invariant_except_break
            0 <= count < 5,
        decreases 5 - count,
    {
        let key = Symbol::new(&env, "fixed_key");
        env.storage().instance().set(&key, &count);
        count += 1;
        if count >= 5 {
            break;
        }
    }
}

/// The key symbol built once before the loop: not reported.
pub fn good_key_construction_outside_loop(env: Env) {
    let key = Symbol::new(&env, "my_key");
    for i in 0..10i32 {
        env.storage().instance().set(&key, &i);
    }
}

/// Reads a key nothing writes.
pub fn reads_missing_key(env: Env) {
    let _v: Option<i32> = env.storage().persistent().get(&42i32);
}

/// Writes a key read elsewhere.
pub fn writes_elsewhere(env: Env) {
    env.storage().persistent().set(&7i32, &1i32);
}

/// Reads a key written elsewhere.
pub fn reads_written_elsewhere(env: Env) {
    let _v: Option<i32> = env.storage().persistent().get(&7i32);
}

/// Reads a key computed at run time.
pub fn reads_dynamic_key(env: Env, key: u32) {
    let _v: Option<i32> = env.storage().persistent().get(&key);
}

/// Reads a fixed key and a computed one.
pub fn reads_static_and_dynamic(env: Env, key: u32) {
    let _a: Option<i32> = env.storage().persistent().get(&99i32);
    let _b: Option<i32> = env.storage().persistent().get(&key);
}

/// Writes a persistent key and reads the instance key of the same name.
pub fn instance_read_with_persistent_write(env: Env) {
    env.storage().persistent().set(&5i32, &1i32);
    let _v: Option<i32> = env.storage().instance().get(&5i32);
}

/// An ed25519 check in a `for` loop: reported.
pub fn bad_ed25519_verify_in_for_loop(env: Env) {
    let key = [0u8; 32];
    let msg = [0u8; 32];
    let sig = [0u8; 64];
    for _i in 0..10u32 {
        env.crypto().ed25519_verify(&key, &msg, &sig);
    }
}

/// An ed25519 check in a `while` loop: reported.
pub fn bad_ed25519_verify_in_while_loop(env: Env) {
    let key = [0u8; 32];
    let msg = [0u8; 32];
    let sig = [0u8; 64];
    let mut i: i32 = 0;
    while i < 10
        decreases 10 - i,
    {
        env.crypto().ed25519_verify(&key, &msg, &sig);
        i += 1;
    }
}

/// An ed25519 check in a `loop`: reported.
pub fn bad_ed25519_verify_in_loop_loop(env: Env) {
    let key = [0u8; 32];
    let msg = [0u8; 32];
    let sig = [0u8; 64];
    let mut count: i32 = 0;
    loop
        invariant_except_break
            0 <= count < 5,
        decreases 5 - count,
    {
        env.crypto().ed25519_verify(&key, &msg, &sig);
        count += 1;
        if count >= 5 {
            break;
        }
    }
}

/// A secp256r1 check in a loop: reported.
pub fn bad_secp256r1_verify_in_loop(env: Env) {
    let key = [0u8; 32];
    let msg = [0u8; 32];
    let sig = [0u8; 64];
    for _i in 0..10u32 {
        env.crypto().secp256r1_verify(&key, &msg, &sig);
    }
}

/// Two reads of one key: the second is reported.
pub fn redundant_read(env: Env) {
    let _a: Option<i32> = env.storage().instance().get(&1i32);
    let _b: Option<i32> = env.storage().instance().get(&1i32);
}

/// A presence check then a read of the key: the read is reported.
pub fn redundant_read_after_has(env: Env) {
    let _ = env.storage().instance().has(&1i32);
    let _v: Option<i32> = env.storage().instance().get(&1i32);
}

/// Two persistent reads of one key: the second is reported.
pub fn redundant_read_persistent(env: Env) {
    let _a: Option<i32> = env.storage().persistent().get(&1i32);
    let _b: Option<i32> = env.storage().persistent().get(&1i32);
}

/// A write between two reads: not reported.
pub fn read_write_read(env: Env) {
    let _a: Option<i32> = env.storage().instance().get(&1i32);
    env.storage().instance().set(&1i32, &2i32);
    let _b: Option<i32> = env.storage().instance().get(&1i32);
}

/// One key through two accessors: not reported.
pub fn different_accessor_same_key(env: Env) {
    let _a: Option<i32> = env.storage().instance().get(&1i32);
    let _b: Option<i32> = env.storage().persistent().get(&1i32);
}

/// A second write without reading in between: a blind overwrite.
pub fn blind_overwrite_after_read(env: Env) {
    let _ = env.storage().instance().get::<i32, i32>(&1i32);
    env.storage().instance().set(&1i32, &2i32);
    env.storage().instance().set(&1i32, &3i32);
}

/// Two writes with no read at all.
pub fn blind_not_fired_when_no_read(env: Env) {
    env.storage().instance().set(&1i32, &2i32);
    env.storage().instance().set(&1i32, &3i32);
}

/// A read before each write: not reported.
pub fn informed_overwrite(env: Env) {
    let _ = env.storage().instance().get::<i32, i32>(&1i32);
    env.storage().instance().set(&1i32, &2i32);
    let _ = env.storage().instance().get::<i32, i32>(&1i32);
    env.storage().instance().set(&1i32, &3i32);
}

/// Writes a new key.
pub fn init_new_key(env: Env) {
    env.storage().instance().set(&1i32, &2i32);
}

} // verus!
