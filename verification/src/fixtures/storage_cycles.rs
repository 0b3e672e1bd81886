//! Read-modify-write cases, and writes with and without a preceding read.

use vstd::prelude::*;

use crate::fixture_sdk::Env;

verus! {

/// Two read-then-write cycles on one key: the second write is reported.
pub fn two_cycles_same_key(env: Env) {
    let val: Option<i32> = env.storage().instance().get(&1i32);
    let new_val = val.unwrap_or(0) + 1;
    env.storage().instance().set(&1i32, &new_val);
    let val2: Option<i32> = env.storage().instance().get(&1i32);
    let new_val2 = val2.unwrap_or(0) + 1;
    env.storage().instance().set(&1i32, &new_val2);
}

/// Three cycles on one key: the second and third writes are reported.
pub fn three_cycles_same_key(env: Env) {
    let val: Option<i32> = env.storage().instance().get(&1i32);
    env.storage().instance().set(&1i32, &(val.unwrap_or(0) + 1));
    let val2: Option<i32> = env.storage().instance().get(&1i32);
    env.storage().instance().set(&1i32, &(val2.unwrap_or(0) + 1));
    let val3: Option<i32> = env.storage().instance().get(&1i32);
    env.storage().instance().set(&1i32, &(val3.unwrap_or(0) + 1));
}

/// One cycle: not reported.
pub fn single_cycle(env: Env) {
    let val: Option<i32> = env.storage().instance().get(&1i32);
    let new_val = val.unwrap_or(0) + 1;
    env.storage().instance().set(&1i32, &new_val);
}

/// A helper that writes storage.
pub fn helper_may_touch_storage(env: &Env) {
    env.storage().instance().set(&42i32, &99i32);
}

/// Cycles separated by a call that may touch storage: not reported.
pub fn cycles_separated_by_call(env: Env) {
    let val: Option<i32> = env.storage().instance().get(&1i32);
    env.storage().instance().set(&1i32, &(val.unwrap_or(0) + 1));
    helper_may_touch_storage(&env);
    let val2: Option<i32> = env.storage().instance().get(&1i32);
    env.storage().instance().set(&1i32, &(val2.unwrap_or(0) + 1));
}

/// Cycles on two different keys: not reported.
pub fn different_keys(env: Env) {
    let val_a: Option<i32> = env.storage().instance().get(&1i32);
    env.storage().instance().set(&1i32, &(val_a.unwrap_or(0) + 1));
    let val_b: Option<i32> = env.storage().instance().get(&2i32);
    env.storage().instance().set(&2i32, &(val_b.unwrap_or(0) + 1));
}

/// Two cycles on one persistent key: the second write is reported.
pub fn persistent_two_cycles(env: Env) {
    let val: Option<i32> = env.storage().persistent().get(&1i32);
    env.storage().persistent().set(&1i32, &(val.unwrap_or(0) + 1));
    let val2: Option<i32> = env.storage().persistent().get(&1i32);
    env.storage().persistent().set(&1i32, &(val2.unwrap_or(0) + 1));
}

/// An instance write with no read: reported.
pub fn normal_function_with_write_without_read(env: Env) {
    env.storage().instance().set(&1i32, &2i32);
}

/// A persistent write with no read: reported.
pub fn persistent_write_without_read(env: Env) {
    env.storage().persistent().set(&1i32, &2i32);
}

/// A temporary write with no read: reported.
pub fn temporary_write_without_read(env: Env) {
    env.storage().temporary().set(&1i32, &2i32);
}

/// A read of another key does not excuse the write: reported.
pub fn read_different_key(env: Env) {
    let _v: Option<i32> = env.storage().instance().get(&1i32);
    env.storage().instance().set(&2i32, &3i32);
}

/// A read through another accessor is another receiver: reported.
pub fn read_on_other_accessor(env: Env) {
    let _v: Option<i32> = env.storage().instance().get(&1i32);
    env.storage().persistent().set(&1i32, &2i32);
}

/// An initialiser: exempt.
pub fn initialize(env: Env) {
    env.storage().instance().set(&1i32, &2i32);
}

/// An admin setter: exempt.
pub fn set_admin(env: Env) {
    env.storage().persistent().set(&1i32, &2i32);
}

/// `get` before `set`: not reported.
pub fn normal_function_with_read_and_write(env: Env) {
    let _v: Option<i32> = env.storage().instance().get(&1i32);
    env.storage().instance().set(&1i32, &2i32);
}

/// `has` before `set`: not reported.
pub fn has_before_set(env: Env) {
    let _v = env.storage().instance().has(&1i32);
    env.storage().instance().set(&1i32, &2i32);
}

/// `try_get` before `set`: not reported.
pub fn try_get_before_set(env: Env) {
    let _v: Option<i32> = env.storage().persistent().try_get(&1i32);
    env.storage().persistent().set(&1i32, &2i32);
}

/// `remove` before `set`: not reported.
pub fn remove_before_set(env: Env) {
    let _v = env.storage().temporary().remove(&1i32);
    env.storage().temporary().set(&1i32, &2i32);
}

/// `update` before `set`: not reported.
pub fn update_before_set(env: Env) {
    let _v = env.storage().instance().update(&1i32, 0);
    env.storage().instance().set(&1i32, &2i32);
}

} // verus!
