//! Storage keys built in several functions, byte slicing in loops, collection
//! lengths in loop conditions and discarded contract call results.

use vstd::prelude::*;

use crate::fixture_sdk::{Address, Bytes, Env, Symbol, Vec};

verus! {

/// Reads the balance under a key also built by `set_balance`: reported.
pub fn get_balance(env: &Env) -> (res: i128)
    ensures
        res == 0,
{
    let key = Symbol::new(env, "balance");
    let val: Option<i128> = env.storage().instance().get(&key);
    val.unwrap_or(0)
}

/// Writes the balance under a key also built by `get_balance`: reported.
pub fn set_balance(env: &Env, amount: i128) {
    let key = Symbol::new(env, "balance");
    env.storage().instance().set(&key, &amount);
}

/// Reads the configuration under a key built in three places: reported.
pub fn read_config(env: &Env) -> (res: i32)
    ensures
        res == 0,
{
    let key = Symbol::new(env, "config");
    let val: Option<i32> = env.storage().persistent().get(&key);
    val.unwrap_or(0)
}

/// Writes the configuration under a key built in three places: reported.
pub fn write_config(env: &Env, value: i32) {
    let key = Symbol::new(env, "config");
    env.storage().persistent().set(&key, &value);
}

/// Clears the configuration under a key built in three places: reported.
pub fn delete_config(env: &Env) {
    let key = Symbol::new(env, "config");
    env.storage().persistent().set(&key, &0i32);
}

/// A key no other function builds: not reported.
pub fn get_balance_v2(env: &Env) -> (res: i128)
    ensures
        res == 0,
{
    let key = Symbol::new(env, "balance_v2");
    let val: Option<i128> = env.storage().instance().get(&key);
    val.unwrap_or(0)
}

/// The balance key, named once.
pub const BALANCE_KEY: &'static str = "balance";

/// A key built from the shared constant: not reported.
pub fn get_balance_const(env: &Env) -> (res: i128)
    ensures
        res == 0,
{
    let key = Symbol::new(env, BALANCE_KEY);
    let val: Option<i128> = env.storage().instance().get(&key);
    val.unwrap_or(0)
}

/// A key built from the shared constant: not reported.
pub fn set_balance_const(env: &Env, amount: i128) {
    let key = Symbol::new(env, BALANCE_KEY);
    env.storage().instance().set(&key, &amount);
}

/// A key distinct from `get_item_b`'s: not reported.
pub fn get_item_a(env: &Env) -> (res: i32)
    ensures
        res == 0,
{
    let key = Symbol::new(env, "item_a");
    let val: Option<i32> = env.storage().instance().get(&key);
    val.unwrap_or(0)
}

/// A key distinct from `get_item_a`'s: not reported.
pub fn get_item_b(env: &Env) -> (res: i32)
    ensures
        res == 0,
{
    let key = Symbol::new(env, "item_b");
    let val: Option<i32> = env.storage().instance().get(&key);
    val.unwrap_or(0)
}

/// A key from a run-time name: not reported.
pub fn get_dynamic(env: &Env, name: &str) -> (res: i32)
    ensures
        res == 0,
{
    let key = Symbol::new(env, name);
    let val: Option<i32> = env.storage().instance().get(&key);
    val.unwrap_or(0)
}

/// A key from a run-time name: not reported.
pub fn set_dynamic(env: &Env, name: &str, value: i32) {
    let key = Symbol::new(env, name);
    env.storage().instance().set(&key, &value);
}

/// Slicing the payload on every iteration of a `while` loop: reported.
pub fn bad_slice_in_while_loop(payload: Bytes) {
    let mut i = 0u32;
    while i + 4 <= 64
        invariant
            i <= 64,
        decreases 64 - i,
    {
        let _chunk = payload.slice(i, i + 4);
        i += 4;
    }
}

/// Slicing the payload on every iteration of a `for` loop: reported.
pub fn bad_slice_in_for_loop(payload: Bytes, n: u32)
    requires
        n <= 1000,
{
    for i in 0..n
        invariant
            n <= 1000,
    {
        let _chunk = payload.slice(i, i + 4);
    }
}

/// Copying out of the payload on every iteration: reported.
pub fn bad_copy_to_slice_in_loop(payload: Bytes, n: u32) {
    for _i in 0..n {
        let mut buf = [0u8; 8];
        payload.copy_to_slice(&mut buf);
    }
}

/// Copying into a buffer on every iteration: reported.
pub fn bad_copy_from_slice_in_loop(n: u32) {
    let mut buf = Bytes(std::vec::Vec::new());
    for _i in 0..n {
        buf.copy_from_slice(&[0u8, 1, 2, 3]);
    }
}

/// One slice outside any loop: not reported.
pub fn good_single_slice_outside_loop(payload: Bytes) -> (res: Bytes)
    ensures
        res.0@.len() == 0,
{
    payload.slice(0, 4)
}

/// One whole-payload slice outside any loop: not reported.
pub fn good_slice_once_outside_loop(payload: Bytes) -> (res: Bytes)
    ensures
        res.0@.len() == 0,
{
    let whole = payload.slice(0, 64);
    whole
}

/// The length re-read in a `while` condition over an unchanged vector: reported.
pub fn firing_case(env: Env, vec: Vec<u32>) {
    let mut i: u32 = 0;
    while i < vec.len()
        decreases 0u32,
    {
        let _ = vec.get(i);
        i += 1;
    }
}

/// The vector grows inside the loop: not reported.
pub fn non_firing_case_mutated(env: Env, mut vec: Vec<u32>) {
    let mut i: u32 = 0;
    while i < vec.len()
        decreases 0u32,
    {
        vec.push_back(i);
        i += 1;
    }
}

/// A `for` range evaluates the length once: not reported.
pub fn non_firing_case_for_loop(env: Env, vec: Vec<u32>) {
    for _i in 0..vec.len() {
        let _ = vec.get(0);
    }
}

/// A standard vector: not reported.
pub fn non_firing_case_std_vec(env: Env, vec: std::vec::Vec<u32>)
    requires
        vec.len() <= u32::MAX,
{
    let mut i: u32 = 0;
    while (i as usize) < vec.len()
        invariant
            vec.len() <= u32::MAX,
        decreases vec.len() - i,
    {
        let _ = vec.len();
        i += 1;
    }
}

/// `let _ =` on a contract call's result: reported.
pub fn bad_let_underscore_discards(env: Env, addr: Address, func: Symbol) {
    let _ = env.invoke_contract::<i32>(&addr, &func, ());
}

/// A contract call's result dropped by `;`: reported.
pub fn bad_semi_statement_discards(env: Env, addr: Address, func: Symbol) {
    env.invoke_contract::<i32>(&addr, &func, ());
}

/// The result bound to a name: not reported.
pub fn good_result_bound_to_named(env: Env, addr: Address, func: Symbol) {
    let result = env.invoke_contract::<i32>(&addr, &func, ());
    let _ = result;
}

/// The result handed to a function: not reported.
pub fn good_result_used_as_arg(env: Env, addr: Address, func: Symbol) {
    let _ = takes(env.invoke_contract::<i32>(&addr, &func, ()));
}

/// A unit result dropped: not reported.
pub fn good_unit_result_wildcard(env: Env, addr: Address, func: Symbol) {
    let _ = env.invoke_contract::<()>(&addr, &func, ());
}

/// A unit result dropped by `;`: not reported.
pub fn good_unit_result_semi(env: Env, addr: Address, func: Symbol) {
    env.invoke_contract::<()>(&addr, &func, ());
}

/// The result bound to an underscore-prefixed name: not reported.
pub fn good_deliberate_silence_with_named(env: Env, addr: Address, func: Symbol) {
    let _result = env.invoke_contract::<i32>(&addr, &func, ());
}

/// Takes a contract call's result.
pub fn takes(_v: i32) {
}

} // verus!
