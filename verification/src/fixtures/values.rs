//! Hashes of constants, excessive capacities, map inserts in loops, reads
//! without TTL extension, address clones, byte appends in loops and std
//! collections in contract code.

use vstd::prelude::*;

use crate::fixture_sdk::{Address, Bytes, Env, HostMap, MyStruct, Vec};

verus! {

/// A hash of a constant array: reported.
pub fn bad_array_literal(env: Env) {
    let _h = env.crypto().sha256(&[1u8, 2, 3, 4]);
}

/// A hash of a run-time argument: not reported.
pub fn good_runtime_arg(env: Env, data: &[u8]) {
    let _h = env.crypto().sha256(data);
}

/// A hash of an array with a run-time element: not reported.
pub fn good_runtime_array(env: Env, salt: u8) {
    let data = [1u8, 2, salt];
    let _h = env.crypto().sha256(&data);
}

/// A wildly excessive capacity: reported.
pub fn bad_with_capacity() {
    let _v: Vec<u32> = Vec::with_capacity(1_000_000);
}

/// A wildly excessive reservation: reported.
pub fn bad_reserve() {
    let mut v: Vec<u32> = Vec::new();
    v.reserve(500_000);
}

/// A small capacity: not reported.
pub fn good_small_capacity() {
    let _v: Vec<u32> = Vec::with_capacity(100);
}

/// A run-time capacity: not reported.
pub fn good_runtime_capacity(n: u32) {
    let _v: Vec<u32> = Vec::with_capacity(n);
}

/// A capacity at the threshold: not reported.
pub fn good_exact_threshold() {
    let _v: Vec<u32> = Vec::with_capacity(4096);
}

/// A run-time reservation: not reported.
pub fn good_runtime_reserve(n: u32) {
    let mut v: Vec<u32> = Vec::new();
    v.reserve(n);
}

/// Inserting in a `for` loop: reported.
pub fn bad_map_insert_in_for_loop(env: Env) {
    let mut map: HostMap<i32, i32> = HostMap::new();
    for i in 0..10i32 {
        map.insert(i, i * 2);
    }
    let _ = env;
}

/// Inserting in a `while` loop: reported.
pub fn bad_map_insert_in_while_loop(env: Env) {
    let mut map: HostMap<i32, i32> = HostMap::new();
    let mut i: i32 = 0;
    while i < 10
        decreases 10 - i,
    {
        map.insert(i, i + 1);
        i += 1;
    }
    let _ = env;
}

/// Inserting in a `loop`: reported.
pub fn bad_map_insert_in_loop_loop(env: Env) {
    let mut map: HostMap<i32, i32> = HostMap::new();
    let mut count: i32 = 0;
    loop
        invariant_except_break
            0 <= count < 5,
        decreases 5 - count,
    {
        map.insert(count, count);
        count += 1;
        if count >= 5 {
            break;
        }
    }
    let _ = env;
}

/// Inserting outside any loop: not reported.
pub fn good_map_insert_outside_loop_values(env: Env) {
    let mut map: HostMap<i32, i32> = HostMap::new();
    map.insert(1, 10);
    map.insert(2, 20);
    let _ = env;
}

/// A persistent read without extending its TTL: reported.
pub fn read_without_extend(env: Env) {
    let _v: Option<i32> = env.storage().persistent().get(&1i32);
}

/// A persistent read followed by a TTL extension: not reported.
pub fn read_with_extend(env: Env) {
    let _v: Option<i32> = env.storage().persistent().get(&1i32);
    env.storage().persistent().extend_ttl(&1i32, 100, 100);
}

/// An instance read: not reported.
pub fn non_persistent_read(env: Env) {
    let _v: Option<i32> = env.storage().instance().get(&1i32);
}

/// Cloning an owned address that is never used again: reported.
pub fn bad_clone_address(addr: Address) {
    let _cloned = addr.clone();
}

/// Cloning an owned address to hand it on: reported.
pub fn bad_clone_address_passed_to_fn(addr: Address) {
    takes_addr(addr.clone());
}

/// Cloning in a block: reported.
pub fn bad_clone_address_in_block(addr: Address) {
    let _cloned = {
        addr.clone()
    };
}

/// Shadowing an address by its clone: reported.
pub fn bad_clone_address_shadow(addr: Address) {
    let addr = addr.clone();
    let _ = addr;
}

/// Cloning a borrowed address: not reported.
pub fn good_addr_ref_clone(addr_ref: &Address) {
    let _cloned = addr_ref.clone();
}

/// Cloning an address used afterwards: not reported.
pub fn good_addr_used_after_clone(addr: Address) {
    let _cloned = addr.clone();
    let _still_here = addr;
}

/// Cloning an address held by another value: not reported.
pub fn good_non_local_receiver(s: MyStruct) {
    let _cloned = s.addr.clone();
}

/// Takes an address.
pub fn takes_addr(_a: Address) {
}

/// Appending on every iteration: reported.
pub fn bad_append(mut b: Bytes, other: &Bytes) {
    for _i in 0..100u32 {
        b.append(other);
    }
}

/// Concatenating bytes with `+` on every iteration: reported.
pub fn bad_inefficient_bytes_concat(env: Env) {
    let mut result = Bytes::from("");
    for _i in 0..10u32 {
        result = result + Bytes::from("x");
    }
}

/// Pushing a byte on every iteration: reported.
pub fn bad_push_back(mut b: Bytes) {
    for _i in 0..10u32 {
        b.push_back(1);
    }
}

/// A contract type.
pub struct MyContract;

impl MyContract {
    /// A standard vector in contract code: reported.
    pub fn bad_vec_in_method(_env: Env) {
        let mut v: std::vec::Vec<i32> = std::vec::Vec::new();
        v.push(42);
    }
}

/// A standard vector outside contract code: not reported.
pub fn good_vec_outside_contract() {
    let mut v: std::vec::Vec<i32> = std::vec::Vec::new();
    v.push(42);
}

} // verus!
