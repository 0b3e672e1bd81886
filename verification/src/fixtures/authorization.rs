//! Authorization cases: repeated `require_auth` on one address, and
//! authorization inside loops.

use vstd::prelude::*;

use crate::fixture_sdk::{Address, Env, Symbol};

verus! {

/// The same address authorized twice: the second call is reported.
pub fn bad_double_require_auth(env: Env) {
    let addr = Address;
    addr.require_auth();
    addr.require_auth();
}

/// The same address authorized by both methods: the second call is reported.
pub fn bad_mixed_auth_methods(env: Env) {
    let addr = Address;
    addr.require_auth();
    addr.require_auth_for_args(&[1u32, 2]);
}

/// Two different addresses: not reported.
pub fn good_different_addresses() {
    let addr_a = Address;
    let addr_b = Address;
    addr_a.require_auth();
    addr_b.require_auth();
}

/// The same address on both sides of a contract call: not reported.
pub fn good_separated_by_invoke_contract(env: Env, target: Address, func: Symbol) {
    let addr = Address;
    addr.require_auth();
    let _r: () = env.invoke_contract(&target, &func, ());
    addr.require_auth();
}

/// The same address on both sides of a fallible contract call: not reported.
pub fn good_separated_by_try_invoke_contract(env: Env, target: Address, func: Symbol) {
    let addr = Address;
    addr.require_auth();
    let _r: Result<(), ()> = env.try_invoke_contract(&target, &func, ());
    addr.require_auth();
}

/// One authorization: not reported.
pub fn good_single_require_auth() {
    let addr = Address;
    addr.require_auth();
}

/// No authorization at all: not reported.
pub fn good_no_require_auth() {
    let _env = Env;
}

/// Re-authorizing one address on every iteration of a `for` loop: reported.
pub fn bad_same_address_auth_in_for_loop(env: Env) {
    let addr = Address;
    for _i in 0..10u32 {
        addr.require_auth();
    }
}

/// Re-authorizing one address in a `while` loop: reported.
pub fn bad_same_address_auth_in_while_loop(env: Env) {
    let addr = Address;
    let mut i: i32 = 0;
    while i < 10
        decreases 10 - i,
    {
        addr.require_auth();
        i += 1;
    }
}

/// Re-authorizing in a loop with a manual break: reported.
pub fn bad_same_address_auth_in_loop_loop(env: Env) {
    let addr = Address;
    let mut count: i32 = 0;
    loop
        invariant_except_break
            0 <= count < 5,
        decreases 5 - count,
    {
        addr.require_auth();
        count += 1;
        if count >= 5 {
            break;
        }
    }
}

/// `require_auth_for_args` in a `for` loop: reported.
pub fn bad_require_auth_for_args_in_loop(env: Env) {
    let addr = Address;
    for i in 0..10u32 {
        addr.require_auth_for_args(&[i]);
    }
}

/// `require_auth_for_args` in a `while` loop: reported.
pub fn bad_require_auth_for_args_in_while_loop(env: Env) {
    let addr = Address;
    let mut i: u32 = 0;
    while i < 10
        decreases 10 - i,
    {
        addr.require_auth_for_args(&[i]);
        i += 1;
    }
}

/// An authorization in an inner loop: reported.
pub fn bad_nested_loop_auth(env: Env) {
    let addr = Address;
    for _i in 0..3u32 {
        for _j in 0..3u32 {
            addr.require_auth();
        }
    }
}

/// A distinct address per iteration: still reported (a known false positive).
pub fn good_distinct_address_per_iteration(env: Env, addrs: [Address; 5]) {
    for i in 0..5usize {
        addrs[i].require_auth();
    }
}

/// One authorization outside any loop: not reported.
pub fn good_auth_outside_loop(env: Env) {
    let addr = Address;
    addr.require_auth();
}

/// A receiver that is not an SDK address.
pub struct NotAnAddress;

impl NotAnAddress {
    /// Not an SDK authorization.
    pub fn require_auth(&self) {
    }
}

/// `require_auth` on another type in a loop: not reported.
pub fn good_require_auth_on_other_type(env: Env) {
    let other = NotAnAddress;
    for _i in 0..10u32 {
        other.require_auth();
    }
}

} // verus!
