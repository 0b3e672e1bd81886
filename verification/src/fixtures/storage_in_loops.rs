//! Storage inside loops: instance writes in loops and storage access in
//! nested loops.

use vstd::prelude::*;

use crate::fixture_sdk::Env;

verus! {

/// An instance write in a `for` loop: reported.
pub fn bad_instance_write_in_for_loop(env: Env) {
    for i in 0..10i32 {
        let _existing: Option<i32> = env.storage().instance().get(&i);
        env.storage().instance().set(&i, &1i32);
    }
}

/// An instance write in a `while` loop: reported.
pub fn bad_instance_write_in_while_loop(env: Env) {
    let mut i: i32 = 0;
    while i < 10
        decreases 10 - i,
    {
        let _existing: Option<i32> = env.storage().instance().get(&i);
        env.storage().instance().set(&i, &1i32);
        i += 1;
    }
}

/// An instance write in a `loop` left after one pass: reported.
pub fn bad_instance_write_in_loop_loop(env: Env) {
    loop
        decreases 1int,
    {
        let _existing: Option<i32> = env.storage().instance().get(&1i32);
        env.storage().instance().set(&1i32, &1i32);
        break;
    }
}

/// An instance write in an inner loop: reported.
pub fn bad_instance_write_in_nested_loop(env: Env) {
    for i in 0..5i32 {
        for _j in 0..5i32 {
            let _existing: Option<i32> = env.storage().instance().get(&i);
            env.storage().instance().set(&i, &1i32);
        }
    }
}

/// Read and write once, outside any loop: not reported.
pub fn good_instance_write_outside_loop(env: Env) {
    let _existing: Option<i32> = env.storage().instance().get(&1i32);
    env.storage().instance().set(&1i32, &1i32);
}

/// Several writes outside any loop: not reported.
pub fn good_instance_write_multiple_outside(env: Env) {
    let _ = env.storage().instance().get::<i32, i32>(&1i32);
    env.storage().instance().set(&1i32, &1i32);
    let _ = env.storage().instance().get::<i32, i32>(&2i32);
    env.storage().instance().set(&2i32, &2i32);
}

/// Only reads in the loop: not reported.
pub fn good_instance_read_in_loop(env: Env) {
    for i in 0..10i32 {
        let _existing: Option<i32> = env.storage().instance().get(&i);
    }
}

/// Only presence checks in the loop: not reported.
pub fn good_instance_has_in_loop(env: Env) {
    for i in 0..10i32 {
        let _exists = env.storage().instance().has(&i);
    }
}

/// Persistent writes in a loop: not an instance write.
pub fn good_persistent_write_in_loop(env: Env) {
    for i in 0..10i32 {
        let _existing: Option<i32> = env.storage().persistent().get(&i);
        env.storage().persistent().set(&i, &1i32);
    }
}

/// Temporary writes in a loop: not an instance write.
pub fn good_temporary_write_in_loop(env: Env) {
    for i in 0..10i32 {
        let _existing: Option<i32> = env.storage().temporary().get(&i);
        env.storage().temporary().set(&i, &1i32);
    }
}

/// A write two loops deep: reported.
pub fn nested_for_for(env: Env) {
    for i in 0..5i32 {
        for j in 0..5i32
            invariant
                0 <= i < 5,
        {
            env.storage().instance().set(&(i + j), &1i32);
        }
    }
}

/// A read in a `while` inside a `for`: reported.
pub fn nested_for_while(env: Env) {
    for i in 0..5i32 {
        let mut j: i32 = 0;
        while j < 5
            decreases 5 - j,
        {
            let _v: Option<i32> = env.storage().persistent().get(&i);
            j += 1;
        }
    }
}

/// A presence check in a `for` inside a `while`: reported.
pub fn nested_while_for(env: Env) {
    let mut i: i32 = 0;
    while i < 5
        invariant
            0 <= i <= 5,
        decreases 5 - i,
    {
        for j in 0..5i32
            invariant
                0 <= i < 5,
        {
            env.storage().instance().has(&(i + j));
        }
        i += 1;
    }
}

/// A write one loop deep: not reported as nested.
pub fn single_for_loop(env: Env) {
    for i in 0..10i32 {
        env.storage().instance().set(&i, &1i32);
    }
}

/// A read one `while` deep: not reported as nested.
pub fn single_while_loop(env: Env) {
    let mut i: i32 = 0;
    while i < 10
        decreases 10 - i,
    {
        let _v: Option<i32> = env.storage().persistent().get(&i);
        i += 1;
    }
}

/// Writes `x + j` for each `j` in a loop of its own.
pub fn inner_func(env: &Env, x: i32)
    requires
        -1000 <= x <= 1000,
{
    for j in 0..5i32
        invariant
            -1000 <= x <= 1000,
    {
        env.storage().instance().set(&(x + j), &1i32);
    }
}

/// A called function's loops are not nested in the caller's: not reported.
pub fn nested_function_not_counted(env: Env) {
    for i in 0..5i32 {
        inner_func(&env, i);
    }
}

/// Nested loops without storage: not reported.
pub fn nested_loops_no_storage(env: Env) {
    for i in 0..5i32 {
        for j in 0..5i32
            invariant
                0 <= i < 5,
        {
            let _ = i + j;
        }
    }
}

/// Storage after the loops: not reported.
pub fn storage_outside_loops(env: Env) {
    for i in 0..5i32 {
        for j in 0..5i32
            invariant
                0 <= i < 5,
        {
            let _ = i + j;
        }
    }
    env.storage().instance().set(&1i32, &1i32);
}

} // verus!
