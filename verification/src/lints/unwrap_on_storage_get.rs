//! `unwrap_on_storage_get` — flags `unwrap`/`expect` directly on a storage read.

use vstd::prelude::*;

use crate::text::{str_eq, str_in};

verus! {

/// Methods that trap on a missing value.
pub const PANICKING_METHODS: [&'static str; 2] = ["unwrap", "expect"];

/// The storage read whose result the lint follows.
pub const STORAGE_READ_METHOD: &'static str = "get";

/// Message reported for an unwrap on a storage read.
pub const UNWRAP_ON_STORAGE_GET_MSG: &'static str = "unwrap on a storage read traps the contract when the key is missing or expired";

/// Help note attached to the message.
pub const UNWRAP_ON_STORAGE_GET_HELP: &'static str = "handle the None case explicitly with unwrap_or, unwrap_or_else, or an early return carrying a proper error — work already metered before the trap is charged to the caller while delivering nothing";

/// Whether `method` traps on `None`.
pub fn is_panicking_method(method: &str) -> (res: bool)
    ensures
        res == (method@ == "unwrap"@ || method@ == "expect"@),
{
    str_in(method, PANICKING_METHODS.as_slice())
}

/// Whether a call is reported: `unwrap`/`expect` whose receiver is a `get`
/// on a storage accessor, outside test code. `receiver_method` is the method
/// of the receiver expression when it is itself a method call.
pub fn is_reported(method: &str, receiver_method: Option<&str>, get_receiver_is_storage: bool, in_test: bool) -> (res: bool)
    ensures
        res == ((method@ == "unwrap"@ || method@ == "expect"@) && !in_test && (receiver_method matches Some(m)
            && m@ == "get"@) && get_receiver_is_storage),
{
    if !is_panicking_method(method) || in_test {
        return false;
    }
    match receiver_method {
        Some(m) => str_eq(m, STORAGE_READ_METHOD) && get_receiver_is_storage,
        None => false,
    }
}

} // verus!
