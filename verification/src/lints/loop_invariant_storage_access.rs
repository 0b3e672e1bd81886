//! `loop_invariant_storage_access` — flags a storage operation inside a loop
//! whose operands do not change from one iteration to the next.

use vstd::prelude::*;

use crate::text::str_eq;

verus! {

/// Method on `soroban_sdk::Env` that hands back the storage accessors.
pub const ENV_STORAGE_METHOD: &'static str = "storage";

/// Message reported for an invariant storage operation in a loop.
pub const LOOP_INVARIANT_STORAGE_ACCESS_MSG: &'static str = "loop-invariant storage operation inside a loop";

/// Help note attached to the message.
pub const LOOP_INVARIANT_STORAGE_ACCESS_HELP: &'static str = "hoist this storage operation out of the loop";

/// Whether a method call reaches the host's storage subsystem: any method on
/// a storage accessor type, or `storage()` on `soroban_sdk::Env`.
pub fn is_storage_access_call(method: &str, receiver_is_storage_type: bool, receiver_is_env: bool) -> (res: bool)
    ensures
        res == (receiver_is_storage_type || (receiver_is_env && method@ == "storage"@)),
{
    receiver_is_storage_type || (receiver_is_env && str_eq(method, ENV_STORAGE_METHOD))
}

/// Whether a storage access is reported: it sits in a loop and none of its
/// operands depends on per-iteration state.
pub fn is_reported(inside_loop: bool, is_storage_access: bool, depends_on_loop_state: bool) -> (res: bool)
    ensures
        res == (inside_loop && is_storage_access && !depends_on_loop_state),
{
    inside_loop && is_storage_access && !depends_on_loop_state
}

} // verus!
