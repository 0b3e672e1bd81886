//! `require_auth_in_loop` — flags authorization calls inside a loop.
//!
//! The first successful `require_auth` for an address authorizes it for the
//! whole invocation, so repeating the call on every iteration is metered each
//! time for nothing.

use vstd::prelude::*;

use crate::text::str_in;

verus! {

/// `soroban_sdk::Address`, the only receiver type whose authorization calls are tracked.
pub const SOROBAN_ADDRESS_TYPE: [[&'static str; 2]; 1] = [["soroban_sdk", "Address"]];

/// Methods on `soroban_sdk::Address` that establish authorization.
pub const REQUIRE_AUTH_METHODS: [&'static str; 2] = ["require_auth", "require_auth_for_args"];

/// Message reported for an authorization call sitting inside a loop.
pub const REQUIRE_AUTH_IN_LOOP_MSG: &'static str = "authorization call inside a loop";

/// Help note attached to the message.
pub const REQUIRE_AUTH_IN_LOOP_HELP: &'static str = "collect distinct addresses first and authorize each once before the loop";

/// Whether `method` is one of the authorization calls this lint tracks.
pub fn is_require_auth_method(method: &str) -> (res: bool)
    ensures
        res == (method@ == "require_auth"@ || method@ == "require_auth_for_args"@),
{
    str_in(method, REQUIRE_AUTH_METHODS.as_slice())
}

/// Whether a method call is reported: an authorization call on a
/// `soroban_sdk::Address` that sits inside a loop.
pub fn is_reported(method: &str, receiver_is_address: bool, inside_loop: bool) -> (res: bool)
    ensures
        res == ((method@ == "require_auth"@ || method@ == "require_auth_for_args"@) && receiver_is_address
            && inside_loop),
{
    is_require_auth_method(method) && receiver_is_address && inside_loop
}

} // verus!
