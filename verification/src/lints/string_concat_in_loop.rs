//! `string_concat_in_loop` — flags repeated concatenation of a
//! `soroban_sdk::String` inside a loop.

use vstd::prelude::*;

use crate::text::str_in;

verus! {

/// Methods that concatenate onto a `soroban_sdk::String`.
pub const STRING_CONCAT_METHODS: [&'static str; 1] = ["append"];

/// The definition path of `soroban_sdk::String`.
pub const SOROBAN_STRING_PATH: [&'static str; 2] = ["soroban_sdk", "String"];

/// Message reported for a concatenation inside a loop.
pub const STRING_CONCAT_IN_LOOP_MSG: &'static str = "repeatedly concatenating a soroban String inside a loop";

/// Help note attached to the message.
pub const STRING_CONCAT_IN_LOOP_HELP: &'static str = "collect the pieces in a native collection (e.g. `Vec<String>` or byte slices) inside the loop and construct the `String` a single time afterwards; pre-size where practical";

/// Whether a method call appends to a `soroban_sdk::String`.
pub fn is_append_call_on_string(method: &str, receiver_is_string: bool) -> (res: bool)
    ensures
        res == (method@ == "append"@ && receiver_is_string),
{
    str_in(method, STRING_CONCAT_METHODS.as_slice()) && receiver_is_string
}

/// Whether a binary `+` has a `soroban_sdk::String` on either side.
pub fn is_string_addition(is_add: bool, lhs_is_string: bool, rhs_is_string: bool) -> (res: bool)
    ensures
        res == (is_add && (lhs_is_string || rhs_is_string)),
{
    is_add && (lhs_is_string || rhs_is_string)
}

/// Whether an expression is reported: an append or an addition on a
/// `soroban_sdk::String` inside a loop.
pub fn is_reported(is_string_append: bool, is_string_add: bool, inside_loop: bool) -> (res: bool)
    ensures
        res == ((is_string_append || is_string_add) && inside_loop),
{
    (is_string_append || is_string_add) && inside_loop
}

} // verus!
