//! `option_wrapping_in_storage` — flags a storage write of an `Option<T>`;
//! storage already models absence.

use vstd::prelude::*;

use crate::text::{has_infix, str_contains, str_eq};

verus! {

/// Message reported for an `Option` written to storage.
pub const OPTION_WRAPPING_IN_STORAGE_MSG: &'static str = "storage write stores an `Option<T>` — storage already models absence, so this creates a redundant three-state model (missing / Some / None)";

/// Help note attached to the message.
pub const OPTION_WRAPPING_IN_STORAGE_HELP: &'static str = "storage already models absence (missing key = None); store the inner type T directly and remove the key instead of wrapping in Option";

/// Whether a type name is a storage accessor.
pub fn is_storage_type(ty: &str) -> (res: bool)
    ensures
        res == (has_infix(ty@, "Instance"@) || has_infix(ty@, "Persistent"@) || has_infix(ty@, "Temporary"@)
            || has_infix(ty@, "Storage"@)),
{
    str_contains(ty, "Instance") || str_contains(ty, "Persistent") || str_contains(ty, "Temporary") || str_contains(
        ty,
        "Storage",
    )
}

/// Whether a call is reported: `set` with a key and a value on a storage
/// accessor, where the value's type is `Option<T>`. `value_is_option` is
/// whether the value's type, with any references peeled off, is `Option<T>`:
/// a value passed as `&Option<T>` counts, as `set` takes its value by
/// reference.
pub fn is_reported(method: &str, arg_count: usize, receiver_type: &str, value_is_option: bool) -> (res: bool)
    ensures
        res == (method@ == "set"@ && arg_count == 2 && (has_infix(receiver_type@, "Instance"@) || has_infix(
            receiver_type@,
            "Persistent"@,
        ) || has_infix(receiver_type@, "Temporary"@) || has_infix(receiver_type@, "Storage"@)) && value_is_option),
{
    str_eq(method, "set") && arg_count == 2 && is_storage_type(receiver_type) && value_is_option
}

} // verus!
