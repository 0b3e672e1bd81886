//! The decisions of the individual lint passes, on plain values.

pub mod loop_invariant_storage_access;
pub mod require_auth_in_loop;
pub mod string_concat_in_loop;
pub mod unwrap_on_storage_get;
pub mod unbounded_input_loop;
pub mod storage_write_without_read;
pub mod soroban_redundant_storage_read;
pub mod redundant_require_auth;
pub mod discarded_storage_read;
pub mod ledger_context_read_in_loop;
pub mod option_wrapping_in_storage;
pub mod storage_read_modify_write;
pub mod metadata;
