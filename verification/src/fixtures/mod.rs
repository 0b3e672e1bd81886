//! Contract code the lints are exercised on, written against the stand-in SDK.

pub mod general;
pub mod authorization;
pub mod storage_cycles;
pub mod loops;
pub mod storage_in_loops;
pub mod storage_tiers;
pub mod scans_and_keys;
pub mod keys_and_results;
pub mod values;
pub mod allowed;
pub mod sdk_crate;
