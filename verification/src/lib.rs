//! Verified core of a cost linter for Soroban smart contracts.

pub mod text;
pub mod hasher;
pub mod paths;
pub mod findings;
pub mod summary;
pub mod config;
pub mod cache;
pub mod diff;
pub mod run;
pub mod lints;
pub mod fixture_sdk;
pub mod fixtures;
