//! Boot-time health validation engine.
//!
//! The library models a run of host health checks: a closed catalog of check
//! variants, an applicability filter tied to the host's deployment class, a
//! merge of required and wanted check buckets, a bounded polling waiter for
//! state-convergence checks, and an importance-weighted result aggregator.
//! The probes themselves (filesystem flags, the swap table, systemd units,
//! network links) are thin queries against OS facilities; they live outside
//! the library and hand it plain values.

use vstd::prelude::*;

pub mod checks;
pub mod cli;
pub mod config;
pub mod engine;
pub mod errors;
pub mod network;
pub mod plugins;
pub mod unit;

verus! {

/// Exact string comparison over the character views of two string slices.
pub fn str_eq(a: &str, b: &str) -> (r: bool)
    ensures
        r == (a@ == b@),
{
    let sa = a.to_owned();
    let sb = b.to_owned();
    sa == sb
}

} // verus!
