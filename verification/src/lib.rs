//! Core of a sandboxed workflow runner: the registry of host functions a
//! script may call, the state shared with them during a run, the policy
//! that routes printed text, and the controller that records each run.

use vstd::prelude::*;

pub mod clock;
pub mod decimal;
pub mod engine;
pub mod interceptor;
pub mod plugin;
pub mod proto;
pub mod runtime;
pub mod workflow;

verus! {

/// Sum of two counters.
pub fn add(left: u64, right: u64) -> (sum: u64)
    requires
        left + right <= u64::MAX,
    ensures
        sum == left + right,
{
    left + right
}

} // verus!
