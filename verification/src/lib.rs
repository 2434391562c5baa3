//! Readiness gate: wait until TCP services are reachable, then decide whether
//! a trailing command runs and which exit code the run ends with.

pub mod exec;
pub mod gate;
pub mod status;
pub mod syntax;
pub mod wait;

use vstd::prelude::*;

verus! {

/// The per-target wait budget in whole seconds; `0` means "wait forever".
pub type TimeoutSeconds = u64;

} // verus!
