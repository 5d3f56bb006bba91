//! Crate-wide constants.

use vstd::prelude::*;

pub mod error_codes;

verus! {

/// Max consecutive `Pending` polls before `poll_await` aborts.
pub const POLL_BUDGET: u32 = 1_000_000;

} // verus!
