//! The recoverable errors the library returns.
//!
//! Resource exhaustion and privilege-level violations are ordinary return
//! values: construction and acquisition may run at levels where unwinding
//! would be unsafe, so nothing here panics. Misuse conditions (mutable access
//! through a shared guard, use after teardown) are excluded by preconditions
//! instead and never surface as a value.

use vstd::prelude::*;

verus! {

/// Why a construction or an acquisition was refused.
#[derive(Clone, Copy, Debug, PartialEq, Eq, Structural)]
pub enum LockError {
    /// The platform pool could not supply the allocation.
    InsufficientResources,
    /// The ambient privilege level is too high for the requested strategy.
    LevelNotPermitted,
    /// A shared acquisition was requested from a strategy that only supports
    /// exclusive access.
    NotShareable,
}

} // verus!
