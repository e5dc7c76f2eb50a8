//! Privilege (interrupt) levels and the ambient execution context.
//!
//! The host platform orders execution contexts by an interrupt level that
//! decides whether the current code may block or be preempted. The platform's
//! own query for the current level is native code; verified callers instead
//! carry the ambient level explicitly in a [`Cpu`] value, and every lock
//! strategy states in its contract how it reads, raises and restores it.

use vstd::prelude::*;

verus! {

/// The lowest level: normal, preemptible execution.
pub const PASSIVE_LEVEL: u8 = 0;

/// The highest level at which the blocking strategies are legal.
pub const APC_LEVEL: u8 = 1;

/// The elevated level: normal scheduling is disabled at or above it. The
/// spinning strategies raise the ambient level to this one for the critical
/// section.
pub const DISPATCH_LEVEL: u8 = 2;

/// The highest level the platform defines.
pub const HIGH_LEVEL: u8 = 15;

/// The ambient execution level of the calling context, made explicit so that
/// contracts can speak about gating, raising and restoring it.
pub struct Cpu {
    /// The current interrupt level.
    pub irql: u8,
}

impl Cpu {
    /// A level the platform can actually report.
    pub open spec fn inv(&self) -> bool {
        self.irql <= HIGH_LEVEL
    }

    /// A context running at the given level.
    pub fn at_level(irql: u8) -> (cpu: Cpu)
        requires
            irql <= HIGH_LEVEL,
        ensures
            cpu.irql == irql,
            cpu.inv(),
    {
        Cpu { irql }
    }

    /// The current level, as the platform's query would report it.
    pub fn current_level(&self) -> (l: u8)
        ensures
            l == self.irql,
    {
        self.irql
    }
}

} // verus!
