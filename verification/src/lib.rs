//! Synchronization and one-time-initialization primitives for a privileged,
//! no-runtime execution environment (a kernel or equivalent bare-metal
//! context), verified with Verus.
//!
//! The host platform's native primitives (its mutexes, spinlocks, privilege
//! level queries and processor yield hints) are not callable from verified
//! code, so every strategy here is verified as an explicit state machine: the
//! ambient privilege level is threaded through the calls as a [`level::Cpu`]
//! value, and each acquire/release is a contracted transition on the
//! strategy's own state. The cross-context interleavings that the runtime
//! types cannot exhibit sequentially are covered by the protocol models in
//! [`exclusion`], [`once_protocol`] and [`fifo_order`], whose lemmas state the
//! library's concurrency laws over arbitrary traces of steps.

pub mod errors;
pub mod exclusion;
pub mod fifo_order;
pub mod lazy;
pub mod level;
pub mod lock;
pub mod mutex;
pub mod once_protocol;
