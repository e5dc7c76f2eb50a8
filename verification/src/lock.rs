//! Standalone locks and scope tokens over them.
//!
//! Where [`crate::mutex::Locked`] pairs a strategy with the payload it
//! protects, a [`MutexLock`] is the strategy alone, for callers that guard a
//! resource the lock does not own. The [`Uniquable`] and [`Shareable`]
//! capability traits describe what a standalone lock offers, and
//! [`UniqueLock`] / [`SharedLock`] are the acquisition tokens over them,
//! handed back explicitly because this runtime has no scope-exit callbacks.

use vstd::prelude::*;

use crate::errors::LockError;
use crate::level::Cpu;
use crate::mutex::{Mutex, Occupancy};

verus! {

/// A lock that can be acquired exclusively.
pub trait Uniquable {
    /// The lock's internal well-formedness.
    spec fn inv(&self) -> bool;

    /// Whether the lock is exclusively held.
    spec fn held(&self) -> bool;

    /// Whether an exclusive acquisition is permitted at the given ambient
    /// level in the lock's current state.
    spec fn may_lock(&self, irql: u8) -> bool;

    /// The level rule alone: whether the ambient level admits this lock,
    /// independently of its current state.
    spec fn level_ok(&self, irql: u8) -> bool;

    /// Whether this lock's strategy may move the ambient level while held.
    spec fn moves_level() -> bool;

    /// Acquire exclusively. A lock whose strategy does not move the ambient
    /// level leaves it exactly where it was.
    fn lock(&mut self, cpu: &mut Cpu)
        requires
            old(self).inv(),
            old(cpu).inv(),
            old(self).may_lock(old(cpu).irql),
        ensures
            final(self).inv(),
            final(cpu).inv(),
            final(self).held(),
            !Self::moves_level() ==> final(cpu).irql == old(cpu).irql,
    ;

    /// Release an exclusive acquisition. A released lock admits the next
    /// exclusive acquisition at any level its rule accepts, and a lock whose
    /// strategy does not move the ambient level leaves it exactly where it
    /// was.
    fn unlock(&mut self, cpu: &mut Cpu)
        requires
            old(self).inv(),
            old(cpu).inv(),
            old(self).held(),
        ensures
            final(self).inv(),
            final(cpu).inv(),
            !final(self).held(),
            !Self::moves_level() ==> final(cpu).irql == old(cpu).irql,
            forall|irql: u8| final(self).level_ok(irql) ==> #[trigger] final(self).may_lock(irql),
    ;
}

/// A lock that can be acquired shared by any number of concurrent readers.
pub trait Shareable {
    /// The lock's internal well-formedness.
    spec fn inv(&self) -> bool;

    /// How many shared acquisitions are outstanding.
    spec fn shared_count(&self) -> int;

    /// Whether a shared acquisition is permitted at the given ambient level
    /// in the lock's current state.
    spec fn may_lock_shared(&self, irql: u8) -> bool;

    /// Whether a shared release is permitted in the lock's current state.
    spec fn may_unlock_shared(&self) -> bool;

    /// Acquire shared. Shared holders admit each other: as long as the
    /// count stays below the machine bound, a level that admitted this
    /// acquisition admits the next one too.
    fn lock_shared(&mut self, cpu: &mut Cpu)
        requires
            old(self).inv(),
            old(cpu).inv(),
            old(self).may_lock_shared(old(cpu).irql),
        ensures
            final(self).inv(),
            final(cpu).inv(),
            final(cpu).irql == old(cpu).irql,
            final(self).shared_count() == old(self).shared_count() + 1,
            final(self).may_unlock_shared(),
            forall|irql: u8|
                old(self).may_lock_shared(irql) && final(self).shared_count() < usize::MAX
                    ==> #[trigger] final(self).may_lock_shared(irql),
    ;

    /// Release one shared acquisition. A level that admitted a shared
    /// acquisition before the release still admits one after it.
    fn unlock_shared(&mut self, cpu: &mut Cpu)
        requires
            old(self).inv(),
            old(cpu).inv(),
            old(self).may_unlock_shared(),
        ensures
            final(self).inv(),
            final(cpu).inv(),
            final(cpu).irql == old(cpu).irql,
            final(self).shared_count() == old(self).shared_count() - 1,
            final(self).shared_count() >= 1 ==> final(self).may_unlock_shared(),
            forall|irql: u8|
                old(self).may_lock_shared(irql) ==> #[trigger] final(self).may_lock_shared(irql),
    ;
}

/// A lock that offers a non-waiting exclusive acquisition attempt. The
/// library's strategies expose their attempts through [`Mutex::try_lock`];
/// this capability is declared for callers that want to abstract over it.
pub trait Tryable {
    /// Attempt an exclusive acquisition without waiting.
    fn trylock(&mut self, cpu: &mut Cpu) -> bool;
}

/// A lock that offers a non-waiting shared acquisition attempt, declared for
/// the same purpose as [`Tryable`].
pub trait TraybleShared {
    /// Attempt a shared acquisition without waiting.
    fn try_lock_shared(&mut self, cpu: &mut Cpu) -> bool;
}

/// A standalone lock: one strategy instance and a record of whether it is
/// exclusively held.
pub struct MutexLock<M: Mutex> {
    inner: M,
    held: bool,
}

impl<M: Mutex> MutexLock<M> {
    /// The lock's internal well-formedness: the held record tracks the
    /// strategy's occupancy.
    pub closed spec fn inv(&self) -> bool {
        &&& self.inner.inv()
        &&& M::guards_occupancy() ==> (self.held <==> self.inner.occ() is Exclusive)
    }

    /// Who holds the strategy.
    pub closed spec fn occ(&self) -> Occupancy {
        self.inner.occ()
    }

    /// Whether the lock is exclusively held.
    pub closed spec fn held_spec(&self) -> bool {
        self.held
    }

    /// Allocate a standalone lock with a fresh, unheld strategy. As with
    /// the containers, pool exhaustion cannot arise here, so construction
    /// always succeeds.
    pub fn new() -> (r: Result<Self, LockError>)
        ensures
            r is Ok,
            r->Ok_0.inv(),
            r->Ok_0.occ() is Free,
            !r->Ok_0.held_spec(),
    {
        Ok(MutexLock { inner: M::new(), held: false })
    }
}

impl<M: Mutex> Uniquable for MutexLock<M> {
    open spec fn inv(&self) -> bool {
        MutexLock::inv(self)
    }

    open spec fn held(&self) -> bool {
        self.held_spec()
    }

    open spec fn may_lock(&self, irql: u8) -> bool {
        &&& M::irql_ok_spec(irql)
        &&& (M::guards_occupancy() ==> self.occ() is Free)
        &&& !self.held_spec()
    }

    open spec fn level_ok(&self, irql: u8) -> bool {
        M::irql_ok_spec(irql)
    }

    open spec fn moves_level() -> bool {
        M::restores_irql()
    }

    fn lock(&mut self, cpu: &mut Cpu) {
        proof {
            if !M::restores_irql() {
                M::lemma_level_untouched(cpu.irql, 0);
            }
        }
        self.inner.lock(cpu);
        self.held = true;
    }

    fn unlock(&mut self, cpu: &mut Cpu) {
        proof {
            if !M::restores_irql() {
                M::lemma_level_untouched(cpu.irql, self.inner.saved_irql());
            }
        }
        self.inner.unlock(cpu);
        self.held = false;
    }
}

impl<M: Mutex> Shareable for MutexLock<M> {
    open spec fn inv(&self) -> bool {
        MutexLock::inv(self)
    }

    open spec fn shared_count(&self) -> int {
        self.occ().readers()
    }

    open spec fn may_lock_shared(&self, irql: u8) -> bool {
        &&& M::shareable_spec()
        &&& M::irql_ok_spec(irql)
        &&& !(self.occ() is Exclusive)
        &&& self.occ().readers() < usize::MAX
    }

    open spec fn may_unlock_shared(&self) -> bool {
        &&& M::shareable_spec()
        &&& self.occ() is Shared
    }

    fn lock_shared(&mut self, cpu: &mut Cpu) {
        self.inner.lock_shared(cpu);
    }

    fn unlock_shared(&mut self, cpu: &mut Cpu) {
        self.inner.unlock_shared(cpu);
    }
}

/// An exclusive-acquisition token over any [`Uniquable`] lock: construction
/// acquires; the token is handed back to [`UniqueLock::release`] to release,
/// since this runtime provides no scope-exit callback.
pub struct UniqueLock {
    _token: (),
}

impl UniqueLock {
    /// Acquire `locker` exclusively and mint the token. Acquisition over a
    /// well-formed lock always succeeds, so the result is always the token.
    pub fn new<T: Uniquable>(locker: &mut T, cpu: &mut Cpu) -> (r: Result<UniqueLock, ()>)
        requires
            old(locker).inv(),
            old(cpu).inv(),
            old(locker).may_lock(old(cpu).irql),
        ensures
            r is Ok,
            final(locker).inv(),
            final(cpu).inv(),
            final(locker).held(),
            !T::moves_level() ==> final(cpu).irql == old(cpu).irql,
    {
        locker.lock(cpu);
        Ok(UniqueLock { _token: () })
    }

    /// Hand the token back, releasing the lock.
    pub fn release<T: Uniquable>(self, locker: &mut T, cpu: &mut Cpu)
        requires
            old(locker).inv(),
            old(cpu).inv(),
            old(locker).held(),
        ensures
            final(locker).inv(),
            final(cpu).inv(),
            !final(locker).held(),
            !T::moves_level() ==> final(cpu).irql == old(cpu).irql,
            forall|irql: u8| final(locker).level_ok(irql) ==> #[trigger] final(locker).may_lock(
                irql,
            ),
    {
        locker.unlock(cpu);
    }
}

/// A shared-acquisition token over any [`Shareable`] lock, the counterpart
/// of [`UniqueLock`].
pub struct SharedLock {
    _token: (),
}

impl SharedLock {
    /// Acquire `locker` shared and mint the token. Acquisition over a
    /// well-formed lock always succeeds, so the result is always the token.
    pub fn new<T: Shareable>(locker: &mut T, cpu: &mut Cpu) -> (r: Result<SharedLock, ()>)
        requires
            old(locker).inv(),
            old(cpu).inv(),
            old(locker).may_lock_shared(old(cpu).irql),
        ensures
            r is Ok,
            final(locker).inv(),
            final(cpu).inv(),
            final(cpu).irql == old(cpu).irql,
            final(locker).shared_count() == old(locker).shared_count() + 1,
            final(locker).may_unlock_shared(),
            forall|irql: u8|
                old(locker).may_lock_shared(irql) && final(locker).shared_count() < usize::MAX
                    ==> #[trigger] final(locker).may_lock_shared(irql),
    {
        locker.lock_shared(cpu);
        Ok(SharedLock { _token: () })
    }

    /// Hand the token back, releasing one shared acquisition.
    pub fn release<T: Shareable>(self, locker: &mut T, cpu: &mut Cpu)
        requires
            old(locker).inv(),
            old(cpu).inv(),
            old(locker).may_unlock_shared(),
        ensures
            final(locker).inv(),
            final(cpu).inv(),
            final(cpu).irql == old(cpu).irql,
            final(locker).shared_count() == old(locker).shared_count() - 1,
            final(locker).shared_count() >= 1 ==> final(locker).may_unlock_shared(),
            forall|irql: u8|
                old(locker).may_lock_shared(irql) ==> #[trigger] final(locker).may_lock_shared(
                    irql,
                ),
    {
        locker.unlock_shared(cpu);
    }
}

/// A standalone lightweight mutex.
pub type FastLock = MutexLock<crate::mutex::FastMutex>;

/// A standalone spinning lock.
pub type SpinLock = MutexLock<crate::mutex::SpinMutex>;

/// A standalone guarded mutex.
pub type GuardedLock = MutexLock<crate::mutex::GuardedMutex>;

/// A standalone reader/writer resource lock.
pub type ResourceLock = MutexLock<crate::mutex::ResourceMutex>;

} // verus!
