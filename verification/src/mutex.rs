//! The capability-polymorphic lock strategies and the protected containers
//! built over them.
//!
//! A strategy is an interchangeable locking backend. On the host platform
//! each one delegates to a native primitive; here every backend is verified
//! as an explicit state machine: its occupancy (who holds it) is the model of
//! the native control block, and the ambient privilege level is threaded
//! through acquire and release as a [`Cpu`] value so that the level rules and the
//! raise/restore discipline of the spinning strategies are part of the
//! contracts. The cross-context behaviour that a sequential state machine
//! cannot exhibit (waiting, fairness, lost updates) is covered by the trace
//! models in the sibling modules.

use core::mem;
use vstd::prelude::*;

use crate::errors::LockError;
use crate::level::{Cpu, APC_LEVEL, DISPATCH_LEVEL, HIGH_LEVEL};

verus! {

/// Who holds a lock backend: nobody, one exclusive owner, or a number of
/// concurrent readers. Exclusive and shared occupancy are distinct variants,
/// so a state holding both at once is unrepresentable.
pub enum Occupancy {
    /// Nobody holds the backend.
    Free,
    /// One owner holds it exclusively.
    Exclusive,
    /// `readers` concurrent owners hold it shared.
    Shared { readers: usize },
}

impl Occupancy {
    /// The number of shared holders; zero unless the occupancy is shared.
    pub open spec fn readers(self) -> int {
        match self {
            Occupancy::Shared { readers } => readers as int,
            _ => 0,
        }
    }

    /// A shared occupancy records at least one reader.
    pub open spec fn wf(self) -> bool {
        self is Shared ==> self.readers() >= 1
    }
}

/// An interchangeable locking backend, exposing acquire and release in
/// exclusive and (optionally) shared modes, each entry point guarded by a
/// privilege-level check.
///
/// Each implementation states, through the associated spec functions, which
/// capabilities it offers, at which ambient levels it is legal, and how it
/// moves the ambient level when acquiring and releasing.
pub trait Mutex: Sized {
    /// The backend's internal well-formedness.
    spec fn inv(&self) -> bool;

    /// The model of the native control block: who holds the backend.
    spec fn occ(&self) -> Occupancy;

    /// The ambient level observed at the most recent exclusive acquisition;
    /// meaningful only for strategies that restore it on release.
    spec fn saved_irql(&self) -> u8;

    /// Whether shared (reader) acquisition is meaningful for this backend.
    spec fn shareable_spec() -> bool;

    /// Whether try-acquisition is offered by this backend.
    spec fn try_supported_spec() -> bool;

    /// The level rule: whether this strategy may legally be used at the
    /// given ambient level.
    spec fn irql_ok_spec(irql: u8) -> bool;

    /// Whether this backend enforces occupancy at all; the null strategy
    /// does not.
    spec fn guards_occupancy() -> bool;

    /// Whether release rewrites the ambient level from the saved one.
    spec fn restores_irql() -> bool;

    /// The ambient level while the lock is held, as a function of the level
    /// observed at acquisition.
    spec fn held_irql(pre: u8) -> u8;

    /// The ambient level after release, as a function of the level before
    /// release and the saved level.
    spec fn released_irql(cur: u8, saved: u8) -> u8;

    /// The levels at which a try-acquisition can succeed.
    spec fn try_cond(irql: u8) -> bool;

    /// Law: a matched acquire/release pair leaves the ambient level exactly
    /// where the acquisition found it, and never raises it beyond the
    /// platform's range.
    proof fn lemma_level_round_trip(pre: u8)
        requires
            Self::irql_ok_spec(pre),
            pre <= HIGH_LEVEL,
        ensures
            Self::released_irql(Self::held_irql(pre), pre) == pre,
            Self::held_irql(pre) <= HIGH_LEVEL,
    ;

    /// Law: a strategy that does not restore a saved level never moves the
    /// ambient level at all — it holds at the level acquisition found, and
    /// release leaves the level where it stands, whatever was saved.
    proof fn lemma_level_untouched(cur: u8, saved: u8)
        requires
            !Self::restores_irql(),
        ensures
            Self::held_irql(cur) == cur,
            Self::released_irql(cur, saved) == cur,
    ;

    /// Create the backend state, unheld.
    fn new() -> (m: Self)
        ensures
            m.inv(),
            m.occ() is Free,
    ;

    /// Whether shared acquisition is supported.
    fn shareable() -> (b: bool)
        ensures
            b == Self::shareable_spec(),
    ;

    /// The level rule, as an executable query.
    fn irql_ok(cpu: &Cpu) -> (b: bool)
        ensures
            b == Self::irql_ok_spec(cpu.irql),
    ;

    /// Whether nobody holds the backend, as an executable probe.
    fn is_free(&self) -> (b: bool)
        ensures
            b == (self.occ() is Free),
    ;

    /// Acquire exclusively. On the host platform this may suspend or spin
    /// until the backend is free; in this sequential model the backend must
    /// be free on entry, which the containers establish.
    fn lock(&mut self, cpu: &mut Cpu)
        requires
            old(self).inv(),
            old(cpu).inv(),
            Self::irql_ok_spec(old(cpu).irql),
            Self::guards_occupancy() ==> old(self).occ() is Free,
        ensures
            final(self).inv(),
            final(cpu).inv(),
            final(self).occ() == (if Self::guards_occupancy() {
                Occupancy::Exclusive
            } else {
                old(self).occ()
            }),
            final(cpu).irql == Self::held_irql(old(cpu).irql),
            Self::restores_irql() ==> final(self).saved_irql() == old(cpu).irql,
    ;

    /// Release an exclusive acquisition, restoring the ambient level
    /// according to the strategy's discipline.
    fn unlock(&mut self, cpu: &mut Cpu)
        requires
            old(self).inv(),
            old(cpu).inv(),
            Self::guards_occupancy() ==> old(self).occ() is Exclusive,
        ensures
            final(self).inv(),
            final(cpu).inv(),
            final(self).occ() == (if Self::guards_occupancy() {
                Occupancy::Free
            } else {
                old(self).occ()
            }),
            final(cpu).irql == Self::released_irql(old(cpu).irql, old(self).saved_irql()),
    ;

    /// Attempt an exclusive acquisition without waiting. The level rule
    /// applies to try-acquisition exactly as to the blocking entry points: at a level
    /// where the strategy is not legal the attempt is refused.
    fn try_lock(&mut self, cpu: &mut Cpu) -> (b: bool)
        requires
            Self::try_supported_spec(),
            old(self).inv(),
            old(cpu).inv(),
        ensures
            final(self).inv(),
            final(cpu).inv(),
            final(cpu).irql == old(cpu).irql,
            b == (old(self).occ() is Free && Self::try_cond(old(cpu).irql)),
            b ==> final(self).occ() is Exclusive,
            b && Self::restores_irql() ==> final(self).saved_irql() == old(cpu).irql,
            !b ==> *final(self) == *old(self),
    ;

    /// Acquire shared. Only meaningful for shareable backends; shared
    /// holders exclude exclusive acquirers but admit each other.
    fn lock_shared(&mut self, cpu: &mut Cpu)
        requires
            Self::shareable_spec(),
            old(self).inv(),
            old(cpu).inv(),
            Self::irql_ok_spec(old(cpu).irql),
            !(old(self).occ() is Exclusive),
            old(self).occ().readers() < usize::MAX,
        ensures
            final(self).inv(),
            final(cpu).inv(),
            final(cpu).irql == old(cpu).irql,
            final(self).occ() is Shared,
            final(self).occ().readers() == old(self).occ().readers() + 1,
    ;

    /// Attempt a shared acquisition without waiting, under the same level
    /// rule as the blocking entry point.
    fn try_lock_shared(&mut self, cpu: &mut Cpu) -> (b: bool)
        requires
            Self::shareable_spec(),
            old(self).inv(),
            old(cpu).inv(),
            old(self).occ().readers() < usize::MAX,
        ensures
            final(self).inv(),
            final(cpu).inv(),
            final(cpu).irql == old(cpu).irql,
            b == (!(old(self).occ() is Exclusive) && Self::try_cond(old(cpu).irql)),
            b ==> final(self).occ() is Shared,
            b ==> final(self).occ().readers() == old(self).occ().readers() + 1,
            !b ==> *final(self) == *old(self),
    ;

    /// Release one shared acquisition.
    fn unlock_shared(&mut self, cpu: &mut Cpu)
        requires
            Self::shareable_spec(),
            old(self).inv(),
            old(cpu).inv(),
            old(self).occ() is Shared,
        ensures
            final(self).inv(),
            final(cpu).inv(),
            final(cpu).irql == old(cpu).irql,
            final(self).occ().readers() == old(self).occ().readers() - 1,
            old(self).occ().readers() == 1 ==> final(self).occ() is Free,
            old(self).occ().readers() > 1 ==> final(self).occ() is Shared,
    ;
}

/// The null strategy: every operation is a no-op and nothing is enforced.
/// Used for testing and placeholder composition.
pub struct EmptyMutex;

impl Mutex for EmptyMutex {
    open spec fn inv(&self) -> bool {
        true
    }

    open spec fn occ(&self) -> Occupancy {
        Occupancy::Free
    }

    open spec fn saved_irql(&self) -> u8 {
        0
    }

    open spec fn shareable_spec() -> bool {
        false
    }

    open spec fn try_supported_spec() -> bool {
        false
    }

    open spec fn irql_ok_spec(irql: u8) -> bool {
        irql <= APC_LEVEL
    }

    open spec fn guards_occupancy() -> bool {
        false
    }

    open spec fn restores_irql() -> bool {
        false
    }

    open spec fn held_irql(pre: u8) -> u8 {
        pre
    }

    open spec fn released_irql(cur: u8, saved: u8) -> u8 {
        cur
    }

    open spec fn try_cond(irql: u8) -> bool {
        false
    }

    proof fn lemma_level_round_trip(pre: u8) {
    }

    proof fn lemma_level_untouched(cur: u8, saved: u8) {
    }

    fn new() -> (m: Self) {
        EmptyMutex
    }

    fn shareable() -> (b: bool) {
        false
    }

    fn irql_ok(cpu: &Cpu) -> (b: bool) {
        cpu.irql <= APC_LEVEL
    }

    fn is_free(&self) -> (b: bool) {
        true
    }

    fn lock(&mut self, _cpu: &mut Cpu) {
    }

    fn unlock(&mut self, _cpu: &mut Cpu) {
    }

    fn try_lock(&mut self, _cpu: &mut Cpu) -> (b: bool) {
        false
    }

    fn lock_shared(&mut self, _cpu: &mut Cpu) {
    }

    fn try_lock_shared(&mut self, _cpu: &mut Cpu) -> (b: bool) {
        false
    }

    fn unlock_shared(&mut self, _cpu: &mut Cpu) {
    }
}

/// Exclusive-only mutual exclusion over the platform's lightweight mutex;
/// legal only while preemption is enabled.
pub struct FastMutex {
    locked: bool,
}

impl Mutex for FastMutex {
    open spec fn inv(&self) -> bool {
        true
    }

    closed spec fn occ(&self) -> Occupancy {
        if self.locked {
            Occupancy::Exclusive
        } else {
            Occupancy::Free
        }
    }

    open spec fn saved_irql(&self) -> u8 {
        0
    }

    open spec fn shareable_spec() -> bool {
        false
    }

    open spec fn try_supported_spec() -> bool {
        true
    }

    open spec fn irql_ok_spec(irql: u8) -> bool {
        irql <= APC_LEVEL
    }

    open spec fn guards_occupancy() -> bool {
        true
    }

    open spec fn restores_irql() -> bool {
        false
    }

    open spec fn held_irql(pre: u8) -> u8 {
        pre
    }

    open spec fn released_irql(cur: u8, saved: u8) -> u8 {
        cur
    }

    open spec fn try_cond(irql: u8) -> bool {
        irql <= APC_LEVEL
    }

    proof fn lemma_level_round_trip(pre: u8) {
    }

    proof fn lemma_level_untouched(cur: u8, saved: u8) {
    }

    fn new() -> (m: Self) {
        FastMutex { locked: false }
    }

    fn shareable() -> (b: bool) {
        false
    }

    fn irql_ok(cpu: &Cpu) -> (b: bool) {
        cpu.irql <= APC_LEVEL
    }

    fn is_free(&self) -> (b: bool) {
        !self.locked
    }

    fn lock(&mut self, _cpu: &mut Cpu) {
        self.locked = true;
    }

    fn unlock(&mut self, _cpu: &mut Cpu) {
        self.locked = false;
    }

    fn try_lock(&mut self, cpu: &mut Cpu) -> (b: bool) {
        if cpu.irql <= APC_LEVEL && !self.locked {
            self.locked = true;
            true
        } else {
            false
        }
    }

    fn lock_shared(&mut self, _cpu: &mut Cpu) {
    }

    fn try_lock_shared(&mut self, _cpu: &mut Cpu) -> (b: bool) {
        false
    }

    fn unlock_shared(&mut self, _cpu: &mut Cpu) {
    }
}

/// Exclusive-only mutual exclusion tuned for short critical sections, over
/// the platform's guarded mutex; legal only while preemption is enabled.
pub struct GuardedMutex {
    locked: bool,
}

impl Mutex for GuardedMutex {
    open spec fn inv(&self) -> bool {
        true
    }

    closed spec fn occ(&self) -> Occupancy {
        if self.locked {
            Occupancy::Exclusive
        } else {
            Occupancy::Free
        }
    }

    open spec fn saved_irql(&self) -> u8 {
        0
    }

    open spec fn shareable_spec() -> bool {
        false
    }

    open spec fn try_supported_spec() -> bool {
        true
    }

    open spec fn irql_ok_spec(irql: u8) -> bool {
        irql <= APC_LEVEL
    }

    open spec fn guards_occupancy() -> bool {
        true
    }

    open spec fn restores_irql() -> bool {
        false
    }

    open spec fn held_irql(pre: u8) -> u8 {
        pre
    }

    open spec fn released_irql(cur: u8, saved: u8) -> u8 {
        cur
    }

    open spec fn try_cond(irql: u8) -> bool {
        irql <= APC_LEVEL
    }

    proof fn lemma_level_round_trip(pre: u8) {
    }

    proof fn lemma_level_untouched(cur: u8, saved: u8) {
    }

    fn new() -> (m: Self) {
        GuardedMutex { locked: false }
    }

    fn shareable() -> (b: bool) {
        false
    }

    fn irql_ok(cpu: &Cpu) -> (b: bool) {
        cpu.irql <= APC_LEVEL
    }

    fn is_free(&self) -> (b: bool) {
        !self.locked
    }

    fn lock(&mut self, _cpu: &mut Cpu) {
        self.locked = true;
    }

    fn unlock(&mut self, _cpu: &mut Cpu) {
        self.locked = false;
    }

    fn try_lock(&mut self, cpu: &mut Cpu) -> (b: bool) {
        if cpu.irql <= APC_LEVEL && !self.locked {
            self.locked = true;
            true
        } else {
            false
        }
    }

    fn lock_shared(&mut self, _cpu: &mut Cpu) {
    }

    fn try_lock_shared(&mut self, _cpu: &mut Cpu) -> (b: bool) {
        false
    }

    fn unlock_shared(&mut self, _cpu: &mut Cpu) {
    }
}

/// The only shareable strategy, over the platform's reader/writer resource:
/// an exclusive holder excludes everybody; shared holders admit each other
/// and exclude exclusive acquirers. Legal only while preemption is enabled.
pub struct ResourceMutex {
    state: Occupancy,
}

impl Mutex for ResourceMutex {
    closed spec fn inv(&self) -> bool {
        self.state.wf()
    }

    closed spec fn occ(&self) -> Occupancy {
        self.state
    }

    open spec fn saved_irql(&self) -> u8 {
        0
    }

    open spec fn shareable_spec() -> bool {
        true
    }

    open spec fn try_supported_spec() -> bool {
        true
    }

    open spec fn irql_ok_spec(irql: u8) -> bool {
        irql <= APC_LEVEL
    }

    open spec fn guards_occupancy() -> bool {
        true
    }

    open spec fn restores_irql() -> bool {
        false
    }

    open spec fn held_irql(pre: u8) -> u8 {
        pre
    }

    open spec fn released_irql(cur: u8, saved: u8) -> u8 {
        cur
    }

    open spec fn try_cond(irql: u8) -> bool {
        irql <= APC_LEVEL
    }

    proof fn lemma_level_round_trip(pre: u8) {
    }

    proof fn lemma_level_untouched(cur: u8, saved: u8) {
    }

    fn new() -> (m: Self) {
        ResourceMutex { state: Occupancy::Free }
    }

    fn shareable() -> (b: bool) {
        true
    }

    fn irql_ok(cpu: &Cpu) -> (b: bool) {
        cpu.irql <= APC_LEVEL
    }

    fn is_free(&self) -> (b: bool) {
        match &self.state {
            Occupancy::Free => true,
            _ => false,
        }
    }

    fn lock(&mut self, _cpu: &mut Cpu) {
        self.state = Occupancy::Exclusive;
    }

    fn unlock(&mut self, _cpu: &mut Cpu) {
        self.state = Occupancy::Free;
    }

    fn try_lock(&mut self, cpu: &mut Cpu) -> (b: bool) {
        if cpu.irql <= APC_LEVEL {
            match self.state {
                Occupancy::Free => {
                    self.state = Occupancy::Exclusive;
                    true
                },
                _ => false,
            }
        } else {
            false
        }
    }

    fn lock_shared(&mut self, _cpu: &mut Cpu) {
        match self.state {
            Occupancy::Shared { readers } => {
                self.state = Occupancy::Shared { readers: readers + 1 };
            },
            _ => {
                self.state = Occupancy::Shared { readers: 1 };
            },
        }
    }

    fn try_lock_shared(&mut self, cpu: &mut Cpu) -> (b: bool) {
        if cpu.irql <= APC_LEVEL {
            match self.state {
                Occupancy::Exclusive => false,
                Occupancy::Shared { readers } => {
                    self.state = Occupancy::Shared { readers: readers + 1 };
                    true
                },
                Occupancy::Free => {
                    self.state = Occupancy::Shared { readers: 1 };
                    true
                },
            }
        } else {
            false
        }
    }

    fn unlock_shared(&mut self, _cpu: &mut Cpu) {
        match self.state {
            Occupancy::Shared { readers } => {
                if readers <= 1 {
                    self.state = Occupancy::Free;
                } else {
                    self.state = Occupancy::Shared { readers: readers - 1 };
                }
            },
            _ => {
            },
        }
    }
}

/// Busy-wait exclusive lock, legal at any level: acquisition raises the
/// ambient level to the elevated one when the caller is below it, and release
/// restores exactly the level acquisition observed. The observed level is
/// saved per instance, which is why this strategy is non-reentrant.
pub struct SpinMutex {
    locked: bool,
    saved_irql: u8,
}

impl Mutex for SpinMutex {
    closed spec fn inv(&self) -> bool {
        self.locked ==> self.saved_irql <= HIGH_LEVEL
    }

    closed spec fn occ(&self) -> Occupancy {
        if self.locked {
            Occupancy::Exclusive
        } else {
            Occupancy::Free
        }
    }

    closed spec fn saved_irql(&self) -> u8 {
        self.saved_irql
    }

    open spec fn shareable_spec() -> bool {
        false
    }

    open spec fn try_supported_spec() -> bool {
        true
    }

    open spec fn irql_ok_spec(irql: u8) -> bool {
        true
    }

    open spec fn guards_occupancy() -> bool {
        true
    }

    open spec fn restores_irql() -> bool {
        true
    }

    open spec fn held_irql(pre: u8) -> u8 {
        if pre >= DISPATCH_LEVEL {
            pre
        } else {
            DISPATCH_LEVEL
        }
    }

    open spec fn released_irql(cur: u8, saved: u8) -> u8 {
        saved
    }

    open spec fn try_cond(irql: u8) -> bool {
        irql == DISPATCH_LEVEL
    }

    proof fn lemma_level_round_trip(pre: u8) {
    }

    proof fn lemma_level_untouched(cur: u8, saved: u8) {
    }

    fn new() -> (m: Self) {
        SpinMutex { locked: false, saved_irql: 0 }
    }

    fn shareable() -> (b: bool) {
        false
    }

    fn irql_ok(_cpu: &Cpu) -> (b: bool) {
        true
    }

    fn is_free(&self) -> (b: bool) {
        !self.locked
    }

    fn lock(&mut self, cpu: &mut Cpu) {
        self.saved_irql = cpu.irql;
        self.locked = true;
        if cpu.irql < DISPATCH_LEVEL {
            cpu.irql = DISPATCH_LEVEL;
        }
    }

    fn unlock(&mut self, cpu: &mut Cpu) {
        self.locked = false;
        cpu.irql = self.saved_irql;
    }

    fn try_lock(&mut self, cpu: &mut Cpu) -> (b: bool) {
        if cpu.irql == DISPATCH_LEVEL && !self.locked {
            self.saved_irql = cpu.irql;
            self.locked = true;
            true
        } else {
            false
        }
    }

    fn lock_shared(&mut self, _cpu: &mut Cpu) {
    }

    fn try_lock_shared(&mut self, _cpu: &mut Cpu) -> (b: bool) {
        false
    }

    fn unlock_shared(&mut self, _cpu: &mut Cpu) {
    }
}

/// An access token minted by a successful acquisition on a [`Locked`]
/// container. Exclusivity is part of the type: only an exclusive token gives
/// mutable access, so mutable access through a shared acquisition is
/// unrepresentable. Scope exit does not release anything in this runtime;
/// the token is handed back explicitly to the container's release calls.
///
/// The token carries no identity tying it to the container that minted it:
/// fresh ghost identities would need a linear (tracked) resource, which this
/// library does not use. What the release calls check is the container's own
/// occupancy, so pairing a token with the wrong container is possible only
/// where that container is itself held in the token's mode, and no stated
/// invariant can be broken that way.
pub struct MutexGuard<const EXCLUSIVE: bool> {
    _token: (),
}

/// A single allocation combining one lock strategy instance with one
/// protected payload. All access to the payload goes through tokens minted
/// by [`Locked::lock`] and [`Locked::lock_shared`].
pub struct Locked<T, M: Mutex> {
    mutex: M,
    data: T,
}

impl<T, M: Mutex> Locked<T, M> {
    /// The container's internal well-formedness.
    pub closed spec fn inv(&self) -> bool {
        self.mutex.inv()
    }

    /// Who holds the strategy.
    pub closed spec fn occ(&self) -> Occupancy {
        self.mutex.occ()
    }

    /// The protected payload.
    pub closed spec fn value(&self) -> T {
        self.data
    }

    /// The level the strategy would restore on release.
    pub closed spec fn saved_irql(&self) -> u8 {
        self.mutex.saved_irql()
    }

    /// Allocate a container around `data` with a fresh, unheld strategy.
    /// On the host platform the allocation comes from the privileged pool
    /// and exhaustion surfaces as `InsufficientResources`; the allocator
    /// here cannot report exhaustion, so construction always succeeds.
    pub fn new(data: T) -> (r: Result<Self, LockError>)
        ensures
            r is Ok,
            r->Ok_0.inv(),
            r->Ok_0.occ() is Free,
            r->Ok_0.value() == data,
    {
        Ok(Locked { mutex: M::new(), data })
    }

    /// Acquire the strategy exclusively and mint an exclusive token.
    ///
    /// The privilege-level rule is checked before any acquisition, so a
    /// refusal leaves the container and the ambient level untouched.
    pub fn lock(&mut self, cpu: &mut Cpu) -> (r: Result<MutexGuard<true>, LockError>)
        requires
            old(self).inv(),
            old(cpu).inv(),
            M::guards_occupancy() ==> old(self).occ() is Free,
        ensures
            final(self).inv(),
            final(cpu).inv(),
            final(self).value() == old(self).value(),
            r is Ok <==> M::irql_ok_spec(old(cpu).irql),
            r is Err ==> r->Err_0 == LockError::LevelNotPermitted && *final(self) == *old(self)
                && *final(cpu) == *old(cpu),
            r is Ok ==> final(self).occ() == (if M::guards_occupancy() {
                Occupancy::Exclusive
            } else {
                old(self).occ()
            }),
            r is Ok ==> final(cpu).irql == M::held_irql(old(cpu).irql),
            r is Ok && M::restores_irql() ==> final(self).saved_irql() == old(cpu).irql,
    {
        if !M::irql_ok(cpu) {
            Err(LockError::LevelNotPermitted)
        } else {
            self.mutex.lock(cpu);
            Ok(MutexGuard { _token: () })
        }
    }

    /// Acquire the strategy shared and mint a shared token.
    ///
    /// The level rule is checked first; a shared request on a strategy that is not
    /// shareable is a programming error and is refused in every trial, never
    /// silently granted.
    pub fn lock_shared(&mut self, cpu: &mut Cpu) -> (r: Result<MutexGuard<false>, LockError>)
        requires
            old(self).inv(),
            old(cpu).inv(),
            !(old(self).occ() is Exclusive),
            old(self).occ().readers() < usize::MAX,
        ensures
            final(self).inv(),
            final(cpu).inv(),
            final(cpu).irql == old(cpu).irql,
            final(self).value() == old(self).value(),
            r is Ok <==> M::irql_ok_spec(old(cpu).irql) && M::shareable_spec(),
            !M::irql_ok_spec(old(cpu).irql) ==> r->Err_0 == LockError::LevelNotPermitted
                && *final(self) == *old(self),
            M::irql_ok_spec(old(cpu).irql) && !M::shareable_spec() ==> r->Err_0
                == LockError::NotShareable && *final(self) == *old(self),
            r is Ok ==> final(self).occ() is Shared,
            r is Ok ==> final(self).occ().readers() == old(self).occ().readers() + 1,
    {
        if !M::irql_ok(cpu) {
            Err(LockError::LevelNotPermitted)
        } else if !M::shareable() {
            Err(LockError::NotShareable)
        } else {
            self.mutex.lock_shared(cpu);
            Ok(MutexGuard { _token: () })
        }
    }

    /// Read the payload through any live token.
    pub fn read<const EXCLUSIVE: bool>(&self, guard: &MutexGuard<EXCLUSIVE>) -> (r: &T)
        ensures
            *r == self.value(),
    {
        let _ = guard;
        &self.data
    }

    /// Write access to the payload, possible only through an exclusive
    /// token: a shared token cannot even be offered here.
    pub fn write(&mut self, guard: &MutexGuard<true>) -> (r: &mut T)
        ensures
            *r == old(self).value(),
            final(self).value() == *final(r),
            final(self).occ() == old(self).occ(),
            final(self).saved_irql() == old(self).saved_irql(),
            old(self).inv() ==> final(self).inv(),
    {
        let _ = guard;
        &mut self.data
    }

    /// Owner access to the payload without any acquisition; sound because it
    /// requires unique access to the whole container.
    pub fn get(&mut self) -> (r: &mut T)
        ensures
            *r == old(self).value(),
            final(self).value() == *final(r),
            final(self).occ() == old(self).occ(),
            final(self).saved_irql() == old(self).saved_irql(),
            old(self).inv() ==> final(self).inv(),
    {
        &mut self.data
    }

    /// Hand back an exclusive token, releasing the strategy and restoring
    /// the ambient level according to the strategy's discipline.
    pub fn unlock(&mut self, guard: MutexGuard<true>, cpu: &mut Cpu)
        requires
            old(self).inv(),
            old(cpu).inv(),
            M::guards_occupancy() ==> old(self).occ() is Exclusive,
        ensures
            final(self).inv(),
            final(cpu).inv(),
            final(self).value() == old(self).value(),
            final(self).occ() == (if M::guards_occupancy() {
                Occupancy::Free
            } else {
                old(self).occ()
            }),
            final(cpu).irql == M::released_irql(old(cpu).irql, old(self).saved_irql()),
    {
        let _ = guard;
        self.mutex.unlock(cpu);
    }

    /// Store `v` under the lock and hand back the previous value: one whole
    /// acquire/write/release cycle. Its contract carries the level law end
    /// to end: whatever the strategy raised for the critical section, the
    /// ambient level after the cycle is exactly the level before it.
    pub fn replace(&mut self, v: T, cpu: &mut Cpu) -> (r: Result<T, LockError>)
        requires
            old(self).inv(),
            old(cpu).inv(),
            M::guards_occupancy() ==> old(self).occ() is Free,
        ensures
            final(self).inv(),
            final(cpu).inv(),
            r is Ok <==> M::irql_ok_spec(old(cpu).irql),
            r is Err ==> r->Err_0 == LockError::LevelNotPermitted && *final(self) == *old(self)
                && *final(cpu) == *old(cpu),
            r is Ok ==> r->Ok_0 == old(self).value() && final(self).value() == v,
            r is Ok ==> final(self).occ() == (if M::guards_occupancy() {
                Occupancy::Free
            } else {
                old(self).occ()
            }),
            r is Ok ==> final(cpu).irql == old(cpu).irql,
    {
        let guard = match self.lock(cpu) {
            Ok(g) => g,
            Err(e) => {
                return Err(e);
            },
        };
        proof {
            M::lemma_level_round_trip(old(cpu).irql);
            if !M::restores_irql() {
                M::lemma_level_untouched(old(cpu).irql, self.saved_irql());
            }
        }
        let mut previous = v;
        let slot = self.write(&guard);
        mem::swap(slot, &mut previous);
        self.unlock(guard, cpu);
        Ok(previous)
    }

    /// Whether nobody holds the strategy, as an executable probe; lets an
    /// unverified caller test the acquisition precondition before locking.
    pub fn is_free(&self) -> (b: bool)
        ensures
            b == (self.occ() is Free),
    {
        self.mutex.is_free()
    }

    /// Teardown: consume the container, destroying the payload and then the
    /// strategy, in that order, before the allocation itself goes. Taking
    /// the container by value makes a second teardown unrepresentable, and
    /// nothing may hold the strategy when it is destroyed.
    pub fn teardown(self)
        requires
            self.inv(),
            M::guards_occupancy() ==> self.occ() is Free,
    {
        let Locked { mutex: _strategy, data: _payload } = self;
    }

    /// Hand back a shared token, releasing one shared acquisition.
    pub fn unlock_shared(&mut self, guard: MutexGuard<false>, cpu: &mut Cpu)
        requires
            old(self).inv(),
            old(cpu).inv(),
            M::shareable_spec(),
            old(self).occ() is Shared,
        ensures
            final(self).inv(),
            final(cpu).inv(),
            final(cpu).irql == old(cpu).irql,
            final(self).value() == old(self).value(),
            final(self).occ().readers() == old(self).occ().readers() - 1,
            old(self).occ().readers() == 1 ==> final(self).occ() is Free,
            old(self).occ().readers() > 1 ==> final(self).occ() is Shared,
    {
        let _ = guard;
        self.mutex.unlock_shared(cpu);
    }
}

/// A container over the lightweight mutex strategy.
pub type FastLocked<T> = Locked<T, FastMutex>;

/// A container over the guarded mutex strategy.
pub type GuardLocked<T> = Locked<T, GuardedMutex>;

/// A container over the shareable reader/writer strategy.
pub type ResouceLocked<T> = Locked<T, ResourceMutex>;

/// A container over the spinning strategy.
pub type SpinLocked<T> = Locked<T, SpinMutex>;

/// The caller-supplied, per-acquisition ticket record of the queued
/// strategies. It is written by the strategy during acquire and release: it
/// records that an acquisition is in flight and the ambient level observed
/// at that acquisition, so concurrent acquisitions on one strategy cannot
/// corrupt each other's saved level.
pub struct LockedQuueHandle {
    active: bool,
    saved_irql: u8,
}

impl LockedQuueHandle {
    /// Whether an acquisition through this record is in flight.
    pub closed spec fn is_active(&self) -> bool {
        self.active
    }

    /// The ambient level observed by the acquisition in flight.
    pub closed spec fn saved(&self) -> u8 {
        self.saved_irql
    }

    /// The record's internal well-formedness.
    pub closed spec fn inv(&self) -> bool {
        self.active ==> self.saved_irql <= HIGH_LEVEL
    }

    /// A fresh (zeroed) record, required before each acquisition.
    pub fn new() -> (h: Self)
        ensures
            !h.is_active(),
            h.inv(),
    {
        LockedQuueHandle { active: false, saved_irql: 0 }
    }
}

/// A locking backend whose acquisitions go through a caller-supplied,
/// stack-resident ticket record, giving arrival-order service under
/// contention.
pub trait QueuedMutex: Sized {
    /// The backend's internal well-formedness.
    spec fn inv(&self) -> bool;

    /// The model of the native control block: who holds the backend.
    spec fn occ(&self) -> Occupancy;

    /// Whether this backend enforces occupancy at all; the null variant
    /// does not.
    spec fn guards_occupancy() -> bool;

    /// The level rule: whether this strategy may legally be used at the
    /// given ambient level.
    spec fn irql_ok_spec(irql: u8) -> bool;

    /// The ambient level while the lock is held, as a function of the level
    /// observed at acquisition.
    spec fn held_irql(pre: u8) -> u8;

    /// The ambient level after release, as a function of the level before
    /// release and the level saved in the ticket.
    spec fn released_irql(cur: u8, saved: u8) -> u8;

    /// Law: a matched acquire/release pair over one ticket leaves the
    /// ambient level exactly where the acquisition found it.
    proof fn lemma_level_round_trip(pre: u8)
        requires
            Self::irql_ok_spec(pre),
            pre <= HIGH_LEVEL,
        ensures
            Self::released_irql(Self::held_irql(pre), pre) == pre,
            Self::held_irql(pre) <= HIGH_LEVEL,
    ;

    /// Create the backend state, unheld.
    fn new() -> (m: Self)
        ensures
            m.inv(),
            m.occ() is Free,
    ;

    /// The level rule, as an executable query.
    fn irql_ok(cpu: &Cpu) -> (b: bool)
        ensures
            b == Self::irql_ok_spec(cpu.irql),
    ;

    /// Whether nobody holds the backend, as an executable probe.
    fn is_free(&self) -> (b: bool)
        ensures
            b == (self.occ() is Free),
    ;

    /// Acquire exclusively through a fresh ticket record; the record leaves
    /// with the acquisition in flight and the observed level saved in it.
    fn lock(&mut self, handle: &mut LockedQuueHandle, cpu: &mut Cpu)
        requires
            old(self).inv(),
            old(handle).inv(),
            old(cpu).inv(),
            !old(handle).is_active(),
            Self::irql_ok_spec(old(cpu).irql),
            Self::guards_occupancy() ==> old(self).occ() is Free,
        ensures
            final(self).inv(),
            final(handle).inv(),
            final(cpu).inv(),
            final(self).occ() == (if Self::guards_occupancy() {
                Occupancy::Exclusive
            } else {
                old(self).occ()
            }),
            final(handle).is_active(),
            final(handle).saved() == old(cpu).irql,
            final(cpu).irql == Self::held_irql(old(cpu).irql),
    ;

    /// Release through the same ticket record, restoring the level the
    /// ticket saved and returning the record to its fresh state.
    fn unlock(&mut self, handle: &mut LockedQuueHandle, cpu: &mut Cpu)
        requires
            old(self).inv(),
            old(handle).inv(),
            old(cpu).inv(),
            old(handle).is_active(),
            Self::guards_occupancy() ==> old(self).occ() is Exclusive,
        ensures
            final(self).inv(),
            final(handle).inv(),
            final(cpu).inv(),
            final(self).occ() == (if Self::guards_occupancy() {
                Occupancy::Free
            } else {
                old(self).occ()
            }),
            !final(handle).is_active(),
            final(cpu).irql == Self::released_irql(old(cpu).irql, old(handle).saved()),
    ;
}

/// The null queued strategy: nothing is enforced beyond the ticket
/// bookkeeping. Used for testing and placeholder composition.
pub struct QueuedEmptyMutex;

impl QueuedMutex for QueuedEmptyMutex {
    open spec fn inv(&self) -> bool {
        true
    }

    open spec fn occ(&self) -> Occupancy {
        Occupancy::Free
    }

    open spec fn guards_occupancy() -> bool {
        false
    }

    open spec fn irql_ok_spec(irql: u8) -> bool {
        irql <= DISPATCH_LEVEL
    }

    open spec fn held_irql(pre: u8) -> u8 {
        pre
    }

    open spec fn released_irql(cur: u8, saved: u8) -> u8 {
        cur
    }

    proof fn lemma_level_round_trip(pre: u8) {
    }

    fn new() -> (m: Self) {
        QueuedEmptyMutex
    }

    fn irql_ok(cpu: &Cpu) -> (b: bool) {
        cpu.irql <= DISPATCH_LEVEL
    }

    fn is_free(&self) -> (b: bool) {
        true
    }

    fn lock(&mut self, handle: &mut LockedQuueHandle, cpu: &mut Cpu) {
        handle.active = true;
        handle.saved_irql = cpu.irql;
    }

    fn unlock(&mut self, handle: &mut LockedQuueHandle, _cpu: &mut Cpu) {
        handle.active = false;
    }
}

/// Busy-wait exclusive lock with arrival-order (queued) service, legal at
/// any level. The raise/restore discipline matches [`SpinMutex`], except
/// that the saved level lives in the caller's ticket record rather than in
/// the strategy, so concurrent acquisitions do not overwrite each other's
/// saved level.
pub struct QueuedSpinMutex {
    locked: bool,
}

impl QueuedMutex for QueuedSpinMutex {
    open spec fn inv(&self) -> bool {
        true
    }

    closed spec fn occ(&self) -> Occupancy {
        if self.locked {
            Occupancy::Exclusive
        } else {
            Occupancy::Free
        }
    }

    open spec fn guards_occupancy() -> bool {
        true
    }

    open spec fn irql_ok_spec(irql: u8) -> bool {
        true
    }

    open spec fn held_irql(pre: u8) -> u8 {
        if pre >= DISPATCH_LEVEL {
            pre
        } else {
            DISPATCH_LEVEL
        }
    }

    open spec fn released_irql(cur: u8, saved: u8) -> u8 {
        saved
    }

    proof fn lemma_level_round_trip(pre: u8) {
    }

    fn new() -> (m: Self) {
        QueuedSpinMutex { locked: false }
    }

    fn irql_ok(_cpu: &Cpu) -> (b: bool) {
        true
    }

    fn is_free(&self) -> (b: bool) {
        !self.locked
    }

    fn lock(&mut self, handle: &mut LockedQuueHandle, cpu: &mut Cpu) {
        handle.active = true;
        handle.saved_irql = cpu.irql;
        self.locked = true;
        if cpu.irql < DISPATCH_LEVEL {
            cpu.irql = DISPATCH_LEVEL;
        }
    }

    fn unlock(&mut self, handle: &mut LockedQuueHandle, cpu: &mut Cpu) {
        handle.active = false;
        self.locked = false;
        cpu.irql = handle.saved_irql;
    }
}

/// The exclusive access token of a [`StackQueueLocked`] container. Like
/// [`MutexGuard`], the token carries no identity tying it to the container
/// that minted it; the release call checks the container's own occupancy and
/// ticket record.
pub struct InStackMutexGuard {
    _token: (),
}

/// A protected container over a queued strategy: every acquisition takes an
/// externally supplied, per-acquisition ticket record.
pub struct StackQueueLocked<T, M: QueuedMutex> {
    mutex: M,
    data: T,
}

impl<T, M: QueuedMutex> StackQueueLocked<T, M> {
    /// The container's internal well-formedness.
    pub closed spec fn inv(&self) -> bool {
        self.mutex.inv()
    }

    /// Who holds the strategy.
    pub closed spec fn occ(&self) -> Occupancy {
        self.mutex.occ()
    }

    /// The protected payload.
    pub closed spec fn value(&self) -> T {
        self.data
    }

    /// Allocate a container around `data` with a fresh, unheld strategy.
    /// As with [`Locked::new`], pool exhaustion cannot arise here, so
    /// construction always succeeds.
    pub fn new(data: T) -> (r: Result<Self, LockError>)
        ensures
            r is Ok,
            r->Ok_0.inv(),
            r->Ok_0.occ() is Free,
            r->Ok_0.value() == data,
    {
        Ok(StackQueueLocked { mutex: M::new(), data })
    }

    /// Acquire exclusively through the given fresh ticket record.
    pub fn lock(&mut self, handle: &mut LockedQuueHandle, cpu: &mut Cpu) -> (r: Result<
        InStackMutexGuard,
        LockError,
    >)
        requires
            old(self).inv(),
            old(handle).inv(),
            old(cpu).inv(),
            !old(handle).is_active(),
            M::guards_occupancy() ==> old(self).occ() is Free,
        ensures
            final(self).inv(),
            final(handle).inv(),
            final(cpu).inv(),
            final(self).value() == old(self).value(),
            r is Ok <==> M::irql_ok_spec(old(cpu).irql),
            r is Err ==> r->Err_0 == LockError::LevelNotPermitted && *final(self) == *old(self)
                && *final(cpu) == *old(cpu) && *final(handle) == *old(handle),
            r is Ok ==> final(self).occ() == (if M::guards_occupancy() {
                Occupancy::Exclusive
            } else {
                old(self).occ()
            }),
            r is Ok ==> final(handle).is_active() && final(handle).saved() == old(cpu).irql,
            r is Ok ==> final(cpu).irql == M::held_irql(old(cpu).irql),
    {
        if !M::irql_ok(cpu) {
            Err(LockError::LevelNotPermitted)
        } else {
            self.mutex.lock(handle, cpu);
            Ok(InStackMutexGuard { _token: () })
        }
    }

    /// Read the payload through the live token.
    pub fn read(&self, guard: &InStackMutexGuard) -> (r: &T)
        ensures
            *r == self.value(),
    {
        let _ = guard;
        &self.data
    }

    /// Write access to the payload through the live token; queued
    /// acquisitions are always exclusive.
    pub fn write(&mut self, guard: &InStackMutexGuard) -> (r: &mut T)
        ensures
            *r == old(self).value(),
            final(self).value() == *final(r),
            final(self).occ() == old(self).occ(),
            old(self).inv() ==> final(self).inv(),
    {
        let _ = guard;
        &mut self.data
    }

    /// Owner access to the payload without any acquisition; sound because it
    /// requires unique access to the whole container.
    pub fn get(&mut self) -> (r: &mut T)
        ensures
            *r == old(self).value(),
            final(self).value() == *final(r),
            final(self).occ() == old(self).occ(),
            old(self).inv() ==> final(self).inv(),
    {
        &mut self.data
    }

    /// Store `v` under the lock and hand back the previous value: one whole
    /// acquire/write/release cycle through the given fresh ticket record.
    /// Its contract carries the level law end to end: the saved level lives
    /// in the ticket, and the cycle returns the ambient level exactly to
    /// where the acquisition found it.
    pub fn replace(&mut self, v: T, handle: &mut LockedQuueHandle, cpu: &mut Cpu) -> (r: Result<
        T,
        LockError,
    >)
        requires
            old(self).inv(),
            old(handle).inv(),
            old(cpu).inv(),
            !old(handle).is_active(),
            M::guards_occupancy() ==> old(self).occ() is Free,
        ensures
            final(self).inv(),
            final(handle).inv(),
            final(cpu).inv(),
            r is Ok <==> M::irql_ok_spec(old(cpu).irql),
            r is Ok ==> !final(handle).is_active(),
            r is Err ==> r->Err_0 == LockError::LevelNotPermitted && *final(self) == *old(self)
                && *final(cpu) == *old(cpu) && *final(handle) == *old(handle),
            r is Ok ==> r->Ok_0 == old(self).value() && final(self).value() == v,
            r is Ok ==> final(self).occ() == (if M::guards_occupancy() {
                Occupancy::Free
            } else {
                old(self).occ()
            }),
            r is Ok ==> final(cpu).irql == old(cpu).irql,
    {
        let guard = match self.lock(handle, cpu) {
            Ok(g) => g,
            Err(e) => {
                return Err(e);
            },
        };
        proof {
            M::lemma_level_round_trip(old(cpu).irql);
        }
        let mut previous = v;
        let slot = self.write(&guard);
        mem::swap(slot, &mut previous);
        self.unlock(guard, handle, cpu);
        Ok(previous)
    }

    /// Whether nobody holds the strategy, as an executable probe; lets an
    /// unverified caller test the acquisition precondition before locking.
    pub fn is_free(&self) -> (b: bool)
        ensures
            b == (self.occ() is Free),
    {
        self.mutex.is_free()
    }

    /// Teardown: consume the container, destroying the payload and then the
    /// strategy, in that order, before the allocation itself goes. Taking
    /// the container by value makes a second teardown unrepresentable, and
    /// nothing may hold the strategy when it is destroyed.
    pub fn teardown(self)
        requires
            self.inv(),
            M::guards_occupancy() ==> self.occ() is Free,
    {
        let StackQueueLocked { mutex: _strategy, data: _payload } = self;
    }

    /// Hand back the token, releasing through the same ticket record and
    /// restoring the level the ticket saved.
    pub fn unlock(&mut self, guard: InStackMutexGuard, handle: &mut LockedQuueHandle, cpu: &mut Cpu)
        requires
            old(self).inv(),
            old(handle).inv(),
            old(cpu).inv(),
            old(handle).is_active(),
            M::guards_occupancy() ==> old(self).occ() is Exclusive,
        ensures
            final(self).inv(),
            final(handle).inv(),
            final(cpu).inv(),
            final(self).value() == old(self).value(),
            final(self).occ() == (if M::guards_occupancy() {
                Occupancy::Free
            } else {
                old(self).occ()
            }),
            !final(handle).is_active(),
            final(cpu).irql == M::released_irql(old(cpu).irql, old(handle).saved()),
    {
        let _ = guard;
        self.mutex.unlock(handle, cpu);
    }
}

/// A container over the queued spinning strategy.
pub type InStackQueueLocked<T> = StackQueueLocked<T, QueuedSpinMutex>;

} // verus!
