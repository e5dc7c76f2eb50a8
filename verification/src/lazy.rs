//! One-time initialization: cells and lazy values that are written once and
//! then only read, with explicit, caller-driven teardown in place of the
//! destructor this runtime never calls.
//!
//! * [`OnceCell`] — a write-once cell whose initialization the caller
//!   serializes (a single-writer machine with no mid-transition state).
//! * [`OnceLock`] — the concurrent-safe write-once machine: on the host
//!   platform the `Uninitialized -> Initializing -> Initialized` transition
//!   is claimed by one winning compare-and-swap and published with
//!   release/acquire ordering; here the same three-state machine is verified
//!   sequentially, and the cross-context exactly-once law is proved over
//!   arbitrary interleavings in [`crate::once_protocol`].
//! * [`LazyCell`] / [`LazyLock`] — the same two machines holding their
//!   initializer function until first use.
//!
//! Teardown is explicit and at most once; what teardown leaves behind is a
//! retired (poisoned) state that the contracts exclude from every later
//! access: misuse is ruled out by precondition here, where a runtime
//! implementation would treat it as a fatal error.

use core::mem;
use vstd::pervasive::unreached;
use vstd::prelude::*;

verus! {

/// The single-writer write-once machine state.
enum OnceState<T> {
    /// Nothing written yet.
    Uninit,
    /// Mid-transition: the winning context is computing the value. Never
    /// observable at rest.
    Initializing,
    /// The value is published.
    Ready(T),
    /// Torn down; every access but the initialization probe is out of
    /// contract from here on.
    Retired,
}

/// A cell which can be written only once, for values whose initialization
/// the caller serializes (for instance during module entry). Reading is safe
/// from any number of contexts once the value is published.
pub struct OnceCell<T> {
    inner: Option<T>,
}

impl<T> OnceCell<T> {
    /// The published value, if any.
    pub closed spec fn value_opt(&self) -> Option<T> {
        self.inner
    }

    /// Whether a value has been published.
    pub open spec fn is_initialized(&self) -> bool {
        self.value_opt() is Some
    }

    /// The published value.
    pub open spec fn value(&self) -> T {
        self.value_opt()->Some_0
    }

    /// An empty cell.
    pub fn new() -> (c: Self)
        ensures
            !c.is_initialized(),
    {
        OnceCell { inner: None }
    }

    /// Read the published value without forcing anything: present or absent.
    pub fn get(&self) -> (r: Option<&T>)
        ensures
            r is Some <==> self.is_initialized(),
            r matches Some(v) ==> *v == self.value(),
    {
        self.inner.as_ref()
    }

    /// Publish `value` if nothing is published yet; otherwise hand `value`
    /// back unchanged and leave the cell exactly as it was.
    pub fn set(&mut self, value: T) -> (r: Result<(), T>)
        ensures
            !old(self).is_initialized() ==> r is Ok && final(self).value_opt() == Some(value),
            old(self).is_initialized() ==> r is Err && r->Err_0 == value && *final(self) == *old(
                self,
            ),
    {
        match &self.inner {
            Some(_) => Err(value),
            None => {
                self.inner = Some(value);
                Ok(())
            },
        }
    }

    /// Return the published value, running `f` to publish it first if
    /// nothing is published yet. A call on an already-initialized cell is
    /// the fast path: it returns the existing value and leaves the cell
    /// (and the never-invoked `f`) untouched.
    pub fn get_or_init<F: FnOnce() -> T>(&mut self, f: F) -> (r: Option<&T>)
        requires
            !old(self).is_initialized() ==> call_requires(f, ()),
        ensures
            final(self).is_initialized(),
            r is Some,
            r matches Some(v) ==> *v == final(self).value(),
            old(self).is_initialized() ==> *final(self) == *old(self),
            !old(self).is_initialized() ==> call_ensures(f, (), final(self).value()),
    {
        match &self.inner {
            Some(_) => {},
            None => {
                let value = f();
                self.inner = Some(value);
            },
        }
        self.inner.as_ref()
    }

    /// Remove and return the published value, leaving the cell empty.
    pub fn take(&mut self) -> (r: Option<T>)
        ensures
            r == old(self).value_opt(),
            !final(self).is_initialized(),
    {
        let mut tmp: Option<T> = None;
        mem::swap(&mut self.inner, &mut tmp);
        tmp
    }

    /// Mutable probe: the published value, if any, for writing. Sound
    /// without any acquisition because it requires unique access to the
    /// whole cell.
    pub fn get_mut(&mut self) -> (r: Option<&mut T>)
        ensures
            r is Some <==> old(self).is_initialized(),
            !old(self).is_initialized() ==> *final(self) == *old(self),
            old(self).is_initialized() ==> *r.unwrap() == old(self).value(),
            old(self).is_initialized() ==> final(self).value_opt() == Some(*final(r.unwrap())),
    {
        self.inner.as_mut()
    }

    /// Consume the cell and return the published value, if any.
    pub fn into_inner(self) -> (r: Option<T>)
        ensures
            r == self.value_opt(),
    {
        self.inner
    }

    /// Teardown: destroy the published value, leaving the cell empty.
    pub fn drop(this: &mut OnceCell<T>)
        ensures
            !final(this).is_initialized(),
    {
        this.inner = None;
    }
}

/// A write-once value safe to initialize from concurrent contexts. On the
/// host platform the state transitions are a compare-and-swap protocol and
/// losers spin until the winner publishes; in this sequential model the same
/// machine runs to completion inside each call, and the interleaved protocol
/// is covered by [`crate::once_protocol`].
pub struct OnceLock<T> {
    state: OnceState<T>,
}

impl<T> OnceLock<T> {
    /// Whether nothing has been written yet.
    pub closed spec fn is_uninit(&self) -> bool {
        self.state is Uninit
    }

    /// Whether the machine is mid-transition; never true at rest.
    pub closed spec fn is_initializing(&self) -> bool {
        self.state is Initializing
    }

    /// Whether the value is published.
    pub closed spec fn is_ready(&self) -> bool {
        self.state is Ready
    }

    /// Whether the value was torn down.
    pub closed spec fn is_retired(&self) -> bool {
        self.state is Retired
    }

    /// The published value.
    pub closed spec fn value(&self) -> T {
        self.state->Ready_0
    }

    /// At rest the machine is never mid-transition.
    pub open spec fn wf(&self) -> bool {
        !self.is_initializing()
    }

    /// An empty machine.
    pub fn new() -> (l: Self)
        ensures
            l.wf(),
            l.is_uninit(),
            !l.is_retired(),
            !l.is_ready(),
    {
        OnceLock { state: OnceState::Uninit }
    }

    /// The non-blocking probe: whether the value is published. Usable even
    /// after teardown.
    pub fn is_initialized(&self) -> (b: bool)
        ensures
            b == self.is_ready(),
    {
        match &self.state {
            OnceState::Ready(_) => true,
            _ => false,
        }
    }

    /// Read the published value without forcing anything.
    pub fn get(&self) -> (r: Option<&T>)
        requires
            self.wf(),
            !self.is_retired(),
        ensures
            r is Some <==> self.is_ready(),
            r matches Some(v) ==> *v == self.value(),
    {
        match &self.state {
            OnceState::Ready(v) => Some(v),
            _ => None,
        }
    }

    /// Mutable probe: the published value, if any, for writing. Sound
    /// without any acquisition because it requires unique access to the
    /// whole machine.
    pub fn get_mut(&mut self) -> (r: Option<&mut T>)
        requires
            old(self).wf(),
            !old(self).is_retired(),
        ensures
            r is Some <==> old(self).is_ready(),
            !old(self).is_ready() ==> *final(self) == *old(self),
            old(self).is_ready() ==> *r.unwrap() == old(self).value() && final(self).is_ready()
                && final(self).value() == *final(r.unwrap()),
    {
        match &mut self.state {
            OnceState::Ready(v) => Some(v),
            _ => None,
        }
    }

    /// Publish `value` if nothing is published yet; otherwise hand `value`
    /// back unchanged and leave the machine (and its state) untouched.
    pub fn set(&mut self, value: T) -> (r: Result<(), T>)
        requires
            old(self).wf(),
            !old(self).is_retired(),
        ensures
            final(self).wf(),
            !final(self).is_retired(),
            !final(self).is_uninit(),
            final(self).is_ready(),
            old(self).is_ready() ==> r is Err && r->Err_0 == value && *final(self) == *old(self),
            old(self).is_uninit() ==> r is Ok && final(self).is_ready() && final(self).value()
                == value,
    {
        let initialized = self.is_initialized();
        if initialized {
            return Err(value);
        }
        let produce = move || -> (t: T)
            ensures
                t == value,
            { value };
        self.init_once(produce);
        Ok(())
    }

    /// Return the published value, running `f` to publish it first if
    /// nothing is published yet. A call on an already-initialized machine
    /// never invokes the initializer and returns on its fast path, leaving
    /// the machine untouched.
    pub fn get_or_init<F: FnOnce() -> T>(&mut self, f: F) -> (r: Option<&T>)
        requires
            old(self).wf(),
            !old(self).is_retired(),
            old(self).is_uninit() ==> call_requires(f, ()),
        ensures
            final(self).wf(),
            !final(self).is_retired(),
            !final(self).is_uninit(),
            final(self).is_ready(),
            r is Some,
            r matches Some(v) ==> *v == final(self).value(),
            old(self).is_ready() ==> *final(self) == *old(self),
            old(self).is_uninit() ==> call_ensures(f, (), final(self).value()),
    {
        let initialized = self.is_initialized();
        if initialized {
            match &self.state {
                OnceState::Ready(v) => Some(v),
                _ => unreached(),
            }
        } else {
            Some(self.init_once(f))
        }
    }

    /// The winner's path of the write-once protocol: claim the transition,
    /// compute the value, publish it. On the host platform the claim is a
    /// compare-and-swap and the publication is ordered release/acquire after
    /// the payload write, which is what lets every reader of the published
    /// state see the payload.
    fn init_once<F: FnOnce() -> T>(&mut self, f: F) -> (r: &T)
        requires
            old(self).is_uninit(),
            call_requires(f, ()),
        ensures
            final(self).is_ready(),
            call_ensures(f, (), final(self).value()),
            *r == final(self).value(),
    {
        self.state = OnceState::Initializing;
        let value = f();
        self.state = OnceState::Ready(value);
        match &self.state {
            OnceState::Ready(v) => v,
            _ => unreached(),
        }
    }

    /// Remove and return the published value, resetting the machine to
    /// empty; nothing to remove leaves it untouched.
    pub fn take(&mut self) -> (r: Option<T>)
        requires
            old(self).wf(),
            !old(self).is_retired(),
        ensures
            final(self).wf(),
            !final(self).is_retired(),
            old(self).is_ready() ==> r == Some(old(self).value()) && final(self).is_uninit(),
            old(self).is_uninit() ==> r is None && final(self).is_uninit(),
    {
        let mut tmp = OnceState::Uninit;
        mem::swap(&mut self.state, &mut tmp);
        match tmp {
            OnceState::Ready(v) => Some(v),
            OnceState::Uninit => None,
            _ => unreached(),
        }
    }

    /// Return the published value. On the host platform a context that
    /// observes the transition in flight spins here with the processor's
    /// yield hint until the winner publishes; with the machine already
    /// published — which the precondition states — the wait ends on its
    /// first test.
    pub fn wait(&self) -> (r: &T)
        requires
            self.is_ready(),
        ensures
            *r == self.value(),
    {
        match &self.state {
            OnceState::Ready(v) => v,
            _ => unreached(),
        }
    }

    /// Teardown: destroy the published value and retire the machine. At most
    /// one call, on a machine no other context is concurrently forcing;
    /// every later access except the initialization probe is out of
    /// contract.
    pub fn drop(this: &mut OnceLock<T>)
        requires
            old(this).wf(),
            !old(this).is_retired(),
        ensures
            final(this).is_retired(),
            !final(this).is_ready(),
    {
        this.state = OnceState::Retired;
    }
}

/// The concurrent-safe lazy machine state: the pending initializer and the
/// published value share the storage, as a tagged variant.
enum LazyState<T, F> {
    /// The initializer is waiting to run.
    Pending(F),
    /// Mid-transition: the winning context is running the initializer.
    /// Never observable at rest.
    Initializing,
    /// The computed value is published.
    Ready(T),
    /// Torn down; every later access is out of contract.
    Retired,
}

/// A value initialized on first access, safe to force from concurrent
/// contexts. The machine is [`OnceLock`]'s, holding the initializer function
/// until the winning context consumes it; the cross-context exactly-once law
/// is proved in [`crate::once_protocol`].
pub struct LazyLock<T, F> {
    state: LazyState<T, F>,
}

impl<T, F: FnOnce() -> T> LazyLock<T, F> {
    /// Whether the initializer is still pending.
    pub closed spec fn is_pending(&self) -> bool {
        self.state is Pending
    }

    /// Whether the machine is mid-transition; never true at rest.
    pub closed spec fn is_initializing(&self) -> bool {
        self.state is Initializing
    }

    /// Whether the value is published.
    pub closed spec fn is_ready(&self) -> bool {
        self.state is Ready
    }

    /// Whether the machine was torn down.
    pub closed spec fn is_retired(&self) -> bool {
        self.state is Retired
    }

    /// The published value.
    pub closed spec fn value(&self) -> T {
        self.state->Ready_0
    }

    /// The pending initializer.
    pub closed spec fn initializer(&self) -> F {
        self.state->Pending_0
    }

    /// At rest the machine is never mid-transition.
    pub open spec fn wf(&self) -> bool {
        !self.is_initializing()
    }

    /// A machine holding `f`, to be run by whichever context forces first.
    pub fn new(f: F) -> (l: Self)
        ensures
            l.wf(),
            l.is_pending(),
            !l.is_retired(),
            !l.is_ready(),
            l.initializer() == f,
    {
        LazyLock { state: LazyState::Pending(f) }
    }

    /// Read the published value without forcing anything: present or absent.
    pub fn get(&self) -> (r: Option<&T>)
        requires
            self.wf(),
            !self.is_retired(),
        ensures
            r is Some <==> self.is_ready(),
            r matches Some(v) ==> *v == self.value(),
    {
        match &self.state {
            LazyState::Ready(v) => Some(v),
            _ => None,
        }
    }

    /// Mutable probe: the published value, if any, for writing. Sound
    /// without any acquisition because it requires unique access to the
    /// whole machine.
    pub fn get_mut(&mut self) -> (r: Option<&mut T>)
        requires
            old(self).wf(),
            !old(self).is_retired(),
        ensures
            final(self).wf(),
            !final(self).is_retired(),
            r is Some <==> old(self).is_ready(),
            !old(self).is_ready() ==> *final(self) == *old(self),
            old(self).is_ready() ==> *r.unwrap() == old(self).value(),
            old(self).is_ready() ==> final(self).is_ready() && !final(self).is_pending(),
            old(self).is_ready() ==> final(self).value() == *final(r.unwrap()),
    {
        match &mut self.state {
            LazyState::Ready(v) => Some(v),
            _ => None,
        }
    }

    /// Force the value: return it if published; otherwise run the pending
    /// initializer, publish its result and return it. Forcing an
    /// already-published machine never re-invokes the initializer (which was
    /// consumed publishing it) and returns on its fast path, leaving the
    /// machine untouched.
    pub fn force(this: &mut LazyLock<T, F>) -> (r: &T)
        requires
            old(this).wf(),
            !old(this).is_retired(),
            old(this).is_pending() ==> call_requires(old(this).initializer(), ()),
        ensures
            final(this).wf(),
            final(this).is_ready(),
            !final(this).is_pending(),
            !final(this).is_retired(),
            *r == final(this).value(),
            old(this).is_ready() ==> *final(this) == *old(this),
            old(this).is_pending() ==> call_ensures(old(this).initializer(), (), final(this).value()),
    {
        let ready = match &this.state {
            LazyState::Ready(_) => true,
            _ => false,
        };
        if !ready {
            LazyLock::really_init(this);
        }
        match &this.state {
            LazyState::Ready(v) => v,
            _ => unreached(),
        }
    }

    /// The winner's path: claim the transition (on the host platform, the
    /// compare-and-swap from uninitialized to initializing), consume the
    /// initializer, run it, publish the result.
    fn really_init(this: &mut LazyLock<T, F>)
        requires
            old(this).is_pending(),
            call_requires(old(this).initializer(), ()),
        ensures
            final(this).is_ready(),
            call_ensures(old(this).initializer(), (), final(this).value()),
    {
        let mut taken = LazyState::Initializing;
        mem::swap(&mut this.state, &mut taken);
        match taken {
            LazyState::Pending(f) => {
                let value = f();
                this.state = LazyState::Ready(value);
            },
            _ => unreached(),
        }
    }

    /// Return the published value after the machine's wait path. On the host
    /// platform this spins with the processor's yield hint until the winning
    /// context publishes; with the value already published — which the
    /// precondition states — the wait ends on its first test.
    pub fn force_wait(&self) -> (r: &T)
        requires
            self.is_ready(),
        ensures
            *r == self.value(),
    {
        self.wait();
        match &self.state {
            LazyState::Ready(v) => v,
            _ => unreached(),
        }
    }

    /// The wait path itself: spin until the value is published. The
    /// precondition states exactly the published state in which the spin
    /// exits, so the sequential body is the loop's final test.
    pub fn wait(&self)
        requires
            self.is_ready(),
    {
    }

    /// Teardown: destroy the published value, or the never-run initializer,
    /// and retire the machine. At most one call; every later access is out
    /// of contract, matching a runtime that never destroys process-wide
    /// state implicitly.
    pub fn drop(this: &mut LazyLock<T, F>)
        requires
            old(this).wf(),
            !old(this).is_retired(),
        ensures
            final(this).is_retired(),
            !final(this).is_ready(),
    {
        this.state = LazyState::Retired;
    }
}

/// The single-writer lazy machine state: pending initializer, published
/// value, or poisoned.
enum CellState<T, F> {
    /// The initializer is waiting to run.
    Uninit(F),
    /// The computed value is published.
    Init(T),
    /// Torn down (or mid-initialization); any further force is a
    /// contract violation.
    Poisoned,
}

/// A value initialized on first access, for callers who serialize the first
/// force themselves (for instance during module entry). Reading is safe from
/// any number of contexts once the value is published. Unlike [`LazyLock`]
/// there is no mid-transition state to arbitrate: the machine is poisoned
/// while the initializer runs and on teardown, and a poisoned machine
/// refuses every further force by contract.
pub struct LazyCell<T, F> {
    state: CellState<T, F>,
}

impl<T, F: FnOnce() -> T> LazyCell<T, F> {
    /// Whether the initializer is still pending.
    pub closed spec fn is_uninit(&self) -> bool {
        self.state is Uninit
    }

    /// Whether the value is published.
    pub closed spec fn is_init(&self) -> bool {
        self.state is Init
    }

    /// Whether the machine is poisoned.
    pub closed spec fn is_poisoned(&self) -> bool {
        self.state is Poisoned
    }

    /// The published value.
    pub closed spec fn value(&self) -> T {
        self.state->Init_0
    }

    /// The pending initializer.
    pub closed spec fn initializer(&self) -> F {
        self.state->Uninit_0
    }

    /// A machine holding `f`, to be run on the first force.
    pub fn new(f: F) -> (l: Self)
        ensures
            l.is_uninit(),
            !l.is_poisoned(),
            !l.is_init(),
            l.initializer() == f,
    {
        LazyCell { state: CellState::Uninit(f) }
    }

    /// Consume the machine: the published value if it ran, otherwise the
    /// never-run initializer.
    pub fn into_inner(this: LazyCell<T, F>) -> (r: Result<T, F>)
        requires
            !this.is_poisoned(),
        ensures
            this.is_init() ==> r is Ok && r->Ok_0 == this.value(),
            this.is_uninit() ==> r is Err && r->Err_0 == this.initializer(),
    {
        match this.state {
            CellState::Init(v) => Ok(v),
            CellState::Uninit(f) => Err(f),
            CellState::Poisoned => unreached(),
        }
    }

    /// Read the published value without forcing anything: present or absent.
    /// Total: a poisoned machine merely reads as absent.
    pub fn get(&self) -> (r: Option<&T>)
        ensures
            r is Some <==> self.is_init(),
            r matches Some(v) ==> *v == self.value(),
            self.is_init() ==> !self.is_poisoned() && !self.is_uninit(),
    {
        match &self.state {
            CellState::Init(v) => Some(v),
            _ => None,
        }
    }

    /// Mutable probe: the published value, if any, for writing. Total, like
    /// [`LazyCell::get`], and sound without any acquisition because it
    /// requires unique access to the whole machine.
    pub fn get_mut(&mut self) -> (r: Option<&mut T>)
        ensures
            r is Some <==> old(self).is_init(),
            !old(self).is_init() ==> *final(self) == *old(self),
            old(self).is_init() ==> !final(self).is_poisoned() && !final(self).is_uninit(),
            old(self).is_init() ==> *r.unwrap() == old(self).value(),
            old(self).is_init() ==> final(self).is_init(),
            old(self).is_init() ==> final(self).value() == *final(r.unwrap()),
    {
        match &mut self.state {
            CellState::Init(v) => Some(v),
            _ => None,
        }
    }

    /// Force the value: return it if published; otherwise run the pending
    /// initializer and publish its result. The caller serializes first
    /// forces; forcing a poisoned machine is out of contract (on the host
    /// platform it is an immediate fatal error, not undefined behaviour).
    pub fn force(this: &mut LazyCell<T, F>) -> (r: &T)
        requires
            !old(this).is_poisoned(),
            old(this).is_uninit() ==> call_requires(old(this).initializer(), ()),
        ensures
            final(this).is_init(),
            !final(this).is_uninit(),
            !final(this).is_poisoned(),
            *r == final(this).value(),
            old(this).is_init() ==> *final(this) == *old(this),
            old(this).is_uninit() ==> call_ensures(old(this).initializer(), (), final(this).value()),
    {
        let ready = match &this.state {
            CellState::Init(_) => true,
            _ => false,
        };
        if !ready {
            LazyCell::really_init(this);
        }
        match &this.state {
            CellState::Init(v) => v,
            _ => unreached(),
        }
    }

    /// Force the value and hand out mutable access to it, under the same
    /// contract as [`LazyCell::force`].
    pub fn force_mut(this: &mut LazyCell<T, F>) -> (r: &mut T)
        requires
            !old(this).is_poisoned(),
            old(this).is_uninit() ==> call_requires(old(this).initializer(), ()),
        ensures
            old(this).is_init() ==> *r == old(this).value(),
            old(this).is_uninit() ==> call_ensures(old(this).initializer(), (), *r),
            final(this).is_init(),
            !final(this).is_uninit(),
            !final(this).is_poisoned(),
            final(this).value() == *final(r),
    {
        let ready = match &this.state {
            CellState::Init(_) => true,
            _ => false,
        };
        if !ready {
            LazyCell::really_init_mut(this);
        }
        match &mut this.state {
            CellState::Init(v) => v,
            _ => unreached(),
        }
    }

    /// Run the pending initializer and publish its result. The machine is
    /// poisoned while the initializer runs: a force that never returns
    /// leaves it refusing every further force.
    fn really_init(this: &mut LazyCell<T, F>)
        requires
            old(this).is_uninit(),
            call_requires(old(this).initializer(), ()),
        ensures
            final(this).is_init(),
            call_ensures(old(this).initializer(), (), final(this).value()),
    {
        let mut taken = CellState::Poisoned;
        mem::swap(&mut this.state, &mut taken);
        match taken {
            CellState::Uninit(f) => {
                let value = f();
                this.state = CellState::Init(value);
            },
            _ => unreached(),
        }
    }

    /// As [`LazyCell::really_init`], on the mutable-force path.
    fn really_init_mut(this: &mut LazyCell<T, F>)
        requires
            old(this).is_uninit(),
            call_requires(old(this).initializer(), ()),
        ensures
            final(this).is_init(),
            call_ensures(old(this).initializer(), (), final(this).value()),
    {
        let mut taken = CellState::Poisoned;
        mem::swap(&mut this.state, &mut taken);
        match taken {
            CellState::Uninit(f) => {
                let value = f();
                this.state = CellState::Init(value);
            },
            _ => unreached(),
        }
    }

    /// Teardown: destroy the published value, or the never-run initializer,
    /// and poison the machine. A second teardown is out of contract.
    pub fn drop(this: &mut LazyCell<T, F>)
        requires
            !old(this).is_poisoned(),
        ensures
            final(this).is_poisoned(),
            !final(this).is_init(),
    {
        this.state = CellState::Poisoned;
    }
}

} // verus!
