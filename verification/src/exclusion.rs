//! Mutual-exclusion laws, proved over arbitrary interleavings.
//!
//! The runtime strategies are verified sequentially; what they promise a
//! concurrent caller is captured here as transition systems: a step is one
//! context's atomic action, a trace is any interleaving of enabled steps, and
//! the lemmas hold of every reachable state. Two protocols are modeled:
//!
//! * the reader/writer arbitration of the shareable strategy — shared
//!   holders never coexist with an exclusive holder, in any interleaving;
//! * the guarded counter — contexts that acquire exclusively around a
//!   load/store pair never lose an update, so the final count is exactly the
//!   number of completed increments, however the contexts interleave.

use vstd::prelude::*;

use crate::mutex::Occupancy;

verus! {

// ---------------------------------------------------------------------------
// Reader/writer arbitration
// ---------------------------------------------------------------------------

/// The arbitration state of a shareable backend: how many exclusive and how
/// many shared holders it has admitted.
pub struct RwState {
    /// Contexts holding exclusively.
    pub writers: nat,
    /// Contexts holding shared.
    pub readers: nat,
}

/// One context's atomic arbitration action.
pub enum RwStep {
    /// Admit an exclusive holder.
    AcquireExclusive,
    /// Release an exclusive holder.
    ReleaseExclusive,
    /// Admit a shared holder.
    AcquireShared,
    /// Release a shared holder.
    ReleaseShared,
}

/// The state of a fresh backend.
pub open spec fn rw_init(s: RwState) -> bool {
    s.writers == 0 && s.readers == 0
}

/// The arbitration rule: when a step may fire. Exclusive acquisition waits
/// for everybody; shared acquisition waits only for exclusive holders.
pub open spec fn rw_enabled(s: RwState, step: RwStep) -> bool {
    match step {
        RwStep::AcquireExclusive => s.writers == 0 && s.readers == 0,
        RwStep::ReleaseExclusive => s.writers >= 1,
        RwStep::AcquireShared => s.writers == 0,
        RwStep::ReleaseShared => s.readers >= 1,
    }
}

/// The effect of a step.
pub open spec fn rw_apply(s: RwState, step: RwStep) -> RwState {
    match step {
        RwStep::AcquireExclusive => RwState { writers: s.writers + 1, readers: s.readers },
        RwStep::ReleaseExclusive => RwState {
            writers: (s.writers - 1) as nat,
            readers: s.readers,
        },
        RwStep::AcquireShared => RwState { writers: s.writers, readers: s.readers + 1 },
        RwStep::ReleaseShared => RwState { writers: s.writers, readers: (s.readers - 1) as nat },
    }
}

/// A trace is valid when every step is enabled in the state it fires from.
pub open spec fn rw_valid(s: RwState, trace: Seq<RwStep>) -> bool
    decreases trace.len(),
{
    trace.len() == 0 || (rw_enabled(s, trace[0]) && rw_valid(
        rw_apply(s, trace[0]),
        trace.drop_first(),
    ))
}

/// The state a trace ends in.
pub open spec fn rw_run(s: RwState, trace: Seq<RwStep>) -> RwState
    decreases trace.len(),
{
    if trace.len() == 0 {
        s
    } else {
        rw_run(rw_apply(s, trace[0]), trace.drop_first())
    }
}

/// The arbitration invariant: at most one exclusive holder, and never an
/// exclusive holder together with a shared one.
pub open spec fn rw_inv(s: RwState) -> bool {
    s.writers <= 1 && !(s.writers >= 1 && s.readers >= 1)
}

/// Each enabled step preserves the arbitration invariant.
pub proof fn lemma_rw_step_preserves(s: RwState, step: RwStep)
    requires
        rw_inv(s),
        rw_enabled(s, step),
    ensures
        rw_inv(rw_apply(s, step)),
{
}

/// The arbitration invariant holds of every state a valid trace reaches.
pub proof fn lemma_rw_inv_preserved(s: RwState, trace: Seq<RwStep>)
    requires
        rw_inv(s),
        rw_valid(s, trace),
    ensures
        rw_inv(rw_run(s, trace)),
    decreases trace.len(),
{
    if trace.len() > 0 {
        lemma_rw_step_preserves(s, trace[0]);
        lemma_rw_inv_preserved(rw_apply(s, trace[0]), trace.drop_first());
    }
}

/// Law: however many contexts acquire and release a shareable backend, in
/// any interleaving of enabled steps, a state holding shared guards never
/// holds an exclusive guard, and a state holding an exclusive guard holds no
/// shared guard and no second exclusive guard.
pub proof fn lemma_shared_exclusive_mutual_exclusion(s0: RwState, trace: Seq<RwStep>)
    requires
        rw_init(s0),
        rw_valid(s0, trace),
    ensures
        rw_run(s0, trace).readers >= 1 ==> rw_run(s0, trace).writers == 0,
        rw_run(s0, trace).writers >= 1 ==> rw_run(s0, trace).readers == 0,
        rw_run(s0, trace).writers <= 1,
{
    lemma_rw_inv_preserved(s0, trace);
}

/// The arbitration state that an occupancy stands for.
pub open spec fn rw_view(o: Occupancy) -> RwState {
    match o {
        Occupancy::Free => RwState { writers: 0, readers: 0 },
        Occupancy::Exclusive => RwState { writers: 1, readers: 0 },
        Occupancy::Shared { readers } => RwState { writers: 0, readers: readers as nat },
    }
}

/// The runtime transitions refine the model: under exactly the conditions
/// the strategy contracts demand — a free backend for an exclusive
/// acquisition, no exclusive holder for a shared one — the corresponding
/// model step is enabled, and the occupancy the contracts ensure is the
/// step's effect.
pub proof fn lemma_occupancy_refines_arbitration(o: Occupancy)
    requires
        o.wf(),
    ensures
        o is Free ==> rw_enabled(rw_view(o), RwStep::AcquireExclusive) && rw_view(
            Occupancy::Exclusive,
        ) == rw_apply(rw_view(o), RwStep::AcquireExclusive),
        o is Exclusive ==> rw_enabled(rw_view(o), RwStep::ReleaseExclusive) && rw_view(
            Occupancy::Free,
        ) == rw_apply(rw_view(o), RwStep::ReleaseExclusive),
        !(o is Exclusive) && o.readers() < usize::MAX ==> rw_enabled(
            rw_view(o),
            RwStep::AcquireShared,
        ) && rw_view(
            Occupancy::Shared { readers: (o.readers() + 1) as usize },
        ) == rw_apply(rw_view(o), RwStep::AcquireShared),
        o is Shared && o.readers() > 1 ==> rw_enabled(rw_view(o), RwStep::ReleaseShared)
            && rw_view(
            Occupancy::Shared { readers: (o.readers() - 1) as usize },
        ) == rw_apply(rw_view(o), RwStep::ReleaseShared),
        o is Shared && o.readers() == 1 ==> rw_enabled(rw_view(o), RwStep::ReleaseShared)
            && rw_view(Occupancy::Free) == rw_apply(rw_view(o), RwStep::ReleaseShared),
{
}

// ---------------------------------------------------------------------------
// The guarded counter: no lost updates
// ---------------------------------------------------------------------------

/// A shared counter incremented by several contexts, each cycle guarded by
/// an exclusive lock. The critical section is deliberately two steps — load
/// the counter, then store the incremented value — because a lost update is
/// exactly another context's store between those two.
pub struct CounterState {
    /// Which context holds the lock, if any.
    pub holder: Option<int>,
    /// The value the holder has loaded and not yet stored back.
    pub loaded: Option<nat>,
    /// The shared counter.
    pub counter: nat,
    /// How many increments each context has completed.
    pub done: Seq<nat>,
}

/// One context's atomic action in its lock/increment/unlock cycle.
pub enum CounterStep {
    /// Take the lock (enabled only when nobody holds it).
    Acquire { ctx: int },
    /// Read the counter inside the critical section.
    Load { ctx: int },
    /// Write the incremented value back inside the critical section.
    Store { ctx: int },
    /// Hand the lock back.
    Release { ctx: int },
}

/// The initial state for `contexts` contexts: counter zero, lock free,
/// nothing completed.
pub open spec fn counter_init(s: CounterState, contexts: nat) -> bool {
    &&& s.holder is None
    &&& s.loaded is None
    &&& s.counter == 0
    &&& s.done == Seq::<nat>::new(contexts, |i: int| 0)
}

/// When a step may fire: the lock admits one holder, and load/store run only
/// under the lock, in order.
pub open spec fn counter_enabled(s: CounterState, step: CounterStep) -> bool {
    match step {
        CounterStep::Acquire { ctx } => s.holder is None && 0 <= ctx < s.done.len(),
        CounterStep::Load { ctx } => s.holder == Some(ctx) && s.loaded is None,
        CounterStep::Store { ctx } => s.holder == Some(ctx) && s.loaded is Some,
        CounterStep::Release { ctx } => s.holder == Some(ctx) && s.loaded is None,
    }
}

/// The effect of a step.
pub open spec fn counter_apply(s: CounterState, step: CounterStep) -> CounterState {
    match step {
        CounterStep::Acquire { ctx } => CounterState { holder: Some(ctx), ..s },
        CounterStep::Load { ctx } => CounterState { loaded: Some(s.counter), ..s },
        CounterStep::Store { ctx } => CounterState {
            loaded: None,
            counter: (s.loaded->Some_0 + 1) as nat,
            done: s.done.update(ctx, (s.done[ctx] + 1) as nat),
            ..s
        },
        CounterStep::Release { ctx } => CounterState { holder: None, loaded: None, ..s },
    }
}

/// A trace is valid when every step is enabled in the state it fires from.
pub open spec fn counter_valid(s: CounterState, trace: Seq<CounterStep>) -> bool
    decreases trace.len(),
{
    trace.len() == 0 || (counter_enabled(s, trace[0]) && counter_valid(
        counter_apply(s, trace[0]),
        trace.drop_first(),
    ))
}

/// The state a trace ends in.
pub open spec fn counter_run(s: CounterState, trace: Seq<CounterStep>) -> CounterState
    decreases trace.len(),
{
    if trace.len() == 0 {
        s
    } else {
        counter_run(counter_apply(s, trace[0]), trace.drop_first())
    }
}

/// The sum of a sequence of counts.
pub open spec fn seq_sum(s: Seq<nat>) -> nat
    decreases s.len(),
{
    if s.len() == 0 {
        0
    } else {
        (s[0] + seq_sum(s.drop_first())) as nat
    }
}

/// Updating one element moves the sum by the difference.
pub proof fn lemma_seq_sum_update(s: Seq<nat>, i: int, v: nat)
    requires
        0 <= i < s.len(),
    ensures
        seq_sum(s.update(i, v)) + s[i] == seq_sum(s) + v,
    decreases s.len(),
{
    if i == 0 {
        assert(s.update(0, v).drop_first() =~= s.drop_first());
    } else {
        assert(s.update(i, v).drop_first() =~= s.drop_first().update(i - 1, v));
        lemma_seq_sum_update(s.drop_first(), i - 1, v);
    }
}

/// The sum of a constant sequence.
pub proof fn lemma_seq_sum_const(len: nat, v: nat)
    ensures
        seq_sum(Seq::<nat>::new(len, |i: int| v)) == len * v,
    decreases len,
{
    let s = Seq::<nat>::new(len, |i: int| v);
    if len == 0 {
        assert(len * v == 0) by (nonlinear_arith)
            requires
                len == 0,
        ;
    } else {
        assert(s.drop_first() =~= Seq::<nat>::new((len - 1) as nat, |i: int| v));
        lemma_seq_sum_const((len - 1) as nat, v);
        assert(v + (len - 1) * v == len * v) by (nonlinear_arith);
    }
}

/// The inductive invariant: the counter equals the total of completed
/// increments, and a loaded value is never stale — nobody can store between
/// a holder's load and its store, because storing needs the lock.
pub open spec fn counter_inv(s: CounterState) -> bool {
    &&& s.counter == seq_sum(s.done)
    &&& (s.loaded matches Some(v) ==> s.holder is Some && v == s.counter)
    &&& (s.holder is None ==> s.loaded is None)
    &&& (s.holder matches Some(c) ==> 0 <= c < s.done.len())
}

/// Each enabled step preserves the counter invariant.
pub proof fn lemma_counter_step_preserves(s: CounterState, step: CounterStep)
    requires
        counter_inv(s),
        counter_enabled(s, step),
    ensures
        counter_inv(counter_apply(s, step)),
{
    match step {
        CounterStep::Store { ctx } => {
            lemma_seq_sum_update(s.done, ctx, (s.done[ctx] + 1) as nat);
        },
        _ => {},
    }
}

/// The counter invariant holds of every state a valid trace reaches, and a
/// trace never changes how many contexts there are.
pub proof fn lemma_counter_inv_preserved(s: CounterState, trace: Seq<CounterStep>)
    requires
        counter_inv(s),
        counter_valid(s, trace),
    ensures
        counter_inv(counter_run(s, trace)),
        counter_run(s, trace).done.len() == s.done.len(),
    decreases trace.len(),
{
    if trace.len() > 0 {
        lemma_counter_step_preserves(s, trace[0]);
        lemma_counter_inv_preserved(counter_apply(s, trace[0]), trace.drop_first());
    }
}

/// Law: in any interleaving of enabled steps by any number of contexts, the
/// counter equals the total number of completed increments — holding the
/// lock across the load/store pair loses no update. In particular, when
/// every one of the `contexts` contexts has completed `n` cycles, the
/// counter is exactly `n * contexts`.
pub proof fn lemma_no_lost_updates(
    s0: CounterState,
    trace: Seq<CounterStep>,
    contexts: nat,
    n: nat,
)
    requires
        counter_init(s0, contexts),
        counter_valid(s0, trace),
        forall|i: int| 0 <= i < contexts ==> counter_run(s0, trace).done[i] == n,
    ensures
        counter_run(s0, trace).counter == seq_sum(counter_run(s0, trace).done),
        counter_run(s0, trace).counter == n * contexts,
{
    lemma_seq_sum_const(contexts, 0);
    assert(contexts * 0 == 0) by (nonlinear_arith);
    lemma_counter_inv_preserved(s0, trace);
    let end = counter_run(s0, trace);
    assert(end.done =~= Seq::<nat>::new(contexts, |i: int| n));
    lemma_seq_sum_const(contexts, n);
    assert(contexts * n == n * contexts) by (nonlinear_arith);
}

} // verus!
