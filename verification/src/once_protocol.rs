//! The concurrent write-once protocol, proved over arbitrary interleavings.
//!
//! [`crate::lazy::OnceLock`] and [`crate::lazy::LazyLock`] run this machine:
//! a context claims the `Uninitialized -> Initializing` transition (on the
//! host platform, by winning a compare-and-swap), runs the initializer, and
//! publishes; every other context waits for the publication and then reads.
//! The lemmas here state the protocol's laws over every interleaving of any
//! number of contexts: the claim happens at most once, the initializer body
//! runs at most once — exactly once by publication time — and all contexts
//! observe one and the same published value.

use vstd::prelude::*;

verus! {

/// Where the write-once machine stands.
pub enum OncePhase {
    /// Nothing written yet.
    Uninit,
    /// `winner` claimed the transition; `ran` records whether its
    /// initializer has produced the value yet.
    Initializing { winner: int, ran: bool },
    /// The value is published.
    Initialized,
}

/// The protocol state shared by all contexts.
pub struct OnceModel {
    /// Where the machine stands.
    pub phase: OncePhase,
    /// How many times an initializer body has run.
    pub runs: nat,
    /// The value the winner produced, once it ran.
    pub value: Option<int>,
    /// What each context that finished its force has read.
    pub observed: Map<int, int>,
}

/// One context's atomic protocol action.
pub enum OnceStep {
    /// Win the compare-and-swap that claims the transition.
    Claim { ctx: int },
    /// Run the initializer, producing `v`.
    Run { ctx: int, v: int },
    /// Publish the produced value.
    Publish { ctx: int },
    /// Read the published value after the publication.
    Observe { ctx: int },
}

/// A fresh machine: unclaimed, nothing run, nothing observed.
pub open spec fn once_init(s: OnceModel) -> bool {
    &&& s.phase is Uninit
    &&& s.runs == 0
    &&& s.value is None
    &&& forall|c: int| !s.observed.contains_key(c)
}

/// When a step may fire. Only the claim's winner may run and publish, and
/// reading waits for the publication.
pub open spec fn once_enabled(s: OnceModel, step: OnceStep) -> bool {
    match step {
        OnceStep::Claim { ctx } => s.phase is Uninit,
        OnceStep::Run { ctx, v } => s.phase == (OncePhase::Initializing { winner: ctx, ran: false
        }),
        OnceStep::Publish { ctx } => s.phase == (OncePhase::Initializing { winner: ctx, ran: true
        }),
        OnceStep::Observe { ctx } => s.phase is Initialized,
    }
}

/// The effect of a step.
pub open spec fn once_apply(s: OnceModel, step: OnceStep) -> OnceModel {
    match step {
        OnceStep::Claim { ctx } => OnceModel {
            phase: OncePhase::Initializing { winner: ctx, ran: false },
            ..s
        },
        OnceStep::Run { ctx, v } => OnceModel {
            phase: OncePhase::Initializing { winner: ctx, ran: true },
            runs: s.runs + 1,
            value: Some(v),
            ..s
        },
        OnceStep::Publish { ctx } => OnceModel { phase: OncePhase::Initialized, ..s },
        OnceStep::Observe { ctx } => OnceModel {
            observed: s.observed.insert(ctx, s.value->Some_0),
            ..s
        },
    }
}

/// A trace is valid when every step is enabled in the state it fires from.
pub open spec fn once_valid(s: OnceModel, trace: Seq<OnceStep>) -> bool
    decreases trace.len(),
{
    trace.len() == 0 || (once_enabled(s, trace[0]) && once_valid(
        once_apply(s, trace[0]),
        trace.drop_first(),
    ))
}

/// The state a trace ends in.
pub open spec fn once_run(s: OnceModel, trace: Seq<OnceStep>) -> OnceModel
    decreases trace.len(),
{
    if trace.len() == 0 {
        s
    } else {
        once_run(once_apply(s, trace[0]), trace.drop_first())
    }
}

/// How many claims a trace contains.
pub open spec fn count_claims(trace: Seq<OnceStep>) -> nat
    decreases trace.len(),
{
    if trace.len() == 0 {
        0
    } else {
        (if trace[0] is Claim {
            1nat
        } else {
            0nat
        }) + count_claims(trace.drop_first())
    }
}

/// The inductive invariant: the run count follows the phase, the value is
/// present from the moment the initializer ran, nothing is observed before
/// the publication, and everything observed is the produced value.
pub open spec fn once_inv(s: OnceModel) -> bool {
    &&& s.runs == (match s.phase {
        OncePhase::Uninit => 0nat,
        OncePhase::Initializing { winner, ran } => if ran {
            1nat
        } else {
            0nat
        },
        OncePhase::Initialized => 1nat,
    })
    &&& (s.phase matches OncePhase::Initializing { winner, ran } && ran ==> s.value is Some)
    &&& (s.phase is Initialized ==> s.value is Some)
    &&& (!(s.phase is Initialized) ==> forall|c: int| !s.observed.contains_key(c))
    &&& (forall|c: int| s.observed.contains_key(c) ==> s.value is Some && #[trigger] s.observed[c]
        == s.value->Some_0)
}

/// Each enabled step preserves the invariant.
pub proof fn lemma_once_step_preserves(s: OnceModel, step: OnceStep)
    requires
        once_inv(s),
        once_enabled(s, step),
    ensures
        once_inv(once_apply(s, step)),
{
}

/// The invariant holds of every state a valid trace reaches.
pub proof fn lemma_once_inv_preserved(s: OnceModel, trace: Seq<OnceStep>)
    requires
        once_inv(s),
        once_valid(s, trace),
    ensures
        once_inv(once_run(s, trace)),
    decreases trace.len(),
{
    if trace.len() > 0 {
        lemma_once_step_preserves(s, trace[0]);
        lemma_once_inv_preserved(once_apply(s, trace[0]), trace.drop_first());
    }
}

/// Once the machine has left its unclaimed phase it never returns to it, so
/// no later step of a valid trace can be a claim.
pub proof fn lemma_no_claim_after(s: OnceModel, trace: Seq<OnceStep>)
    requires
        !(s.phase is Uninit),
        once_valid(s, trace),
    ensures
        count_claims(trace) == 0,
    decreases trace.len(),
{
    if trace.len() > 0 {
        lemma_no_claim_after(once_apply(s, trace[0]), trace.drop_first());
    }
}

/// Law: across any number of contexts forcing concurrently, in any
/// interleaving of enabled steps from a fresh machine, the claiming
/// transition is won at most once, the initializer body runs at most once —
/// and exactly once by the time the value is published — and any two
/// contexts that completed their read observed one and the same value.
pub proof fn lemma_initializer_runs_once(s0: OnceModel, trace: Seq<OnceStep>)
    requires
        once_init(s0),
        once_valid(s0, trace),
    ensures
        count_claims(trace) <= 1,
        once_run(s0, trace).runs <= 1,
        once_run(s0, trace).phase is Initialized ==> once_run(s0, trace).runs == 1,
        forall|c1: int, c2: int|
            once_run(s0, trace).observed.contains_key(c1) && once_run(
                s0,
                trace,
            ).observed.contains_key(c2) ==> once_run(s0, trace).observed[c1] == once_run(
                s0,
                trace,
            ).observed[c2],
{
    lemma_once_inv_preserved(s0, trace);
    if trace.len() > 0 {
        // From a fresh machine only a claim is enabled, and after it the
        // machine never stands unclaimed again.
        assert(trace[0] is Claim);
        lemma_no_claim_after(once_apply(s0, trace[0]), trace.drop_first());
    }
}

} // verus!
