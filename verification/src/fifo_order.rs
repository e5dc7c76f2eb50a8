//! Arrival-order service of the queued strategies, proved over arbitrary
//! interleavings.
//!
//! A queued spin lock hands each arriving context a ticket and serves the
//! tickets strictly in arrival order — that is its fairness guarantee, and
//! the reason the ticket record exists. The model here numbers tickets in
//! arrival order; a step either enqueues the next arrival or serves the
//! ticket at the head of the queue. The lemmas state that service is exactly
//! arrival order, and that a ticket `k` positions from the head is served
//! after exactly `k` further services — no context is starved while the
//! queue is being served.

use vstd::prelude::*;

verus! {

/// The queue protocol state.
pub struct QueueState {
    /// The ticket the next arrival will draw; tickets count arrivals.
    pub next_ticket: nat,
    /// The tickets waiting, head first.
    pub waiting: Seq<nat>,
    /// The tickets already served, in service order.
    pub served: Seq<nat>,
}

/// One atomic protocol action.
pub enum QueueStep {
    /// A context arrives and draws the next ticket.
    Arrive,
    /// The head of the queue is granted the lock.
    Serve,
}

/// A fresh queue: no arrivals, nothing served.
pub open spec fn queue_init(s: QueueState) -> bool {
    s.next_ticket == 0 && s.waiting.len() == 0 && s.served.len() == 0
}

/// When a step may fire: arrival always may; service needs a waiter.
pub open spec fn queue_enabled(s: QueueState, step: QueueStep) -> bool {
    match step {
        QueueStep::Arrive => true,
        QueueStep::Serve => s.waiting.len() >= 1,
    }
}

/// The effect of a step.
pub open spec fn queue_apply(s: QueueState, step: QueueStep) -> QueueState {
    match step {
        QueueStep::Arrive => QueueState {
            next_ticket: s.next_ticket + 1,
            waiting: s.waiting.push(s.next_ticket),
            served: s.served,
        },
        QueueStep::Serve => QueueState {
            next_ticket: s.next_ticket,
            waiting: s.waiting.drop_first(),
            served: s.served.push(s.waiting[0]),
        },
    }
}

/// A trace is valid when every step is enabled in the state it fires from.
pub open spec fn queue_valid(s: QueueState, trace: Seq<QueueStep>) -> bool
    decreases trace.len(),
{
    trace.len() == 0 || (queue_enabled(s, trace[0]) && queue_valid(
        queue_apply(s, trace[0]),
        trace.drop_first(),
    ))
}

/// The state a trace ends in.
pub open spec fn queue_run(s: QueueState, trace: Seq<QueueStep>) -> QueueState
    decreases trace.len(),
{
    if trace.len() == 0 {
        s
    } else {
        queue_run(queue_apply(s, trace[0]), trace.drop_first())
    }
}

/// The inductive invariant: what was served followed by what still waits is
/// exactly the arrival sequence `0, 1, 2, ...` — no ticket is dropped,
/// duplicated or reordered.
pub open spec fn queue_inv(s: QueueState) -> bool {
    s.served + s.waiting == Seq::<nat>::new(s.next_ticket, |i: int| i as nat)
}

/// Each enabled step preserves the invariant.
pub proof fn lemma_queue_step_preserves(s: QueueState, step: QueueStep)
    requires
        queue_inv(s),
        queue_enabled(s, step),
    ensures
        queue_inv(queue_apply(s, step)),
{
    match step {
        QueueStep::Arrive => {
            assert(s.served + s.waiting.push(s.next_ticket) =~= (s.served + s.waiting).push(
                s.next_ticket,
            ));
            assert((s.served + s.waiting).push(s.next_ticket) =~= Seq::<nat>::new(
                s.next_ticket + 1,
                |i: int| i as nat,
            ));
        },
        QueueStep::Serve => {
            assert(s.served.push(s.waiting[0]) + s.waiting.drop_first() =~= s.served + s.waiting);
        },
    }
}

/// The invariant holds of every state a valid trace reaches.
pub proof fn lemma_queue_inv_preserved(s: QueueState, trace: Seq<QueueStep>)
    requires
        queue_inv(s),
        queue_valid(s, trace),
    ensures
        queue_inv(queue_run(s, trace)),
    decreases trace.len(),
{
    if trace.len() > 0 {
        lemma_queue_step_preserves(s, trace[0]);
        lemma_queue_inv_preserved(queue_apply(s, trace[0]), trace.drop_first());
    }
}

/// Law (service in arrival order): in any interleaving of arrivals and
/// services from a fresh queue, the tickets served so far are exactly the
/// earliest arrivals, in arrival order, and the tickets still waiting
/// continue the arrival order from there.
pub proof fn lemma_service_in_arrival_order(s0: QueueState, trace: Seq<QueueStep>)
    requires
        queue_init(s0),
        queue_valid(s0, trace),
    ensures
        forall|i: int|
            0 <= i < queue_run(s0, trace).served.len() ==> #[trigger] queue_run(
                s0,
                trace,
            ).served[i] == i,
        forall|k: int|
            0 <= k < queue_run(s0, trace).waiting.len() ==> #[trigger] queue_run(
                s0,
                trace,
            ).waiting[k] == queue_run(s0, trace).served.len() + k,
{
    assert(s0.served + s0.waiting =~= Seq::<nat>::new(0, |i: int| i as nat));
    lemma_queue_inv_preserved(s0, trace);
    let end = queue_run(s0, trace);
    let arrivals = Seq::<nat>::new(end.next_ticket, |j: int| j as nat);
    assert((end.served + end.waiting).len() == arrivals.len());
    assert forall|i: int| 0 <= i < end.served.len() implies #[trigger] end.served[i] == i by {
        assert((end.served + end.waiting)[i] == end.served[i]);
        assert(arrivals[i] == i as nat);
    }
    assert forall|k: int| 0 <= k < end.waiting.len() implies #[trigger] end.waiting[k]
        == end.served.len() + k by {
        assert((end.served + end.waiting)[end.served.len() + k] == end.waiting[k]);
        assert(arrivals[end.served.len() + k] == (end.served.len() + k) as nat);
    }
}

/// The state after `n` consecutive services.
pub open spec fn serve_n(s: QueueState, n: nat) -> QueueState
    decreases n,
{
    if n == 0 {
        s
    } else {
        serve_n(queue_apply(s, QueueStep::Serve), (n - 1) as nat)
    }
}

/// What `n` services do: the first `n` waiters move to the served list in
/// queue order, and each of the `n` services finds a waiter, so each is an
/// enabled step.
pub proof fn lemma_serve_n(s: QueueState, n: nat)
    requires
        n <= s.waiting.len(),
    ensures
        serve_n(s, n).served == s.served + s.waiting.take(n as int),
        serve_n(s, n).waiting == s.waiting.skip(n as int),
        serve_n(s, n).next_ticket == s.next_ticket,
    decreases n,
{
    if n == 0 {
        assert(serve_n(s, n).served =~= s.served + s.waiting.take(0));
        assert(serve_n(s, n).waiting =~= s.waiting.skip(0));
    } else {
        let s1 = queue_apply(s, QueueStep::Serve);
        lemma_serve_n(s1, (n - 1) as nat);
        assert(s1.served + s1.waiting.take(n - 1) =~= s.served + s.waiting.take(n as int));
        assert(s1.waiting.skip(n - 1) =~= s.waiting.skip(n as int));
    }
}

/// Law (no starvation under sustained service): a ticket standing `k`
/// places from the head of the queue is served by the `k + 1`-th following
/// service, after exactly the `k` tickets that arrived before it.
pub proof fn lemma_every_waiter_is_served(s: QueueState, k: int)
    requires
        0 <= k < s.waiting.len(),
    ensures
        serve_n(s, (k + 1) as nat).served.len() == s.served.len() + k + 1,
        serve_n(s, (k + 1) as nat).served[s.served.len() + k] == s.waiting[k],
{
    lemma_serve_n(s, (k + 1) as nat);
}

} // verus!
