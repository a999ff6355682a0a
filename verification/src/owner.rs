//! The resource owner: the single task holding exclusive access to the
//! resource, draining the mailbox in order and answering each request
//! through its reply slot.
//!
//! The owner's decisions are a pure step function from state and event to
//! next state and action; the run loop over a whole queue is verified
//! against the resource's per-request outcomes, taken as inputs, so every
//! possible resource behaviour is covered.

use vstd::prelude::*;
use crate::errors::ResourceError;
use crate::mailbox::{DequeueOutcome, Mailbox, Request, RequestModel};
use crate::reply::{
    drop_effect, drop_unfulfilled, fulfill, fulfill_effect, ReplySlot,
};

verus! {

/// The owner's control state. `Terminated` is absorbing: once reached, no
/// further request is ever serviced.
#[derive(Clone, Copy, PartialEq, Eq, Structural, Debug)]
pub enum OwnerState {
    Running,
    Terminated,
}

/// What a resource failure during one request does to the owner: poison
/// the whole mailbox, or stay local to the one request that hit it.
#[derive(Clone, Copy, PartialEq, Eq, Structural, Debug)]
pub enum FailurePolicy {
    /// Any resource error terminates the owner; the failing request's
    /// slot and every still-queued slot are dropped.
    FatalOnError,
    /// A resource error is delivered to its own caller; the owner keeps
    /// servicing the rest of the queue.
    IsolatedFailures,
}

/// One event observed by the owner's run loop.
#[derive(Clone, Copy, Debug)]
pub enum OwnerEvent {
    /// A request was dequeued and executed against the resource, with
    /// this outcome.
    Executed(Result<u32, ResourceError>),
    /// The mailbox reported end-of-stream: all handles are gone and the
    /// queue is empty.
    EndOfStream,
}

/// What the owner does with the current request's reply slot.
#[derive(Clone, Copy, Debug)]
pub enum ReplyAction {
    /// Deliver this outcome into the slot.
    Deliver(Result<u32, ResourceError>),
    /// Terminate without delivering; the slot is dropped.
    DropSlot,
    /// No request was in hand (end-of-stream, or already terminated).
    NoRequest,
}

/// One transition of the owner.
#[derive(Clone, Copy, Debug)]
pub struct OwnerStep {
    pub next: OwnerState,
    pub action: ReplyAction,
}

/// The owner's decision function, as a mathematical transition relation.
pub open spec fn owner_step_model(state: OwnerState, policy: FailurePolicy, event: OwnerEvent) -> OwnerStep {
    if state is Terminated {
        OwnerStep { next: OwnerState::Terminated, action: ReplyAction::NoRequest }
    } else {
        match event {
            OwnerEvent::EndOfStream => OwnerStep {
                next: OwnerState::Terminated,
                action: ReplyAction::NoRequest,
            },
            OwnerEvent::Executed(outcome) => match outcome {
                Ok(v) => OwnerStep {
                    next: OwnerState::Running,
                    action: ReplyAction::Deliver(Ok(v)),
                },
                Err(e) => match policy {
                    FailurePolicy::IsolatedFailures => OwnerStep {
                        next: OwnerState::Running,
                        action: ReplyAction::Deliver(Err(e)),
                    },
                    FailurePolicy::FatalOnError => OwnerStep {
                        next: OwnerState::Terminated,
                        action: ReplyAction::DropSlot,
                    },
                },
            },
        }
    }
}

/// The owner's decision function, executable: from control state, failure
/// policy and observed event to next state and reply action.
pub fn owner_step(state: OwnerState, policy: FailurePolicy, event: OwnerEvent) -> (step: OwnerStep)
    ensures
        step == owner_step_model(state, policy, event),
{
    match state {
        OwnerState::Terminated => OwnerStep {
            next: OwnerState::Terminated,
            action: ReplyAction::NoRequest,
        },
        OwnerState::Running => match event {
            OwnerEvent::EndOfStream => OwnerStep {
                next: OwnerState::Terminated,
                action: ReplyAction::NoRequest,
            },
            OwnerEvent::Executed(outcome) => match outcome {
                Ok(v) => OwnerStep {
                    next: OwnerState::Running,
                    action: ReplyAction::Deliver(Ok(v)),
                },
                Err(e) => match policy {
                    FailurePolicy::IsolatedFailures => OwnerStep {
                        next: OwnerState::Running,
                        action: ReplyAction::Deliver(Err(e)),
                    },
                    FailurePolicy::FatalOnError => OwnerStep {
                        next: OwnerState::Terminated,
                        action: ReplyAction::DropSlot,
                    },
                },
            },
        },
    }
}

/// The decision after the write half of a request: proceed to the read on
/// success, abort this request with the resource's error otherwise.
#[derive(Clone, Copy, Debug)]
pub enum WriteDecision {
    ProceedToRead,
    Abort(ResourceError),
}

/// Step one of executing a request: classify the write's result. The
/// embedding performs the write, hands the result here, and only reads
/// when told to proceed.
pub fn on_write_result(w: Result<(), ResourceError>) -> (d: WriteDecision)
    ensures
        w is Ok ==> d is ProceedToRead,
        w matches Err(e) ==> d == WriteDecision::Abort(e),
{
    match w {
        Ok(_) => WriteDecision::ProceedToRead,
        Err(e) => WriteDecision::Abort(e),
    }
}

/// Whether some queued request's record points at slot `k`.
pub open spec fn in_queue(q: Seq<RequestModel>, k: int) -> bool {
    exists|i: int| 0 <= i < q.len() && q[i].slot == k
}

/// Well-formedness of a queue against the slot table: every queued
/// request points at a real slot that is still awaiting delivery (or was
/// abandoned by its caller), and no two queued requests share a slot —
/// each reply slot belongs to exactly one submission.
pub open spec fn queue_wf(q: Seq<RequestModel>, slots: Seq<ReplySlot>) -> bool {
    &&& forall|i: int| 0 <= i < q.len() ==> (q[i].slot as int) < slots.len()
    &&& forall|i: int| 0 <= i < q.len()
        ==> (slots[q[i].slot as int] is Pending || slots[q[i].slot as int] is Abandoned)
    &&& forall|i: int, j: int| 0 <= i < j < q.len() ==> q[i].slot != q[j].slot
}

/// The owner's run loop, over the whole remaining life of the mailbox:
/// drain the queue in order, execute each request against the resource,
/// answer each caller through its own slot, and terminate at end-of-stream
/// (or, under the fatal policy, at the first resource error), dropping the
/// slots of everything left behind.
///
/// The resource's behaviour is not modelled: `outcomes[i]` is whatever the
/// resource returned for the `i`-th executed request, so the contract
/// holds for every possible resource, including a failing one.
///
/// The returned vector lists, in delivery order, the slot of each request
/// whose reply the owner delivered (or attempted to deliver, if the caller
/// had abandoned the slot):
/// - replies are produced in exactly the order the requests were queued
///   (FIFO), each carrying its own request's outcome — never another's;
/// - under the isolated-failure policy every queued request is answered;
/// - under the fatal policy exactly the longest error-free prefix is
///   answered, and every other queued slot is dropped;
/// - no queued request's slot is left pending: once the owner returns,
///   every caller still waiting observes a definite outcome.
pub fn run_owner(
    mb: &mut Mailbox,
    slots: &mut Vec<ReplySlot>,
    outcomes: &Vec<Result<u32, ResourceError>>,
    policy: FailurePolicy,
) -> (serviced: Vec<usize>)
    requires
        old(mb)@.wf(),
        old(mb)@.receiver_open,
        !old(mb)@.senders_open,
        queue_wf(old(mb)@.queue, old(slots)@),
        old(mb)@.queue.len() <= outcomes@.len(),
    ensures
        final(mb)@.queue.len() == 0,
        !final(mb)@.receiver_open,
        final(slots)@.len() == old(slots)@.len(),
        forall|k: int| 0 <= k < old(slots)@.len() && !in_queue(old(mb)@.queue, k)
            ==> final(slots)@[k] == old(slots)@[k],
        serviced@.len() <= old(mb)@.queue.len(),
        forall|i: int| 0 <= i < serviced@.len() ==> serviced@[i] == old(mb)@.queue[i].slot,
        forall|i: int| 0 <= i < serviced@.len()
            ==> final(slots)@[old(mb)@.queue[i].slot as int]
                == fulfill_effect(old(slots)@[old(mb)@.queue[i].slot as int], outcomes@[i]),
        forall|i: int| serviced@.len() <= i < old(mb)@.queue.len()
            ==> final(slots)@[old(mb)@.queue[i].slot as int]
                == drop_effect(old(slots)@[old(mb)@.queue[i].slot as int]),
        policy is IsolatedFailures ==> serviced@.len() == old(mb)@.queue.len(),
        policy is FatalOnError ==> forall|i: int| 0 <= i < serviced@.len() ==> outcomes@[i] is Ok,
        policy is FatalOnError && serviced@.len() < old(mb)@.queue.len()
            ==> outcomes@[serviced@.len() as int] is Err,
        forall|i: int| 0 <= i < old(mb)@.queue.len()
            ==> !(final(slots)@[old(mb)@.queue[i].slot as int] is Pending),
{
    let ghost q0 = mb@.queue;
    let ghost s0 = slots@;
    let mut serviced: Vec<usize> = Vec::new();
    let mut state = OwnerState::Running;
    let mut done: usize = 0;
    let qlen = mb.len();
    proof {
        assert(mb@.queue =~= q0.skip(0));
    }
    while state == OwnerState::Running
        invariant
            mb@.wf(),
            mb@.receiver_open,
            !mb@.senders_open,
            queue_wf(q0, s0),
            q0.len() <= outcomes@.len(),
            qlen as int == q0.len(),
            slots@.len() == s0.len(),
            done <= q0.len(),
            mb@.queue == q0.skip(done as int),
            forall|i: int| done <= i < q0.len()
                ==> slots@[q0[i].slot as int] == s0[q0[i].slot as int],
            forall|k: int| 0 <= k < s0.len() && !in_queue(q0, k) ==> slots@[k] == s0[k],
            serviced@.len() <= done,
            forall|i: int| 0 <= i < serviced@.len() ==> serviced@[i] == q0[i].slot,
            forall|i: int| 0 <= i < serviced@.len()
                ==> slots@[q0[i].slot as int] == fulfill_effect(s0[q0[i].slot as int], outcomes@[i]),
            forall|i: int| serviced@.len() <= i < done
                ==> slots@[q0[i].slot as int] == drop_effect(s0[q0[i].slot as int]),
            state is Running ==> serviced@.len() == done,
            policy is IsolatedFailures ==> serviced@.len() == done,
            policy is FatalOnError ==> forall|i: int| 0 <= i < serviced@.len() ==> outcomes@[i] is Ok,
            state is Terminated ==> ((serviced@.len() == done && done == q0.len())
                || (policy is FatalOnError && done == serviced@.len() + 1
                    && outcomes@[done - 1] is Err)),
        decreases q0.len() - done + (if state is Running { 1int } else { 0int }),
    {
        let ghost done0 = done as int;
        let out = mb.try_dequeue();
        match out {
            DequeueOutcome::WouldWait => {
                proof {
                    assert(false);
                }
            }
            DequeueOutcome::EndOfStream => {
                proof {
                    assert(q0.skip(done0).len() == 0);
                }
                let step = owner_step(state, policy, OwnerEvent::EndOfStream);
                state = step.next;
            }
            DequeueOutcome::Received(req) => {
                proof {
                    assert(q0.skip(done0).len() > 0);
                    assert(q0.skip(done0)[0] == q0[done0]);
                    assert(req@ == q0[done0]);
                    assert((q0[done0].slot as int) < s0.len());
                    assert(slots@[q0[done0].slot as int] == s0[q0[done0].slot as int]);
                    assert(q0.skip(done0).drop_first() =~= q0.skip(done0 + 1));
                    assert(done0 < q0.len());
                    assert(q0.len() <= outcomes@.len());
                }
                let idx = req.slot;
                let outcome = outcomes[done];
                done = done + 1;
                let step = owner_step(state, policy, OwnerEvent::Executed(outcome));
                state = step.next;
                proof {
                    assert(in_queue(q0, idx as int)) by {
                        assert(0 <= done0 < q0.len() && q0[done0].slot == idx);
                    }
                }
                match step.action {
                    ReplyAction::Deliver(rep) => {
                        let _ = fulfill(&mut slots[idx], rep);
                        serviced.push(idx);
                    }
                    ReplyAction::DropSlot => {
                        drop_unfulfilled(&mut slots[idx]);
                    }
                    ReplyAction::NoRequest => {
                        proof {
                            assert(false);
                        }
                    }
                }
            }
        }
    }
    let drained = mb.close_receiver();
    let ghost dq = done as int;
    proof {
        assert(drained@.map_values(|r: Request| r@) == q0.skip(dq));
        assert(drained@.len() == q0.len() - dq);
    }
    let mut j: usize = 0;
    while j < drained.len()
        invariant
            queue_wf(q0, s0),
            q0.len() <= outcomes@.len(),
            slots@.len() == s0.len(),
            dq == done,
            done <= q0.len(),
            j <= drained.len(),
            drained@.len() == q0.len() - dq,
            drained@.map_values(|r: Request| r@) == q0.skip(dq),
            forall|i: int| dq + j <= i < q0.len()
                ==> slots@[q0[i].slot as int] == s0[q0[i].slot as int],
            forall|k: int| 0 <= k < s0.len() && !in_queue(q0, k) ==> slots@[k] == s0[k],
            serviced@.len() <= dq,
            forall|i: int| 0 <= i < serviced@.len()
                ==> slots@[q0[i].slot as int] == fulfill_effect(s0[q0[i].slot as int], outcomes@[i]),
            forall|i: int| serviced@.len() <= i < dq + j
                ==> slots@[q0[i].slot as int] == drop_effect(s0[q0[i].slot as int]),
        decreases drained@.len() - j,
    {
        let ghost jj = j as int;
        proof {
            assert(drained@.map_values(|r: Request| r@)[jj] == drained@[jj]@);
            assert(q0.skip(dq)[jj] == q0[dq + jj]);
            assert(drained@[jj]@ == q0[dq + jj]);
            assert((q0[dq + jj].slot as int) < s0.len());
            assert(slots@[q0[dq + jj].slot as int] == s0[q0[dq + jj].slot as int]);
            assert(in_queue(q0, q0[dq + jj].slot as int)) by {
                assert(0 <= dq + jj < q0.len());
            }
        }
        let idx = drained[j].slot;
        drop_unfulfilled(&mut slots[idx]);
        j = j + 1;
    }
    proof {
        assert forall|i: int| 0 <= i < q0.len() implies !(slots@[q0[i].slot as int]
            is Pending) by {
            assert(s0[q0[i].slot as int] is Pending || s0[q0[i].slot as int] is Abandoned);
            if i < serviced@.len() {
                assert(slots@[q0[i].slot as int]
                    == fulfill_effect(s0[q0[i].slot as int], outcomes@[i]));
            } else {
                assert(slots@[q0[i].slot as int] == drop_effect(s0[q0[i].slot as int]));
            }
        }
    }
    serviced
}

/// Isolation law: under the isolated-failure policy, a resource error on
/// one request leaves the owner running, and the owner's next transition
/// is exactly what it would have been had the error never happened — a
/// failure on request K cannot affect request K+1.
pub proof fn lemma_isolation(e: ResourceError, later: OwnerEvent)
    ensures
        owner_step_model(OwnerState::Running, FailurePolicy::IsolatedFailures,
            OwnerEvent::Executed(Err(e))).next is Running,
        owner_step_model(
            owner_step_model(OwnerState::Running, FailurePolicy::IsolatedFailures,
                OwnerEvent::Executed(Err(e))).next,
            FailurePolicy::IsolatedFailures, later)
            == owner_step_model(OwnerState::Running, FailurePolicy::IsolatedFailures, later),
{
}

/// Termination is absorbing: a terminated owner services nothing, for
/// every policy and every event.
pub proof fn lemma_terminated_absorbing(policy: FailurePolicy, event: OwnerEvent)
    ensures
        owner_step_model(OwnerState::Terminated, policy, event).next is Terminated,
        owner_step_model(OwnerState::Terminated, policy, event).action is NoRequest,
{
}

} // verus!
