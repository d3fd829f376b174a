use vstd::prelude::*;

use crate::actor::Actor;
use crate::bridge::CompletionBridge;
use crate::fut::ActorFuture;
use crate::fut::Async;

verus! {

/// One erased, boxed unit of polled work, as the scheduler stores it.
type BoxedWork<A> = Box<dyn ActorFuture<A, (), ()> + 'static>;

/// A registered continuation in the scheduler's queue.
#[verifier::reject_recursive_types(A)]
struct WorkItem<A> {
    inner: BoxedWork<A>,
}

/// The actor's execution context: it owns the cooperative scheduler that
/// drives every spawned continuation alongside the actor's own logic.
///
/// Exactly one thread ever holds the mutable actor and its context, so no
/// lock protects either: mutual exclusion is structural.
#[verifier::reject_recursive_types(A)]
pub struct Context<A> {
    queue: Vec<WorkItem<A>>,
}

impl<A> WorkItem<A> {
    /// Whether the registered continuation has resolved.
    closed spec fn is_resolved(&self) -> bool {
        self.inner.resolved()
    }

    /// Whether the registered continuation still holds a completion sender.
    closed spec fn carries_sender(&self) -> bool {
        self.inner.has_sender()
    }
}

fn wrap_bridge<A: Actor, F: ActorFuture<A, A::Item, A::Error> + 'static>(
    bridge: CompletionBridge<A, F>,
) -> (w: WorkItem<A>)
    ensures
        w.is_resolved() == bridge.resolved(),
        w.carries_sender() == bridge.has_sender(),
{
    WorkItem { inner: Box::new(bridge) }
}

fn push_work<A>(q: &mut Vec<WorkItem<A>>, w: WorkItem<A>)
    ensures
        final(q)@.len() == old(q)@.len() + 1,
        final(q)@.last().is_resolved() == w.is_resolved(),
        final(q)@.last().carries_sender() == w.carries_sender(),
{
    let ghost before = q@;
    let ghost witem = w;
    q.push(w);
    proof {
        vstd::seq::axiom_seq_push_len(before, witem);
        vstd::seq::axiom_seq_push_index_same(before, witem, before.len() as int);
    }
}

fn take_front<A>(q: &mut Vec<WorkItem<A>>) -> (w: Option<WorkItem<A>>)
    ensures
        old(q)@.len() == 0 ==> w is None && final(q)@ == old(q)@,
        old(q)@.len() > 0 ==> w is Some && final(q)@ == old(q)@.remove(0),
{
    if q.len() > 0 {
        Some(q.remove(0))
    } else {
        None
    }
}

fn work_len<A>(q: &Vec<WorkItem<A>>) -> (n: usize)
    ensures
        n == q@.len(),
{
    q.len()
}

impl<A> Context<A> {
    /// How many continuations are registered with the scheduler.
    pub closed spec fn pending_len(&self) -> nat {
        self.queue@.len()
    }

    /// Whether the most recently registered continuation has not yet
    /// resolved.
    pub closed spec fn newest_is_pending(&self) -> bool {
        self.queue@.len() > 0 && !self.queue@.last().is_resolved()
    }

    /// Whether the most recently registered continuation still holds a
    /// completion sender.
    pub closed spec fn newest_has_sender(&self) -> bool {
        self.queue@.len() > 0 && self.queue@.last().carries_sender()
    }

    /// A fresh context with an empty scheduler.
    pub fn new() -> (r: Context<A>)
        ensures
            r.pending_len() == 0,
    {
        Context { queue: Vec::new() }
    }

    /// How many continuations are still registered.
    pub fn pending_count(&self) -> (n: usize)
        ensures
            n == self.pending_len(),
    {
        work_len(&self.queue)
    }

    /// Registers one unit of polled work with the scheduler. The work is
    /// driven on later ticks; registering it does not poll it and never
    /// blocks.
    pub fn spawn<W: ActorFuture<A, (), ()> + 'static>(&mut self, work: W)
        ensures
            final(self).pending_len() == old(self).pending_len() + 1,
    {
        push_work(&mut self.queue, WorkItem { inner: Box::new(work) });
    }

    /// Registers a completion bridge with the scheduler. Beyond what `spawn`
    /// promises, the contract pins the newest registered continuation down to
    /// this very bridge's state: still pending, and holding a completion
    /// sender exactly when the bridge does.
    pub fn spawn_bridge<F: ActorFuture<A, A::Item, A::Error> + 'static>(
        &mut self,
        bridge: CompletionBridge<A, F>,
    ) where A: Actor
        ensures
            final(self).pending_len() == old(self).pending_len() + 1,
            final(self).newest_is_pending() == !bridge.resolved(),
            final(self).newest_has_sender() == bridge.has_sender(),
    {
        let w = wrap_bridge(bridge);
        push_work(&mut self.queue, w);
    }

    /// One scheduler tick: polls every continuation registered at entry once
    /// with the live actor. A continuation that reports `NotReady` keeps its
    /// place and is polled again on the next tick; one that resolves — with a
    /// value or with an error — is removed and never polled again. A tick
    /// never adds work of its own.
    pub fn tick(&mut self, act: &mut A)
        ensures
            final(self).pending_len() <= old(self).pending_len(),
    {
        let total = work_len(&self.queue);
        let mut i: usize = 0;
        while i < total
            invariant
                i <= total,
                total - i <= self.queue@.len() <= total,
            decreases total - i,
        {
            if let Some(mut w) = take_front(&mut self.queue) {
                match w.inner.poll(act) {
                    Ok(Async::NotReady) => push_work(&mut self.queue, w),
                    _ => (),
                }
            }
            i = i + 1;
        }
    }
}

} // verus!
