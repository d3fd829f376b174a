use vstd::prelude::*;

use crate::actor::Actor;
use crate::fut::ActorFuture;
use crate::fut::Async;
use crate::fut::Poll;
use crate::sender::CompletionSender;

verus! {

/// The continuation that drives one handler invocation to completion and
/// forwards its final result to the completion sender, exactly once.
///
/// Its state is a two-step machine: pending until the wrapped invocation
/// resolves, then resolved — terminal and inert. On the one transition into
/// the resolved state the sender, if any, is consumed and handed the
/// invocation's `Result` verbatim; with no sender the result is discarded
/// (fire and forget). A lost receiver never fails the bridge.
pub struct CompletionBridge<A: Actor, F: ActorFuture<A, A::Item, A::Error>> {
    fut: F,
    tx: Option<CompletionSender<Result<A::Item, A::Error>>>,
    done: bool,
    sent: Ghost<Option<Result<A::Item, A::Error>>>,
}

impl<A: Actor, F: ActorFuture<A, A::Item, A::Error>> CompletionBridge<A, F> {
    /// The result handed to the completion sender, if one has been: `None`
    /// while pending, and forever `None` for a fire-and-forget bridge.
    pub closed spec fn delivered(&self) -> Option<Result<A::Item, A::Error>> {
        self.sent@
    }

    /// The wrapped handler invocation.
    pub closed spec fn invocation(&self) -> F {
        self.fut
    }

    /// The bridge's state machine invariant: the sender is consumed exactly
    /// on the transition into the resolved state, and nothing is ever
    /// delivered before it.
    pub open spec fn wf(&self) -> bool {
        &&& self.resolved() ==> !self.has_sender()
        &&& !self.resolved() ==> self.delivered() is None
    }

    /// A fresh, pending bridge around one handler invocation and the
    /// envelope's optional completion sender.
    pub fn new(fut: F, tx: Option<CompletionSender<Result<A::Item, A::Error>>>) -> (r: Self)
        ensures
            !r.resolved(),
            r.has_sender() == tx is Some,
            r.delivered() is None,
            r.invocation() == fut,
            r.wf(),
    {
        CompletionBridge { fut, tx, done: false, sent: Ghost(None) }
    }

    /// The one transition into the resolved state: consumes the sender, if
    /// any, and hands it `outcome` verbatim — never transformed, never
    /// wrapped. A send that fails because the receiver is gone is silently
    /// discarded. Reports `Ready` to the scheduler for a success and failure
    /// for an error, so the bridge is removed either way.
    pub fn resolve(&mut self, outcome: Result<A::Item, A::Error>) -> (r: Poll<(), ()>)
        requires
            !old(self).resolved(),
        ensures
            final(self).resolved(),
            !final(self).has_sender(),
            final(self).invocation() == old(self).invocation(),
            final(self).delivered() == if old(self).has_sender() {
                Some(outcome)
            } else {
                Option::<Result<A::Item, A::Error>>::None
            },
            r == if outcome is Ok {
                Poll::<(), ()>::Ok(Async::Ready(()))
            } else {
                Poll::<(), ()>::Err(())
            },
            final(self).wf(),
    {
        self.done = true;
        let succeeded = outcome.is_ok();
        let ghost recorded = outcome;
        match self.tx.take() {
            Some(tx) => {
                let _ = tx.send(outcome);
                self.sent = Ghost(Some(recorded));
            },
            None => {
                self.sent = Ghost(None);
            },
        }
        if succeeded {
            Ok(Async::Ready(()))
        } else {
            Err(())
        }
    }

    /// One scheduler tick of the bridge: polls the wrapped invocation with
    /// the live actor. While the invocation reports `NotReady` the bridge
    /// stays pending and keeps its sender untouched. The first poll on which
    /// the invocation resolves moves the bridge to its terminal state and
    /// delivers the result; after that the bridge is inert and only reports
    /// `Ready` again.
    pub fn step(&mut self, act: &mut A) -> (r: Poll<(), ()>)
        ensures
            old(self).resolved() ==> r == Poll::<(), ()>::Ok(Async::Ready(())) && *final(self)
                == *old(self) && *final(act) == *old(act),
            final(self).resolved() == (old(self).resolved() || r != Poll::<(), ()>::Ok(
                Async::NotReady,
            )),
            r == Poll::<(), ()>::Ok(Async::NotReady) ==> final(self).has_sender() == old(
                self,
            ).has_sender() && final(self).delivered() == old(self).delivered(),
            !old(self).resolved() && r != Poll::<(), ()>::Ok(Async::NotReady) ==> {
                &&& !final(self).has_sender()
                &&& old(self).has_sender() ==> (final(self).delivered() matches Some(out) && (
                out is Ok <==> r is Ok))
                &&& !old(self).has_sender() ==> final(self).delivered() is None
            },
            old(self).wf() ==> final(self).wf(),
    {
        if self.done {
            return Ok(Async::Ready(()));
        }
        match self.fut.poll(act) {
            Ok(Async::Ready(val)) => self.resolve(Ok(val)),
            Ok(Async::NotReady) => Ok(Async::NotReady),
            Err(err) => self.resolve(Err(err)),
        }
    }
}

impl<A: Actor, F: ActorFuture<A, A::Item, A::Error>> ActorFuture<A, (), ()> for CompletionBridge<
    A,
    F,
> {
    /// Whether the bridge has reached its terminal, resolved state.
    closed spec fn resolved(&self) -> bool {
        self.done
    }

    /// Whether the bridge still holds an unconsumed completion sender.
    closed spec fn has_sender(&self) -> bool {
        self.tx is Some
    }

    fn poll(&mut self, act: &mut A) -> Poll<(), ()> {
        self.step(act)
    }
}

} // verus!
