use vstd::prelude::*;

use crate::actor::Actor;
use crate::actor::MessageHandler;
use crate::bridge::CompletionBridge;
use crate::context::Context;
use crate::sender::CompletionSender;

verus! {

/// The capability a concrete, message-type-specific envelope implements: one
/// dispatch operation that erases the message type from its caller.
///
/// `handle` consumes the wrapped message at most once, however often it is
/// invoked: every call after the first is a no-op that touches nothing.
pub trait EnvelopeProxy<A> {
    /// Whether the wrapped message has already been consumed.
    spec fn spent(&self) -> bool;

    /// Whether the envelope still holds an unconsumed completion sender.
    spec fn has_sender(&self) -> bool;

    fn handle(&mut self, act: &mut A, ctx: &mut Context<A>)
        ensures
            final(self).spent(),
            old(self).spent() ==> final(self).has_sender() == old(self).has_sender()
                && *final(act) == *old(act) && *final(ctx) == *old(ctx),
            !old(self).spent() ==> !final(self).has_sender() && final(ctx).pending_len() >= 1
                && final(ctx).newest_is_pending() && final(ctx).newest_has_sender() == old(
                self,
            ).has_sender(),
    ;
}

/// An envelope whose completion, if requested, is delivered through the
/// same-thread channel flavor. It must never cross a thread boundary, which
/// the types enforce: the same-thread sender keeps it off `Send`.
struct LocalEnvelope<A: MessageHandler<M>, M: 'static> {
    msg: Option<M>,
    tx: Option<futures::unsync::oneshot::Sender<Result<A::Item, A::Error>>>,
}

impl<A: MessageHandler<M>, M: 'static> EnvelopeProxy<A> for LocalEnvelope<A, M> {
    closed spec fn spent(&self) -> bool {
        self.msg is None
    }

    closed spec fn has_sender(&self) -> bool {
        self.tx is Some
    }

    fn handle(&mut self, act: &mut A, ctx: &mut Context<A>) {
        if let Some(msg) = self.msg.take() {
            let fut = <A as MessageHandler<M>>::handle(act, msg, ctx);
            let tx = match self.tx.take() {
                Some(tx) => Some(CompletionSender::Local(tx)),
                None => None,
            };
            ctx.spawn_bridge(CompletionBridge::new(fut, tx));
        }
    }
}

/// An envelope whose completion, if requested, is delivered through the
/// thread-safe channel flavor. The message and the actor's result and error
/// types must all be safely transferable across threads.
struct RemoteEnvelope<A: MessageHandler<M>, M: Send + 'static> where
    A::Item: Send,
    A::Error: Send,
 {
    msg: Option<M>,
    tx: Option<futures::sync::oneshot::Sender<Result<A::Item, A::Error>>>,
}

impl<A: MessageHandler<M>, M: Send + 'static> EnvelopeProxy<A> for RemoteEnvelope<A, M> where
    A::Item: Send,
    A::Error: Send,
 {
    closed spec fn spent(&self) -> bool {
        self.msg is None
    }

    closed spec fn has_sender(&self) -> bool {
        self.tx is Some
    }

    fn handle(&mut self, act: &mut A, ctx: &mut Context<A>) {
        if let Some(msg) = self.msg.take() {
            let fut = <A as MessageHandler<M>>::handle(act, msg, ctx);
            let tx = match self.tx.take() {
                Some(tx) => Some(CompletionSender::Remote(tx)),
                None => None,
            };
            ctx.spawn_bridge(CompletionBridge::new(fut, tx));
        }
    }
}

/// The capability of an envelope that may cross a thread boundary before
/// dispatch: the same contract as [`EnvelopeProxy`], for implementations that
/// are safe to transfer between threads.
pub trait SendEnvelopeProxy<A>: Send {
    /// Whether the wrapped message has already been consumed.
    spec fn spent(&self) -> bool;

    /// Whether the envelope still holds an unconsumed completion sender.
    spec fn has_sender(&self) -> bool;

    fn handle(&mut self, act: &mut A, ctx: &mut Context<A>)
        ensures
            final(self).spent(),
            old(self).spent() ==> final(self).has_sender() == old(self).has_sender()
                && *final(act) == *old(act) && *final(ctx) == *old(ctx),
            !old(self).spent() ==> !final(self).has_sender() && final(ctx).pending_len() >= 1
                && final(ctx).newest_is_pending() && final(ctx).newest_has_sender() == old(
                self,
            ).has_sender(),
    ;
}

impl<A: MessageHandler<M>, M: Send + 'static> SendEnvelopeProxy<A> for RemoteEnvelope<A, M> where
    A::Item: Send,
    A::Error: Send,
 {
    closed spec fn spent(&self) -> bool {
        self.msg is None
    }

    closed spec fn has_sender(&self) -> bool {
        self.tx is Some
    }

    fn handle(&mut self, act: &mut A, ctx: &mut Context<A>) {
        if let Some(msg) = self.msg.take() {
            let fut = <A as MessageHandler<M>>::handle(act, msg, ctx);
            let tx = match self.tx.take() {
                Some(tx) => Some(CompletionSender::Remote(tx)),
                None => None,
            };
            ctx.spawn_bridge(CompletionBridge::new(fut, tx));
        }
    }
}

/// The type-erased handle the mailbox stores and the actor's dispatch loop
/// consumes: one message for actor `A`, of a message type the holder can no
/// longer see, with an optional completion channel of the flavor chosen at
/// construction.
#[verifier::reject_recursive_types(A)]
pub struct Envelope<A: Actor> {
    proxy: Box<dyn EnvelopeProxy<A> + 'static>,
}

impl<A: Actor> Envelope<A> {
    /// Whether the wrapped message has already been consumed.
    pub closed spec fn spent(&self) -> bool {
        self.proxy.spent()
    }

    /// Whether the envelope still holds an unconsumed completion sender.
    pub closed spec fn has_sender(&self) -> bool {
        self.proxy.has_sender()
    }

    /// Builds an envelope whose completion, if `tx` is supplied, is
    /// delivered through the same-thread channel flavor. Places no threading
    /// constraint on the message or result types — and so the envelope
    /// itself must stay on the thread that will poll the paired receiver.
    pub fn local<M: 'static>(
        msg: M,
        tx: Option<futures::unsync::oneshot::Sender<Result<A::Item, A::Error>>>,
    ) -> (r: Envelope<A>) where A: MessageHandler<M>
        ensures
            !r.spent(),
            r.has_sender() == tx is Some,
    {
        Envelope { proxy: Box::new(LocalEnvelope { msg: Some(msg), tx }) }
    }

    /// Builds an envelope whose completion, if `tx` is supplied, is
    /// delivered through the thread-safe channel flavor. Requires the
    /// message, and the actor's result and error types, to be safely
    /// transferable across threads.
    pub fn remote<M: Send + 'static>(
        msg: M,
        tx: Option<futures::sync::oneshot::Sender<Result<A::Item, A::Error>>>,
    ) -> (r: Envelope<A>) where A: MessageHandler<M>, A::Item: Send, A::Error: Send
        ensures
            !r.spent(),
            r.has_sender() == tx is Some,
    {
        Envelope { proxy: Box::new(RemoteEnvelope { msg: Some(msg), tx }) }
    }

    /// The sole consumption entry point: takes the wrapped message, invokes
    /// the actor's handler for it, and registers a completion bridge around
    /// the handler's invocation and the stored sender with the context's
    /// scheduler. It never blocks, and it is a no-op — actor, context and
    /// envelope untouched — when the message was already consumed.
    pub fn handle(&mut self, act: &mut A, ctx: &mut Context<A>)
        ensures
            final(self).spent(),
            old(self).spent() ==> final(self).has_sender() == old(self).has_sender()
                && *final(act) == *old(act) && *final(ctx) == *old(ctx),
            !old(self).spent() ==> !final(self).has_sender() && final(ctx).pending_len() >= 1
                && final(ctx).newest_is_pending() && final(ctx).newest_has_sender() == old(
                self,
            ).has_sender(),
    {
        self.proxy.handle(act, ctx)
    }
}

/// The thread-transferable counterpart of [`Envelope`]: it erases the message
/// type behind the thread-safe variant alone, so the whole handle is `Send`
/// and may be built on, and carried from, a thread other than the actor's
/// scheduler thread. Same-thread envelopes get no such handle: the type
/// system keeps them where their receiver is polled.
#[verifier::reject_recursive_types(A)]
pub struct SendEnvelope<A: Actor> {
    proxy: Box<dyn SendEnvelopeProxy<A> + 'static>,
}

impl<A: Actor> SendEnvelope<A> {
    /// Whether the wrapped message has already been consumed.
    pub closed spec fn spent(&self) -> bool {
        self.proxy.spent()
    }

    /// Whether the envelope still holds an unconsumed completion sender.
    pub closed spec fn has_sender(&self) -> bool {
        self.proxy.has_sender()
    }

    /// Builds a thread-transferable envelope whose completion, if `tx` is
    /// supplied, is delivered through the thread-safe channel flavor.
    pub fn remote<M: Send + 'static>(
        msg: M,
        tx: Option<futures::sync::oneshot::Sender<Result<A::Item, A::Error>>>,
    ) -> (r: SendEnvelope<A>) where A: MessageHandler<M>, A::Item: Send, A::Error: Send
        ensures
            !r.spent(),
            r.has_sender() == tx is Some,
    {
        SendEnvelope { proxy: Box::new(RemoteEnvelope { msg: Some(msg), tx }) }
    }

    /// The consumption entry point, with the same contract as
    /// [`Envelope::handle`]: to be called on the actor's own thread, after
    /// the envelope has crossed over.
    pub fn handle(&mut self, act: &mut A, ctx: &mut Context<A>)
        ensures
            final(self).spent(),
            old(self).spent() ==> final(self).has_sender() == old(self).has_sender()
                && *final(act) == *old(act) && *final(ctx) == *old(ctx),
            !old(self).spent() ==> !final(self).has_sender() && final(ctx).pending_len() >= 1
                && final(ctx).newest_is_pending() && final(ctx).newest_has_sender() == old(
                self,
            ).has_sender(),
    {
        self.proxy.handle(act, ctx)
    }
}

} // verus!
