use vstd::prelude::*;

use crate::context::Context;
use crate::fut::ActorFuture;

verus! {

/// An actor: a concrete type with an associated success-item type and an
/// associated error type. Every completion channel attached to one of its
/// envelopes carries a `Result` of these two types.
pub trait Actor: Sized + 'static {
    type Item: 'static;

    type Error: 'static;
}

/// The per-message-type handler contract an actor implements for each message
/// type it supports. Given the actor, the message and the execution context,
/// it returns a cooperative computation that may resolve immediately or over
/// several scheduler ticks.
pub trait MessageHandler<M>: Actor {
    type Fut: ActorFuture<Self, Self::Item, Self::Error> + 'static;

    fn handle(&mut self, msg: M, ctx: &mut Context<Self>) -> Self::Fut;
}

} // verus!
