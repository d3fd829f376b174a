use vstd::prelude::*;

verus! {

/// Outcome of polling a cooperative computation once: either its value, or a
/// report that it has not resolved yet and must be polled again on a later
/// scheduler tick.
pub enum Async<T> {
    Ready(T),
    NotReady,
}

/// What one poll of a cooperative computation reports to its driver: still
/// pending, resolved with a value, or resolved with an error.
pub type Poll<T, E> = Result<Async<T>, E>;

/// A cooperative, actor-bound asynchronous computation.
///
/// Such a computation is not free-running: it advances only when the actor's
/// scheduler polls it with the live actor, and it must report `NotReady` until
/// it resolves. Message handlers return one of these, and the completion
/// bridge that the envelope layer spawns is one as well.
pub trait ActorFuture<A, I, E> {
    /// Whether the computation has already resolved and gone inert.
    spec fn resolved(&self) -> bool;

    /// Whether the computation still holds a completion sender, to be
    /// consumed when it resolves. A computation that answers nobody — a plain
    /// handler invocation, a fire-and-forget bridge — holds none.
    spec fn has_sender(&self) -> bool;

    fn poll(&mut self, act: &mut A) -> Poll<I, E>;
}

} // verus!
