use vstd::prelude::*;

verus! {

/// The same-thread flavor of the one-shot completion channel's sender half.
#[verifier::external_type_specification]
#[verifier::external_body]
#[verifier::reject_recursive_types(T)]
pub struct ExUnsyncSender<T>(futures::unsync::oneshot::Sender<T>);

/// The thread-safe flavor of the one-shot completion channel's sender half.
#[verifier::external_type_specification]
#[verifier::external_body]
#[verifier::reject_recursive_types(T)]
pub struct ExSyncSender<T>(futures::sync::oneshot::Sender<T>);

/// Relies on `futures::unsync::oneshot::Sender::send`: it consumes the
/// sender, never panics, hands the value to the paired receiver, and gives
/// the value back unchanged as `Err` when the receiver is already gone.
pub assume_specification<T>[ futures::unsync::oneshot::Sender::<T>::send ](
    tx: futures::unsync::oneshot::Sender<T>,
    val: T,
) -> (r: Result<(), T>)
    ensures
        r matches Err(v) ==> v == val,
;

/// Relies on `futures::sync::oneshot::Sender::send`: it consumes the sender,
/// never panics, hands the value to the paired receiver, and gives the value
/// back unchanged as `Err` when the receiver is already gone or closed.
pub assume_specification<T>[ futures::sync::oneshot::Sender::<T>::send ](
    tx: futures::sync::oneshot::Sender<T>,
    val: T,
) -> (r: Result<(), T>)
    ensures
        r matches Err(v) ==> v == val,
;

/// The completion sender attached to an envelope: exactly one of the two
/// channel flavors, chosen when the envelope is built and fixed thereafter.
/// It is consumed exactly once, by the completion bridge, to deliver the
/// final result.
///
/// Only the thread-safe flavor may cross a thread boundary, which the types
/// enforce: a `Local` sender keeps the whole union off `Send`.
#[verifier::reject_recursive_types(T)]
pub enum CompletionSender<T> {
    Local(futures::unsync::oneshot::Sender<T>),
    Remote(futures::sync::oneshot::Sender<T>),
}

impl<T> CompletionSender<T> {
    /// Best-effort one-shot delivery: hands `value` to the paired receiver
    /// through whichever channel flavor this sender is. A lost receiver is
    /// not an error: the value comes back unchanged and the caller discards
    /// it. Never blocks, never panics.
    pub fn send(self, value: T) -> (r: Result<(), T>)
        ensures
            r matches Err(v) ==> v == value,
    {
        match self {
            CompletionSender::Local(tx) => tx.send(value),
            CompletionSender::Remote(tx) => tx.send(value),
        }
    }
}

} // verus!
