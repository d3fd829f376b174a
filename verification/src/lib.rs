//! The message-envelope and completion-bridging layer of an actor runtime.
//!
//! A heterogeneously typed message sent to an actor is erased behind a uniform
//! [`Envelope`] handle, queued by the mailbox, and later dispatched to the
//! actor's typed handler. The handler's possibly asynchronous result is driven
//! to completion by a [`CompletionBridge`] on the actor's cooperative
//! scheduler and forwarded, exactly once and best effort, through an optional
//! one-shot completion channel — same-thread or thread-safe, chosen when the
//! envelope is built. Only [`SendEnvelope`], which admits the thread-safe
//! flavor alone, may cross a thread boundary: the same-thread flavor is kept
//! on its thread by the type system, not by convention.

mod actor;
mod bridge;
mod context;
mod envelope;
mod fut;
mod sender;

pub use actor::Actor;
pub use actor::MessageHandler;
pub use bridge::CompletionBridge;
pub use context::Context;
pub use envelope::Envelope;
pub use envelope::EnvelopeProxy;
pub use envelope::SendEnvelope;
pub use envelope::SendEnvelopeProxy;
pub use fut::ActorFuture;
pub use fut::Async;
pub use fut::Poll;
pub use sender::CompletionSender;
