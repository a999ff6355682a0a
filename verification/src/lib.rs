//! A verified model of the actor-mailbox concurrency pattern: a single
//! owner of an exclusive resource drains a bounded FIFO mailbox of
//! requests, executes each against the resource, and returns each result
//! through that request's private one-shot reply slot.
//!
//! The mailbox, the reply slots and the owner's run loop are modelled as
//! sequential state machines whose transitions carry full contracts; an
//! embedding runtime drives the same decision functions against a real
//! resource and a real concurrent channel.

pub mod errors;
pub mod mailbox;
pub mod owner;
pub mod reply;
