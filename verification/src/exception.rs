//! The exception bridge.
//!
//! The engine reports a failure by a sentinel or a negative status and keeps
//! the exception itself in one pending slot of the context. Inbound, the
//! host takes the pending exception right after the operation that raised
//! it and wraps it as an error. Outbound, a failure of host logic ends the
//! engine's call with a thrown exception that carries the failure's message.

use vstd::prelude::*;
use crate::value::Value;
use crate::error::{Error, ErrorView};
use crate::convert::{HostValue, encode, encode_spec};
use crate::object::Reply;

verus! {

/// How a call from the engine into the host ends.
#[derive(Clone, Debug, PartialEq, Eq)]
pub enum Completion {
    /// The call returns this value.
    Return(Value),
    /// The call throws an exception with this message.
    Throw { message: String },
}

/// Wraps the pending exception that the host took from the engine.
pub fn inbound(message: String) -> (e: Error)
    ensures
        e@ == (ErrorView::EngineException { message: message@ }),
{
    Error::EngineException { message }
}

/// What a call from the engine into the host ends with.
pub open spec fn completion_of(result: Result<HostValue, Error>, c: Completion) -> bool {
    match result {
        Ok(h) => c matches Completion::Return(v) && v@ == encode_spec(h@),
        Err(e) => c matches Completion::Throw { message } && message@ == e@.message(),
    }
}

/// Ends a call from the engine into the host: the encoded result is
/// returned, and a failure is thrown as an exception that carries the
/// failure's message.
pub fn outbound(result: Result<HostValue, Error>) -> (c: Completion)
    ensures
        completion_of(result, c),
{
    match result {
        Ok(h) => Completion::Return(encode(h)),
        Err(e) => Completion::Throw { message: e.message() },
    }
}

/// What the host knows of the context's pending-exception slot. While an
/// exception is pending the only step open to the host is to take it: no
/// engine operation may be started in between.
#[derive(Clone, Copy, Debug, PartialEq, Eq)]
pub struct Slot {
    pending: bool,
}

impl Slot {
    /// Whether an exception is pending.
    pub closed spec fn is_pending(&self) -> bool {
        self.pending
    }

    /// The slot of a context in which nothing was raised yet.
    pub fn new() -> (slot: Slot)
        ensures
            !slot.is_pending(),
    {
        Slot { pending: false }
    }

    /// Whether the host may start an engine operation: exactly when no
    /// exception is pending.
    pub fn may_call(&self) -> (free: bool)
        ensures
            free == !self.is_pending(),
    {
        !self.pending
    }

    /// Records the reply of an operation that yields a value. The slot is
    /// pending afterwards exactly when the reply is the exception sentinel.
    pub fn note_reply(&mut self, reply: &Reply)
        requires
            !old(self).is_pending(),
        ensures
            final(self).is_pending() == (*reply is Exception),
    {
        self.pending = match reply {
            Reply::Exception => true,
            Reply::Value(_) => false,
        };
    }

    /// Records the status of an operation that yields a code. The slot is
    /// pending afterwards exactly when the code is negative.
    pub fn note_status(&mut self, status: i32)
        requires
            !old(self).is_pending(),
        ensures
            final(self).is_pending() == (status < 0),
    {
        self.pending = status < 0;
    }

    /// Wraps the exception that the host took from the engine and clears the
    /// slot. Where nothing was pending there is nothing to wrap, and the
    /// message is dropped.
    pub fn take(&mut self, message: String) -> (e: Option<Error>)
        ensures
            !final(self).is_pending(),
            old(self).is_pending() ==> (e matches Some(x) && x@ == (ErrorView::EngineException {
                message: message@,
            })),
            !old(self).is_pending() ==> e is None,
    {
        if self.pending {
            self.pending = false;
            Some(inbound(message))
        } else {
            None
        }
    }
}

} // verus!
