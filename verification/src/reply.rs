use vstd::prelude::*;

use crate::chan::{completion_channel, poll_completion, send_command, RecvEvent};
use crate::command::Command;
use crate::error::Error;
use crate::handle::ConnHandle;
use crate::message::{resolves_to, Message};

verus! {

/// One poll of a single-resolution future: not resolved yet, or its outcome.
#[derive(Debug, PartialEq, Eq)]
pub enum PollResult<T> {
    Pending,
    Ready(T),
}

/// What the dispatch loop can deliver into a completion receiver: a non-error
/// reply message, the remote error converted from an error reply, or the
/// closed-without-reply failure when the sink was dropped.
pub open spec fn delivered_valid(v: Result<Message, Error>) -> bool {
    match v {
        Ok(m) => !(m.kind is ErrorReply),
        Err(e) => e is RemoteError || e is ClosedWithoutReply,
    }
}

/// A caller-visible future for one outstanding request: either waiting on its
/// completion receiver, or born failed with an error that the first poll
/// reports, or already resolved.
pub struct ReplyMessage {
    receiver: Option<futures::channel::oneshot::Receiver<Message>>,
    failure: Option<Error>,
}

impl ReplyMessage {
    /// Still waiting on the dispatch loop.
    pub closed spec fn is_waiting(self) -> bool {
        self.receiver is Some
    }

    /// Construction failed; the error is reported at the first poll.
    pub closed spec fn is_failed(self) -> bool {
        self.failure is Some
    }

    /// The error a failed future will report.
    pub closed spec fn failure_of(self) -> Error {
        self.failure.unwrap()
    }

    /// Resolved: a further poll is not a supported pattern.
    pub open spec fn is_done(self) -> bool {
        !self.is_waiting() && !self.is_failed()
    }

    /// A future is never waiting and failed at once.
    pub open spec fn wf(self) -> bool {
        !(self.is_waiting() && self.is_failed())
    }

    /// True once the future has resolved.
    pub fn resolved(&self) -> (r: bool)
        ensures
            r == self.is_done(),
    {
        self.receiver.is_none() && self.failure.is_none()
    }

    /// Create a fresh completion channel, ask the dispatch loop to deliver the
    /// reply tagged `serial` into it, and wrap the receiving half. If the loop
    /// is gone the future is born failed with `DispatchUnavailable` and never
    /// needs to suspend.
    pub fn new(serial: u32, handle: &ConnHandle) -> (r: ReplyMessage)
        ensures
            r.wf(),
            !r.is_done(),
            r.is_failed() ==> r.failure_of() == Error::DispatchUnavailable,
    {
        let (sink, receiver) = completion_channel();
        match send_command(&handle.cmd, Command::AddReply(serial, sink)) {
            Ok(()) => ReplyMessage { receiver: Some(receiver), failure: None },
            Err(_) => ReplyMessage { receiver: None, failure: Some(Error::DispatchUnavailable) },
        }
    }

    /// A future born failed with `e`.
    pub fn failed(e: Error) -> (r: ReplyMessage)
        ensures
            r.wf(),
            !r.is_done(),
            r.is_failed(),
            r.failure_of() == e,
    {
        ReplyMessage { receiver: None, failure: Some(e) }
    }

    /// Turn what one poll of the completion receiver observed into the
    /// future's step. This is the whole resolution decision, exact on every
    /// input, for any caller that drives the receiver itself.
    pub fn resolve_completion(ev: RecvEvent) -> (r: PollResult<Result<Message, Error>>)
        ensures
            ev matches RecvEvent::Value(m) ==> r matches PollResult::Ready(v) && resolves_to(m, v),
            ev is Closed ==> r == PollResult::Ready(Err::<Message, Error>(Error::ClosedWithoutReply)),
            ev is Empty ==> r == PollResult::<Result<Message, Error>>::Pending,
    {
        match ev {
            RecvEvent::Value(m) => PollResult::Ready(m.into_result()),
            RecvEvent::Closed => PollResult::Ready(Err(Error::ClosedWithoutReply)),
            RecvEvent::Empty => PollResult::Pending,
        }
    }

    /// Poll once without blocking. A future born failed resolves immediately
    /// with its error; a waiting future resolves once its sink is fulfilled or
    /// dropped, and suspends (`Pending`) until then. Polling after resolution
    /// is not a supported pattern, mirroring single-resolution futures.
    pub fn try_poll(&mut self) -> (r: PollResult<Result<Message, Error>>)
        requires
            old(self).wf(),
            !old(self).is_done(),
        ensures
            final(self).wf(),
            old(self).is_failed() ==> r == PollResult::Ready(Err::<Message, Error>(old(self).failure_of()))
                && final(self).is_done(),
            old(self).is_waiting() ==> match r {
                PollResult::Pending => final(self).is_waiting() && !final(self).is_failed(),
                PollResult::Ready(v) => final(self).is_done() && delivered_valid(v)
                    && (v == Err::<Message, Error>(Error::ClosedWithoutReply)
                        || exists|m: Message| resolves_to(m, v)),
            },
    {
        match self.failure.take() {
            Some(e) => PollResult::Ready(Err(e)),
            None => {
                match self.receiver.take() {
                    Some(mut rcv) => {
                        let ev = poll_completion(&mut rcv);
                        match ev {
                            RecvEvent::Empty => {
                                self.receiver = Some(rcv);
                                PollResult::Pending
                            },
                            other => Self::resolve_completion(other),
                        }
                    },
                    None => vstd::pervasive::unreached(),
                }
            },
        }
    }
}

} // verus!
