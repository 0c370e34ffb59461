use vstd::prelude::*;

use crate::error::Error;
use crate::message::Message;
use crate::reply::{PollResult, ReplyMessage};

verus! {

/// A reply future composed with a caller-supplied transform: the raw reply is
/// polled to completion; on a successful reply the transform runs exactly
/// once and its result — success or error — is the outer result; on a failure
/// the error propagates untouched and the transform never runs.
#[verifier::reject_recursive_types(T)]
pub struct MethodReply<T, F> where F: FnOnce(Message) -> Result<T, Error> {
    inner: ReplyMessage,
    transform: Option<F>,
}

impl<T, F: FnOnce(Message) -> Result<T, Error>> MethodReply<T, F> {
    /// The raw reply future underneath.
    pub closed spec fn spec_inner(self) -> ReplyMessage {
        self.inner
    }

    /// The transform, still owned until its one invocation.
    pub closed spec fn spec_transform(self) -> Option<F> {
        self.transform
    }

    /// The inner future is well formed, the transform is callable on any
    /// message, and it is still owned while a resolution is outstanding.
    pub open spec fn wf(self) -> bool {
        &&& self.spec_inner().wf()
        &&& !self.spec_inner().is_done() ==> self.spec_transform() is Some
        &&& self.spec_transform() matches Some(f) ==> forall|m: Message| #[trigger] call_requires(f, (m,))
    }

    /// True once the composed future has resolved.
    pub fn resolved(&self) -> (r: bool)
        ensures
            r == self.spec_inner().is_done(),
    {
        self.inner.resolved()
    }

    /// Chain `parse_fn` onto a raw reply future.
    pub fn from_msg(msg: ReplyMessage, parse_fn: F) -> (r: Self)
        requires
            msg.wf(),
            !msg.is_done(),
            forall|m: Message| #[trigger] call_requires(parse_fn, (m,)),
        ensures
            r.wf(),
            r.spec_inner() == msg,
            r.spec_transform() == Some(parse_fn),
    {
        MethodReply { inner: msg, transform: Some(parse_fn) }
    }

    /// Drive the composed future one step. `Pending` leaves everything
    /// untouched. A resolution either propagates an error of the raw reply
    /// with the transform never invoked, or consumes the transform on a
    /// successful reply and yields exactly what the transform returned.
    /// Polling after a resolution is not a supported pattern.
    pub fn try_poll(&mut self) -> (r: PollResult<Result<T, Error>>)
        requires
            old(self).wf(),
            !old(self).spec_inner().is_done(),
        ensures
            final(self).wf(),
            old(self).spec_inner().is_failed() ==> (r matches PollResult::Ready(v)
                && v == Err::<T, Error>(old(self).spec_inner().failure_of())
                && final(self).spec_transform() == old(self).spec_transform()),
            r is Pending ==> final(self).spec_transform() == old(self).spec_transform()
                && !final(self).spec_inner().is_done(),
            r matches PollResult::Ready(v) ==> final(self).spec_inner().is_done() && {
                ||| {
                    &&& final(self).spec_transform() == old(self).spec_transform()
                    &&& v matches Err(e)
                    &&& (e == old(self).spec_inner().failure_of() && old(self).spec_inner().is_failed())
                        || e is RemoteError || e is ClosedWithoutReply
                }
                ||| {
                    &&& final(self).spec_transform() is None
                    &&& exists|m: Message|
                        !(m.kind is ErrorReply)
                            && #[trigger] call_ensures(old(self).spec_transform().unwrap(), (m,), v)
                }
            },
    {
        match self.inner.try_poll() {
            PollResult::Pending => PollResult::Pending,
            PollResult::Ready(Ok(m)) => {
                let f = self.transform.take().unwrap();
                PollResult::Ready(f(m))
            },
            PollResult::Ready(Err(e)) => PollResult::Ready(Err(e)),
        }
    }
}

} // verus!
