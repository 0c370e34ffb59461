use vstd::prelude::*;

use crate::command::Command;
use crate::message::Message;

verus! {

#[verifier::external_type_specification]
#[verifier::external_body]
#[verifier::reject_recursive_types(T)]
pub struct ExOneshotSender<T>(futures::channel::oneshot::Sender<T>);

#[verifier::external_type_specification]
#[verifier::external_body]
#[verifier::reject_recursive_types(T)]
pub struct ExOneshotReceiver<T>(futures::channel::oneshot::Receiver<T>);

#[verifier::external_type_specification]
#[verifier::external_body]
pub struct ExCanceled(futures::channel::oneshot::Canceled);

#[verifier::external_type_specification]
#[verifier::external_body]
#[verifier::reject_recursive_types(T)]
pub struct ExUnboundedSender<T>(futures::channel::mpsc::UnboundedSender<T>);

#[verifier::external_type_specification]
#[verifier::external_body]
#[verifier::reject_recursive_types(T)]
pub struct ExUnboundedReceiver<T>(futures::channel::mpsc::UnboundedReceiver<T>);

/// What one non-blocking poll of a completion receiver can observe.
#[derive(Debug)]
pub enum RecvEvent {
    /// The dispatch loop delivered this reply.
    Value(Message),
    /// Nothing was delivered yet; the sink is still alive.
    Empty,
    /// The sink was dropped without a value.
    Closed,
}

/// What one non-blocking poll of the command queue can observe.
pub enum CommandEvent {
    /// The next queued command.
    Got(Command),
    /// No command is queued right now; the channel is still open.
    Empty,
    /// The channel is closed and fully drained.
    Terminated,
}

/// Relies on futures::channel::oneshot::channel: a fresh single-use pair whose
/// receiver observes at most the one value given to the sender.
#[verifier::external_body]
pub(crate) fn completion_channel() -> (futures::channel::oneshot::Sender<Message>, futures::channel::oneshot::Receiver<Message>) {
    futures::channel::oneshot::channel()
}

/// Relies on futures::channel::oneshot::Sender::send: hands the message to the
/// receiving half if that half is still alive; whether it is depends on the
/// caller holding it, so nothing is promised of the outcome.
#[verifier::external_body]
pub(crate) fn complete_sink(s: futures::channel::oneshot::Sender<Message>, m: Message) {
    let _ = s.send(m);
}

/// Relies on futures::channel::oneshot::Receiver::try_recv: reports the value
/// if one was sent, that none was sent yet, or that the sender is gone.
#[verifier::external_body]
pub(crate) fn poll_completion(r: &mut futures::channel::oneshot::Receiver<Message>) -> RecvEvent {
    match r.try_recv() {
        Ok(Some(m)) => RecvEvent::Value(m),
        Ok(None) => RecvEvent::Empty,
        Err(_) => RecvEvent::Closed,
    }
}

/// Relies on futures::channel::mpsc::unbounded: a fresh multi-producer,
/// single-consumer queue for commands.
#[verifier::external_body]
pub(crate) fn command_channel() -> (futures::channel::mpsc::UnboundedSender<Command>, futures::channel::mpsc::UnboundedReceiver<Command>) {
    futures::channel::mpsc::unbounded()
}

/// Relies on futures::channel::mpsc::UnboundedSender::unbounded_send: enqueues
/// the command unless the receiving half is gone or closed; on failure the
/// very command comes back (TrySendError::into_inner).
#[verifier::external_body]
pub(crate) fn send_command(tx: &futures::channel::mpsc::UnboundedSender<Command>, c: Command) -> (r: Result<(), Command>)
    ensures
        r matches Err(back) ==> back == c,
{
    match tx.unbounded_send(c) {
        Ok(()) => Ok(()),
        Err(e) => Err(e.into_inner()),
    }
}

/// Relies on futures::channel::mpsc::UnboundedSender::clone: a new sender
/// end for the same queue. Nothing further is promised; which queue a sender
/// feeds is not modelled here.
pub assume_specification<T>[ <futures::channel::mpsc::UnboundedSender<T> as Clone>::clone ](
    tx: &futures::channel::mpsc::UnboundedSender<T>,
) -> futures::channel::mpsc::UnboundedSender<T>;

/// Relies on futures::channel::mpsc::UnboundedReceiver::try_recv: pops the
/// next queued command, or reports the queue momentarily empty, or closed and
/// fully drained.
#[verifier::external_body]
pub(crate) fn poll_command(rx: &mut futures::channel::mpsc::UnboundedReceiver<Command>) -> CommandEvent {
    match rx.try_recv() {
        Ok(c) => CommandEvent::Got(c),
        Err(futures::channel::mpsc::TryRecvError::Empty) => CommandEvent::Empty,
        Err(futures::channel::mpsc::TryRecvError::Closed) => CommandEvent::Terminated,
    }
}

/// Relies on futures::channel::mpsc::UnboundedReceiver::close: stops the queue
/// from accepting further sends, so later sends fail at the sender.
#[verifier::external_body]
pub(crate) fn close_commands(rx: &mut futures::channel::mpsc::UnboundedReceiver<Command>) {
    rx.close()
}

} // verus!
