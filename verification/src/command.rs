use vstd::prelude::*;

use crate::message::Message;

verus! {

/// What caller-facing handles send to the dispatch loop over the command
/// channel. Commands are immutable once sent; each producer's commands are
/// consumed in the order it sent them.
pub enum Command {
    /// Ask the loop to deliver the reply tagged with the identifier into the
    /// given single-use sink.
    AddReply(u32, futures::channel::oneshot::Sender<Message>),
    /// Ask the loop to stop, dropping every pending entry.
    Quit,
}

} // verus!
