use vstd::prelude::*;

use std::collections::HashMap;

use crate::chan::{close_commands, complete_sink, poll_command, CommandEvent};
use crate::command::Command;
use crate::message::Message;

verus! {

broadcast use vstd::std_specs::hash::group_hash_axioms;

/// What the dispatch loop did with one incoming transport message.
#[derive(Debug)]
pub enum Dispatched {
    /// The message was a reply to a pending identifier: the entry was removed
    /// and delivery into its sink attempted. A delivery that fails because the
    /// caller dropped its future counts the same; the slot is freed either way.
    Matched,
    /// The message was a reply, but no entry was pending for its identifier:
    /// it was discarded.
    Unmatched,
    /// Not a correlated reply at all; handed back for whatever unrelated sink
    /// the surrounding program keeps.
    Passed(Message),
}

/// The background process that owns all reply-correlation state: the sole
/// consumer of the command channel and the only owner and mutator of the
/// pending-request table.
pub struct DispatchLoop {
    commands: futures::channel::mpsc::UnboundedReceiver<Command>,
    pending: HashMap<u32, futures::channel::oneshot::Sender<Message>>,
    running: bool,
}

impl DispatchLoop {
    /// The pending-request table: identifier to completion sink.
    pub closed spec fn pending_map(self) -> Map<u32, futures::channel::oneshot::Sender<Message>> {
        self.pending@
    }

    /// False once the loop has shut down.
    pub closed spec fn running(self) -> bool {
        self.running
    }

    /// A loop that has shut down keeps no pending entry behind.
    pub open spec fn wf(self) -> bool {
        !self.running() ==> self.pending_map() == Map::<u32, futures::channel::oneshot::Sender<Message>>::empty()
    }

    /// Take ownership of the consuming half of the command channel and start
    /// with an empty table.
    pub fn from_commands(commands: futures::channel::mpsc::UnboundedReceiver<Command>) -> (d: DispatchLoop)
        ensures
            d.running(),
            d.pending_map() == Map::<u32, futures::channel::oneshot::Sender<Message>>::empty(),
    {
        DispatchLoop { commands, pending: HashMap::new(), running: true }
    }

    pub fn is_running(&self) -> (r: bool)
        ensures
            r == self.running(),
    {
        self.running
    }

    /// How many requests are pending.
    pub fn pending_count(&self) -> (n: usize)
        ensures
            n == self.pending_map().len(),
    {
        self.pending.len()
    }

    /// Insert a pending entry. A duplicate registration for the same
    /// identifier overwrites the earlier entry; the abandoned sink is dropped
    /// and its future observes closure without a value.
    pub fn register(&mut self, id: u32, sink: futures::channel::oneshot::Sender<Message>)
        requires
            old(self).running(),
        ensures
            final(self).running(),
            final(self).pending_map() == old(self).pending_map().insert(id, sink),
    {
        let _abandoned = self.pending.insert(id, sink);
    }

    /// Stop: close the command channel so later sends fail at the producers,
    /// and drop the whole table, so every pending future observes closure
    /// without a value. Also how a transport failure terminates the loop.
    pub fn shutdown(&mut self)
        ensures
            !final(self).running(),
            final(self).pending_map() == Map::<u32, futures::channel::oneshot::Sender<Message>>::empty(),
    {
        close_commands(&mut self.commands);
        self.pending.clear();
        self.running = false;
    }

    /// Apply one command: register a pending reply, or shut down.
    pub fn handle_command(&mut self, c: Command)
        requires
            old(self).running(),
        ensures
            c matches Command::AddReply(id, sink) ==> final(self).running()
                && final(self).pending_map() == old(self).pending_map().insert(id, sink),
            c is Quit ==> !final(self).running()
                && final(self).pending_map() == Map::<u32, futures::channel::oneshot::Sender<Message>>::empty(),
    {
        match c {
            Command::AddReply(id, sink) => self.register(id, sink),
            Command::Quit => self.shutdown(),
        }
    }

    /// Apply one incoming transport message. A reply whose identifier is
    /// pending has its entry removed — exactly once — and delivery into the
    /// removed sink attempted; a reply nobody waits for is discarded; anything
    /// that is not a reply is handed back untouched.
    pub fn handle_incoming(&mut self, msg: Message) -> (d: Dispatched)
        requires
            old(self).running(),
        ensures
            final(self).running(),
            msg.spec_reply_to() is None ==> final(self).pending_map() == old(self).pending_map()
                && d == Dispatched::Passed(msg),
            msg.spec_reply_to() matches Some(id) ==> {
                &&& final(self).pending_map() == old(self).pending_map().remove(id)
                &&& d == if old(self).pending_map().contains_key(id) {
                    Dispatched::Matched
                } else {
                    Dispatched::Unmatched
                }
            },
    {
        match msg.reply_to() {
            None => Dispatched::Passed(msg),
            Some(id) => {
                match self.pending.remove(&id) {
                    Some(sink) => {
                        complete_sink(sink, msg);
                        Dispatched::Matched
                    },
                    None => Dispatched::Unmatched,
                }
            },
        }
    }

    /// Consume queued commands, stopping when the queue is momentarily empty,
    /// fully drained, or a shutdown command arrived — and in any case after
    /// `max` commands, since producers may keep the unbounded queue non-empty
    /// forever. What arrives is the producers' choice, so only this much is
    /// promised: the loop either still runs, or it shut down and kept no
    /// entry behind.
    pub fn pump_commands(&mut self, max: usize)
        requires
            old(self).wf(),
        ensures
            final(self).wf(),
    {
        let mut handled: usize = 0;
        while handled < max
            invariant
                self.wf(),
            decreases max - handled,
        {
            if !self.running {
                break;
            }
            match poll_command(&mut self.commands) {
                CommandEvent::Got(c) => {
                    self.handle_command(c);
                },
                CommandEvent::Empty => {
                    break;
                },
                CommandEvent::Terminated => {
                    break;
                },
            }
            handled = handled + 1;
        }
    }
}

} // verus!
