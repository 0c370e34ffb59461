use vstd::prelude::*;

use crate::chan::{command_channel, send_command};
use crate::command::Command;
use crate::dispatch::DispatchLoop;
use crate::error::Error;
use crate::message::{Message, MessageKind};
use crate::reply::ReplyMessage;

verus! {

/// The model of the transport collaborator, as far as the engine reads it:
/// the serial counter, the connection's health, its identity, and the queue
/// of accepted outgoing messages. Wire I/O, flushing and marshalling stay
/// with the real transport outside this library.
pub struct Transport {
    /// The identifier the next accepted message will be assigned.
    pub next_serial: u32,
    /// False once the connection is broken: every enqueue is rejected.
    pub healthy: bool,
    /// The connection's unique bus name, once connected.
    pub unique_name: Option<String>,
    /// Messages accepted for sending, oldest first.
    pub outgoing: Vec<Message>,
}

impl Transport {
    /// The serial that follows `s`, skipping the unused value zero at
    /// wrap-around.
    pub open spec fn spec_next(s: u32) -> u32 {
        if s == u32::MAX {
            1u32
        } else {
            (s + 1) as u32
        }
    }

    /// A healthy transport assigning serials from 1.
    pub fn new(unique_name: Option<String>) -> (t: Transport)
        ensures
            t.next_serial == 1u32,
            t.healthy,
            t.unique_name == unique_name,
            t.outgoing@ == Seq::<Message>::empty(),
    {
        Transport { next_serial: 1, healthy: true, unique_name, outgoing: Vec::new() }
    }

    /// Accept a message into the outgoing queue and assign it the next
    /// serial; a broken transport rejects it and changes nothing.
    pub fn enqueue(&mut self, msg: Message) -> (r: Result<u32, ()>)
        ensures
            old(self).healthy ==> r == Ok::<u32, ()>(old(self).next_serial)
                && final(self).outgoing@ == old(self).outgoing@.push(msg)
                && final(self).next_serial == Self::spec_next(old(self).next_serial)
                && final(self).healthy
                && final(self).unique_name == old(self).unique_name,
            !old(self).healthy ==> r == Err::<u32, ()>(()) && *final(self) == *old(self),
    {
        if self.healthy {
            let serial = self.next_serial;
            self.next_serial = if serial == u32::MAX { 1 } else { serial + 1 };
            self.outgoing.push(msg);
            Ok(serial)
        } else {
            Err(())
        }
    }
}

/// The cheaply cloneable front door callers use to submit messages and
/// register replies: a cloned sender end of the command channel. All clones
/// talk to the same dispatch loop.
#[derive(Clone)]
pub struct ConnHandle {
    pub(crate) cmd: futures::channel::mpsc::UnboundedSender<Command>,
}

impl ConnHandle {
    /// Create the connection front door together with the dispatch loop that
    /// will consume its commands.
    pub fn new() -> (r: (ConnHandle, DispatchLoop))
        ensures
            r.1.running(),
            r.1.pending_map() == Map::<u32, futures::channel::oneshot::Sender<Message>>::empty(),
    {
        let (tx, rx) = command_channel();
        (ConnHandle { cmd: tx }, DispatchLoop::from_commands(rx))
    }

    /// Put a message into the transport's out queue. On success the assigned
    /// serial number comes back, to match a reply against; a broken transport
    /// fails with `TransportFailed`. Flushing the queue is out of scope.
    pub fn send(&self, t: &mut Transport, msg: Message) -> (r: Result<u32, Error>)
        ensures
            old(t).healthy ==> r == Ok::<u32, Error>(old(t).next_serial)
                && final(t).outgoing@ == old(t).outgoing@.push(msg)
                && final(t).next_serial == Transport::spec_next(old(t).next_serial)
                && final(t).healthy
                && final(t).unique_name == old(t).unique_name,
            !old(t).healthy ==> r == Err::<u32, Error>(Error::TransportFailed) && *final(t) == *old(t),
    {
        match t.enqueue(msg) {
            Ok(serial) => Ok(serial),
            Err(()) => Err(Error::TransportFailed),
        }
    }

    /// Create a fresh completion channel and register it for `serial`.
    pub fn register_reply(&self, serial: u32) -> (r: ReplyMessage)
        ensures
            r.wf(),
            !r.is_done(),
            r.is_failed() ==> r.failure_of() == Error::DispatchUnavailable,
    {
        ReplyMessage::new(serial, self)
    }

    /// The connection's unique name, usually something like ":1.54".
    pub fn unique_name<'a>(&self, t: &'a Transport) -> (r: &'a str)
        requires
            t.unique_name is Some,
        ensures
            r@ == t.unique_name.unwrap()@,
    {
        t.unique_name.as_ref().unwrap().as_str()
    }

    /// A convenience for calling several methods on one destination and path.
    pub fn with_path(&self, dest: String, path: String) -> (r: ConnPath)
        ensures
            r.dest == dest,
            r.path == path,
    {
        ConnPath { conn: self.clone(), dest, path }
    }

    /// Ask the dispatch loop to stop. Harmless to repeat: once the loop is
    /// gone the send fails quietly and `Err` comes back.
    pub fn quit(&self) -> (r: Result<(), ()>)
    {
        match send_command(&self.cmd, Command::Quit) {
            Ok(()) => Ok(()),
            Err(_) => Err(()),
        }
    }
}

/// Typed signals: what a caller implements to turn a value into the signal
/// message that broadcasts it from a path.
pub trait SignalArgs {
    fn to_emit_message(&self, path: &String) -> Message;
}

/// A destination- and path-scoped convenience for calling methods and
/// emitting signals through one connection handle.
#[derive(Clone)]
pub struct ConnPath {
    /// A clone of the connection handle.
    pub conn: ConnHandle,
    /// The service being addressed.
    pub dest: String,
    /// The object path on that service.
    pub path: String,
}

impl ConnPath {
    /// Build a method call, let `f` append its arguments, enqueue it, and
    /// register a reply future for its serial. A broken transport yields a
    /// future born failed with `TransportFailed`; a gone dispatch loop one
    /// born failed with `DispatchUnavailable`.
    pub fn method_call_with_args<F: FnOnce(Message) -> Message>(
        &self,
        t: &mut Transport,
        interface: String,
        member: String,
        f: F,
    ) -> (r: ReplyMessage)
        requires
            forall|m: Message| #[trigger] call_requires(f, (m,)),
        ensures
            r.wf(),
            !r.is_done(),
            !old(t).healthy ==> *final(t) == *old(t) && r.is_failed()
                && r.failure_of() == Error::TransportFailed,
            old(t).healthy ==> {
                &&& final(t).next_serial == Transport::spec_next(old(t).next_serial)
                &&& final(t).healthy
                &&& final(t).unique_name == old(t).unique_name
                &&& exists|base: Message, built: Message| {
                    &&& base.kind == (MessageKind::MethodCall {
                        dest: self.dest,
                        path: self.path,
                        interface,
                        member,
                    })
                    &&& base.args@.len() == 0
                    &&& #[trigger] call_ensures(f, (base,), built)
                    &&& final(t).outgoing@ == old(t).outgoing@.push(built)
                }
                &&& (r.is_failed() ==> r.failure_of() == Error::DispatchUnavailable)
            },
    {
        let base = Message::method_call(self.dest.clone(), self.path.clone(), interface, member);
        let msg = f(base);
        match self.conn.send(t, msg) {
            Ok(serial) => ReplyMessage::new(serial, &self.conn),
            Err(e) => ReplyMessage::failed(e),
        }
    }

    /// Build a signal, let `f` append its arguments, and enqueue it.
    pub fn signal_with_args<F: FnOnce(Message) -> Message>(
        &self,
        t: &mut Transport,
        interface: String,
        member: String,
        f: F,
    ) -> (r: Result<u32, Error>)
        requires
            forall|m: Message| #[trigger] call_requires(f, (m,)),
        ensures
            !old(t).healthy ==> *final(t) == *old(t) && r == Err::<u32, Error>(Error::TransportFailed),
            old(t).healthy ==> {
                &&& r == Ok::<u32, Error>(old(t).next_serial)
                &&& final(t).next_serial == Transport::spec_next(old(t).next_serial)
                &&& final(t).healthy
                &&& final(t).unique_name == old(t).unique_name
                &&& exists|base: Message, built: Message| {
                    &&& base.kind == (MessageKind::Signal { path: self.path, interface, member })
                    &&& base.args@.len() == 0
                    &&& #[trigger] call_ensures(f, (base,), built)
                    &&& final(t).outgoing@ == old(t).outgoing@.push(built)
                }
            },
    {
        let base = Message::signal(self.path.clone(), interface, member);
        let msg = f(base);
        self.conn.send(t, msg)
    }

    /// Emit a typed signal: build its message from the value and enqueue it.
    pub fn emit<S: SignalArgs>(&self, t: &mut Transport, signal: &S) -> (r: Result<u32, Error>)
        ensures
            !old(t).healthy ==> *final(t) == *old(t) && r == Err::<u32, Error>(Error::TransportFailed),
            old(t).healthy ==> {
                &&& r == Ok::<u32, Error>(old(t).next_serial)
                &&& final(t).next_serial == Transport::spec_next(old(t).next_serial)
                &&& final(t).healthy
                &&& final(t).unique_name == old(t).unique_name
                &&& exists|m: Message| final(t).outgoing@ == #[trigger] old(t).outgoing@.push(m)
            },
    {
        let msg = signal.to_emit_message(&self.path);
        self.conn.send(t, msg)
    }
}

} // verus!
