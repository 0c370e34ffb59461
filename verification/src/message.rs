use vstd::prelude::*;

use crate::error::Error;

verus! {

/// What a message is on the bus, together with the correlation data the
/// dispatch loop reads from it.
#[derive(Clone, Debug, PartialEq, Eq)]
pub enum MessageKind {
    /// An outgoing request to a destination service.
    MethodCall { dest: String, path: String, interface: String, member: String },
    /// A broadcast carrying no correlation identifier.
    Signal { path: String, interface: String, member: String },
    /// A successful reply to the request that was assigned `reply_to`.
    MethodReturn { reply_to: u32 },
    /// An error reply to the request that was assigned `reply_to`.
    ErrorReply { reply_to: u32, name: String },
}

/// A message, with its arguments as plain strings. Marshalling of richer
/// payloads belongs to the transport and is out of scope here.
#[derive(Clone, Debug, PartialEq, Eq)]
pub struct Message {
    pub kind: MessageKind,
    pub args: Vec<String>,
}

impl Message {
    /// The identifier of the request this message replies to, if it is a reply.
    pub open spec fn spec_reply_to(self) -> Option<u32> {
        match self.kind {
            MessageKind::MethodReturn { reply_to } => Some(reply_to),
            MessageKind::ErrorReply { reply_to, .. } => Some(reply_to),
            _ => None,
        }
    }

    /// The text an error reply carries: its first argument, if any.
    pub open spec fn spec_error_text(self) -> Seq<char> {
        if self.args.len() > 0 {
            self.args[0]@
        } else {
            Seq::<char>::empty()
        }
    }

    pub fn reply_to(&self) -> (r: Option<u32>)
        ensures
            r == self.spec_reply_to(),
    {
        match &self.kind {
            MessageKind::MethodReturn { reply_to } => Some(*reply_to),
            MessageKind::ErrorReply { reply_to, .. } => Some(*reply_to),
            _ => None,
        }
    }

    /// Build a method-call message carrying no arguments yet.
    pub fn method_call(dest: String, path: String, interface: String, member: String) -> (m: Message)
        ensures
            m.kind == (MessageKind::MethodCall { dest, path, interface, member }),
            m.args@ == Seq::<String>::empty(),
    {
        Message { kind: MessageKind::MethodCall { dest, path, interface, member }, args: Vec::new() }
    }

    /// Build a signal message carrying no arguments yet.
    pub fn signal(path: String, interface: String, member: String) -> (m: Message)
        ensures
            m.kind == (MessageKind::Signal { path, interface, member }),
            m.args@ == Seq::<String>::empty(),
    {
        Message { kind: MessageKind::Signal { path, interface, member }, args: Vec::new() }
    }

    /// Build a successful reply to the request with serial `reply_to`.
    pub fn method_return(reply_to: u32) -> (m: Message)
        ensures
            m.kind == (MessageKind::MethodReturn { reply_to }),
            m.args@ == Seq::<String>::empty(),
    {
        Message { kind: MessageKind::MethodReturn { reply_to }, args: Vec::new() }
    }

    /// Build an error reply to the request with serial `reply_to`.
    pub fn error_reply(reply_to: u32, name: String) -> (m: Message)
        ensures
            m.kind == (MessageKind::ErrorReply { reply_to, name }),
            m.args@ == Seq::<String>::empty(),
    {
        Message { kind: MessageKind::ErrorReply { reply_to, name }, args: Vec::new() }
    }

    /// Append one argument, leaving everything else as it was.
    pub fn append_arg(&mut self, arg: String)
        ensures
            final(self).kind == old(self).kind,
            final(self).args@ == old(self).args@.push(arg),
    {
        self.args.push(arg);
    }

    /// Interpret a delivered reply: an error reply converts to the remote
    /// error it encodes, every other message is a successful reply.
    pub fn into_result(self) -> (r: Result<Message, Error>)
        ensures
            resolves_to(self, r),
    {
        let Message { kind, args } = self;
        match kind {
            MessageKind::ErrorReply { reply_to: _, name } => {
                let text = if args.len() > 0 {
                    args[0].clone()
                } else {
                    String::new()
                };
                Err(Error::RemoteError { name, text })
            },
            other => Ok(Message { kind: other, args }),
        }
    }
}

/// How a delivered reply message resolves for the caller: the message itself
/// when it is not an error reply, otherwise the remote error carrying the
/// reply's error name and its first argument as text.
pub open spec fn resolves_to(m: Message, v: Result<Message, Error>) -> bool {
    match v {
        Ok(got) => got == m && !(m.kind is ErrorReply),
        Err(e) => {
            &&& m.kind is ErrorReply
            &&& e matches Error::RemoteError { name, text }
                && (m.kind matches MessageKind::ErrorReply { name: reply_name, .. }
                    && name@ == reply_name@)
                && text@ == m.spec_error_text()
        },
    }
}

} // verus!
