//! The messages that this client has sent and the homeserver has not yet
//! confirmed.

use vstd::prelude::*;
use std::collections::HashMap;
use crate::events::RoomMessageEventContent;

verus! {

/// The messages on their way, by transaction identifier: whether a local
/// echo stands on display for the message, and its content.
#[derive(Debug)]
pub struct MessageQueue {
    queue: HashMap<u128, (bool, RoomMessageEventContent)>,
}

impl View for MessageQueue {
    type V = Map<u128, (bool, RoomMessageEventContent)>;

    closed spec fn view(&self) -> Map<u128, (bool, RoomMessageEventContent)> {
        self.queue@
    }
}

impl MessageQueue {
    /// A queue without messages.
    pub fn new() -> (queue: Self)
        ensures
            queue@ == Map::<u128, (bool, RoomMessageEventContent)>::empty(),
    {
        MessageQueue { queue: HashMap::new() }
    }

    /// Notes a message that has no local echo.
    pub fn add(&mut self, uuid: u128, content: RoomMessageEventContent)
        ensures
            final(self)@ == old(self)@.insert(uuid, (false, content)),
    {
        broadcast use vstd::std_specs::hash::group_hash_axioms;

        self.queue.insert(uuid, (false, content));
    }

    /// Notes a message whose local echo stands on display.
    pub fn add_with_echo(&mut self, uuid: u128, content: RoomMessageEventContent)
        ensures
            final(self)@ == old(self)@.insert(uuid, (true, content)),
    {
        broadcast use vstd::std_specs::hash::group_hash_axioms;

        self.queue.insert(uuid, (true, content));
    }

    /// Takes a message out of the queue, if it is there.
    pub fn remove(&mut self, uuid: u128) -> (entry: Option<(bool, RoomMessageEventContent)>)
        ensures
            final(self)@ == old(self)@.remove(uuid),
            entry == (if old(self)@.contains_key(uuid) {
                Some(old(self)@[uuid])
            } else {
                None
            }),
    {
        broadcast use vstd::std_specs::hash::group_hash_axioms;

        self.queue.remove(&uuid)
    }

    /// Whether a message is on its way under this identifier.
    pub fn contains(&self, uuid: u128) -> (found: bool)
        ensures
            found == self@.contains_key(uuid),
    {
        broadcast use vstd::std_specs::hash::group_hash_axioms;

        self.queue.contains_key(&uuid)
    }

    /// The number of messages on their way.
    pub fn len(&self) -> (n: usize)
        ensures
            n == self@.len(),
    {
        broadcast use vstd::std_specs::hash::group_hash_axioms;

        self.queue.len()
    }
}

} // verus!
