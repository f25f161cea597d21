//! Bounded first-in-first-out queue of outbound messages.

use crate::message::{Message, MessageView};
use std::collections::VecDeque;
use vstd::prelude::*;

verus! {

/// Default number of messages that the queue holds.
pub const DEFAULT_QUEUE_CAPACITY: usize = 16;

/// The queue after `message` is appended to `queued` under `capacity`:
/// when the queue is full, the oldest entry makes room.
pub open spec fn enqueued(queued: Seq<MessageView>, capacity: nat, message: MessageView) -> Seq<
    MessageView,
> {
    if queued.len() < capacity {
        queued.push(message)
    } else {
        queued.skip(1).push(message)
    }
}

/// Messages that wait for the session, oldest first.
pub struct OutboundQueue {
    items: VecDeque<Message>,
    capacity: usize,
}

impl View for OutboundQueue {
    type V = Seq<MessageView>;

    closed spec fn view(&self) -> Seq<MessageView> {
        self.items@.map_values(|m: Message| m@)
    }
}

impl OutboundQueue {
    #[verifier::type_invariant]
    spec fn inv(self) -> bool {
        0 < self.capacity && self.items@.len() <= self.capacity
    }

    /// The number of messages that the queue was made for.
    pub closed spec fn capacity_spec(&self) -> nat {
        self.capacity as nat
    }

    /// An empty queue for `capacity` messages; a queue for none is refused.
    pub fn new(capacity: usize) -> (queue: Option<OutboundQueue>)
        ensures
            queue is Some <==> capacity > 0,
            queue matches Some(q) ==> q@ == Seq::<MessageView>::empty() && q.capacity_spec()
                == capacity,
    {
        if capacity == 0 {
            return None;
        }
        let queue = OutboundQueue { items: VecDeque::new(), capacity };
        assert(queue@ =~= Seq::<MessageView>::empty());
        Some(queue)
    }

    /// An empty queue of the default capacity.
    pub fn with_default_capacity() -> (queue: OutboundQueue)
        ensures
            queue@ == Seq::<MessageView>::empty(),
            queue.capacity_spec() == DEFAULT_QUEUE_CAPACITY,
    {
        let queue = OutboundQueue { items: VecDeque::new(), capacity: DEFAULT_QUEUE_CAPACITY };
        assert(queue@ =~= Seq::<MessageView>::empty());
        queue
    }

    /// The capacity.
    pub fn capacity(&self) -> (capacity: usize)
        ensures
            capacity == self.capacity_spec(),
            capacity > 0,
            self@.len() <= capacity,
    {
        proof {
            use_type_invariant(self);
        }
        self.capacity
    }

    /// The number of queued messages, never above the capacity.
    pub fn len(&self) -> (len: usize)
        ensures
            len == self@.len(),
            len <= self.capacity_spec(),
    {
        proof {
            use_type_invariant(self);
        }
        self.items.len()
    }

    /// Whether nothing is queued.
    pub fn is_empty(&self) -> (empty: bool)
        ensures
            empty == (self@.len() == 0),
    {
        self.items.len() == 0
    }

    /// Whether the next message will push the oldest one out.
    pub fn is_full(&self) -> (full: bool)
        ensures
            full == (self@.len() == self.capacity_spec()),
    {
        proof {
            use_type_invariant(self);
        }
        self.items.len() == self.capacity
    }

    /// Appends `message`. A full queue first drops its oldest entry, which
    /// is handed back.
    pub fn enqueue(&mut self, message: Message) -> (dropped: Option<Message>)
        ensures
            final(self).capacity_spec() == old(self).capacity_spec(),
            final(self)@ == enqueued(old(self)@, old(self).capacity_spec(), message@),
            final(self)@.len() <= final(self).capacity_spec(),
            dropped is Some <==> old(self)@.len() == old(self).capacity_spec(),
            dropped matches Some(d) ==> d@ == old(self)@[0],
    {
        proof {
            use_type_invariant(&*self);
        }
        let mut items = VecDeque::new();
        std::mem::swap(&mut items, &mut self.items);
        let dropped = if items.len() >= self.capacity {
            items.pop_front()
        } else {
            None
        };
        items.push_back(message);
        self.items = items;
        assert(self@ =~= enqueued(old(self)@, old(self).capacity_spec(), message@));
        dropped
    }

    /// Takes the oldest message out, if there is one.
    pub fn dequeue(&mut self) -> (message: Option<Message>)
        ensures
            final(self).capacity_spec() == old(self).capacity_spec(),
            message is Some <==> old(self)@.len() > 0,
            message matches Some(m) ==> m@ == old(self)@[0] && final(self)@ == old(self)@.skip(1),
            message is None ==> final(self)@ == old(self)@,
            final(self)@.len() <= final(self).capacity_spec(),
    {
        proof {
            use_type_invariant(&*self);
        }
        let mut items = VecDeque::new();
        std::mem::swap(&mut items, &mut self.items);
        let message = items.pop_front();
        self.items = items;
        assert(message is Some ==> self@ =~= old(self)@.skip(1));
        assert(message is None ==> self@ =~= old(self)@);
        message
    }

    /// The oldest message, if there is one; it stays queued.
    pub fn front(&self) -> (message: Option<&Message>)
        ensures
            message is Some <==> self@.len() > 0,
            message matches Some(m) ==> m@ == self@[0],
    {
        if self.items.len() == 0 {
            None
        } else {
            Some(&self.items[0])
        }
    }

    /// Drops every queued message.
    pub fn clear(&mut self)
        ensures
            final(self).capacity_spec() == old(self).capacity_spec(),
            final(self)@ == Seq::<MessageView>::empty(),
    {
        proof {
            use_type_invariant(&*self);
        }
        self.items = VecDeque::new();
        assert(self@ =~= Seq::<MessageView>::empty());
    }
}

} // verus!
