//! The broadcast hub: the message store and the registry of subscriber
//! queues, changed together under exclusive access.

use crate::channel::accepted;
use crate::channel::offer;
use crate::channel::open_channel;
use crate::history::History;
use crate::history::HISTORY_CAPACITY;
use crate::message::texts;
use crate::message::Message;
use crate::model::lemma_picked_step;
use crate::model::picked;
use crate::model::HubState;
use crate::model::Inbox;
use futures::channel::mpsc::UnboundedReceiver;
use futures::channel::mpsc::UnboundedSender;
use vstd::prelude::*;

verus! {

/// A registered queue: its handle and the end that the hub writes to.
struct Subscriber {
    id: u64,
    sender: UnboundedSender<String>,
}

impl Subscriber {
    /// The queue as the contracts see it.
    spec fn inbox(self) -> Inbox {
        Inbox { id: self.id, delivered: accepted(self.sender) }
    }
}

/// What a new subscriber is handed.
pub struct Subscription {
    /// The handle to unsubscribe with.
    pub id: u64,
    /// The stored messages at the moment of subscribing, oldest first.
    pub backlog: Vec<Message>,
    /// The reading end of the new queue. It yields the text of every message
    /// published from now on.
    pub inbox: UnboundedReceiver<String>,
}

/// The broadcast hub.
pub struct Hub {
    history: History,
    subscribers: Vec<Subscriber>,
    next_id: u64,
}

impl View for Hub {
    type V = HubState;

    closed spec fn view(&self) -> HubState {
        HubState {
            history: self.history@,
            inboxes: Seq::new(self.subscribers@.len(), |i: int| self.subscribers@[i].inbox()),
            next_id: self.next_id as nat,
        }
    }
}

impl Hub {
    /// What holds of every hub at all times: the store is within its bound,
    /// no handle is registered twice, and every registered handle has been
    /// given out.
    #[verifier::type_invariant]
    pub closed spec fn valid(self) -> bool {
        &&& self.history@.len() <= HISTORY_CAPACITY
        &&& forall|i: int|
            0 <= i < self.subscribers@.len() ==> (#[trigger] self.subscribers@[i]).id
                < self.next_id
        &&& forall|i: int, j: int|
            0 <= i < j < self.subscribers@.len() ==> (#[trigger] self.subscribers@[i]).id != (
            #[trigger] self.subscribers@[j]).id
    }

    /// A hub of which `valid` holds is valid as the contracts see it.
    pub proof fn lemma_valid(self)
        requires
            self.valid(),
        ensures
            self@.wf(),
    {
    }

    /// A hub with an empty store and nobody subscribed.
    pub fn new() -> (hub: Self)
        ensures
            hub@ == HubState::fresh(),
            hub@.wf(),
    {
        let history = History::new();
        let subscribers: Vec<Subscriber> = Vec::new();
        Hub { history, subscribers, next_id: 0 }
    }

    /// The handle that the next subscriber will get.
    pub fn next_id(&self) -> (id: u64)
        ensures
            id == self@.next_id,
    {
        self.next_id
    }

    /// The number of registered queues.
    pub fn subscriber_count(&self) -> (count: usize)
        ensures
            count == self@.inboxes.len(),
    {
        self.subscribers.len()
    }

    /// A copy of the stored messages, oldest first.
    pub fn snapshot(&self) -> (copy: Vec<Message>)
        ensures
            texts(copy@) == self@.history,
    {
        self.history.snapshot()
    }

    /// Where in the registry the queue with this handle stands, if it is
    /// there.
    fn locate(&self, id: u64) -> (found: Option<usize>)
        ensures
            match found {
                Some(at) => at < self@.inboxes.len() && self@.inboxes[at as int].id == id,
                None => !self@.has(id),
            },
    {
        let mut i: usize = 0;
        while i < self.subscribers.len()
            invariant
                i <= self.subscribers@.len(),
                forall|j: int| 0 <= j < i ==> self@.inboxes[j].id != id,
            decreases self.subscribers@.len() - i,
        {
            if self.subscribers[i].id == id {
                return Some(i);
            }
            i = i + 1;
        }
        None
    }

    /// Takes the registry out and leaves an empty one, which is valid too.
    fn take_registry(&mut self) -> (registry: Vec<Subscriber>)
        ensures
            registry == old(self).subscribers,
            final(self).subscribers@.len() == 0,
            final(self).history == old(self).history,
            final(self).next_id == old(self).next_id,
    {
        proof {
            use_type_invariant(&*self);
        }
        let mut registry: Vec<Subscriber> = Vec::new();
        std::mem::swap(&mut registry, &mut self.subscribers);
        registry
    }

    /// Registers a new queue and hands out its reading end together with a
    /// copy of the store as it is now. Nothing is in the queue yet: what is
    /// in the backlog does not come again.
    pub fn subscribe(&mut self) -> (subscription: Subscription)
        requires
            old(self)@.next_id < u64::MAX,
        ensures
            final(self)@ == old(self)@.subscribe(),
            final(self)@.wf(),
            subscription.id == old(self)@.next_id,
            texts(subscription.backlog@) == old(self)@.history,
    {
        proof {
            use_type_invariant(&*self);
        }
        let backlog = self.history.snapshot();
        let (sender, inbox) = open_channel();
        let id = self.next_id;
        let mut registry = self.take_registry();
        registry.push(Subscriber { id, sender });
        self.next_id = id + 1;
        self.subscribers = registry;
        Subscription { id, backlog, inbox }
    }

    /// Stores `message`, then offers its text to every registered queue in
    /// turn. A queue whose reader is gone refuses it; that stops nothing, and
    /// the handles of those queues are returned, in the order of the registry.
    pub fn publish(&mut self, message: Message) -> (refused: Vec<u64>)
        ensures
            final(self)@ == old(self)@.publish(message@, refused@.to_set()),
            final(self)@.wf(),
            refused@ == picked(old(self)@.ids(), refused@.to_set()),
    {
        proof {
            use_type_invariant(&*self);
        }
        let ghost before = self@;
        let ghost text = message@;
        let content = message.content.clone();
        // The store is changed outside the hub and put back: the hub is
        // valid at every moment in between.
        let mut history = History::new();
        std::mem::swap(&mut history, &mut self.history);
        history.append(message);
        self.history = history;
        let mut registry = self.take_registry();
        let mut refused: Vec<u64> = Vec::new();
        let mut i: usize = 0;
        while i < registry.len()
            invariant
                before.wf(),
                content@ == text,
                i <= registry@.len(),
                registry@.len() == before.inboxes.len(),
                forall|j: int|
                    0 <= j < registry@.len() ==> (#[trigger] registry@[j]).inbox().id
                        == before.inboxes[j].id,
                forall|j: int|
                    i <= j < registry@.len() ==> (#[trigger] registry@[j]).inbox()
                        == before.inboxes[j],
                forall|j: int|
                    0 <= j < i ==> (#[trigger] registry@[j]).inbox().delivered
                        == if refused@.contains(before.ids()[j]) {
                        before.inboxes[j].delivered
                    } else {
                        before.inboxes[j].delivered.push(text)
                    },
                forall|k: int|
                    0 <= k < refused@.len() ==> before.ids().take(i as int).contains(
                        #[trigger] refused@[k],
                    ),
                refused@ == picked(before.ids().take(i as int), refused@.to_set()),
            decreases registry@.len() - i,
        {
            let ghost earlier = refused@;
            let taken = offer(&mut registry[i].sender, content.clone());
            if !taken {
                refused.push(registry[i].id);
            }
            proof {
                lemma_picked_step(before.ids(), i as int, earlier, taken);
            }
            i = i + 1;
        }
        assert(before.ids().take(i as int) =~= before.ids());
        self.subscribers = registry;
        refused
    }

    /// Takes the queue with this handle out of the registry and drops the
    /// hub's end of it. Returns whether it was there.
    pub fn unsubscribe(&mut self, id: u64) -> (removed: bool)
        ensures
            final(self)@ == old(self)@.unsubscribe(id),
            final(self)@.wf(),
            removed == old(self)@.has(id),
    {
        proof {
            use_type_invariant(&*self);
        }
        match self.locate(id) {
            Some(at) => {
                let mut registry = self.take_registry();
                let _ = registry.remove(at);
                self.subscribers = registry;
                true
            },
            None => false,
        }
    }
}

} // verus!
