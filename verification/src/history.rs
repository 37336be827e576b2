//! The message store: the most recent messages, oldest first.

use crate::message::texts;
use crate::message::Message;
use std::collections::VecDeque;
use vstd::prelude::*;

verus! {

/// How many messages the store keeps.
pub const HISTORY_CAPACITY: usize = 100;

/// What a store keeps of a log: all of it while it fits, else its last
/// `HISTORY_CAPACITY` entries.
pub open spec fn retained(log: Seq<Seq<char>>) -> Seq<Seq<char>> {
    if log.len() <= HISTORY_CAPACITY {
        log
    } else {
        log.subrange(log.len() - HISTORY_CAPACITY, log.len() as int)
    }
}

/// A bounded, append-only log of the most recent messages.
pub struct History {
    entries: VecDeque<Message>,
}

impl View for History {
    type V = Seq<Seq<char>>;

    closed spec fn view(&self) -> Seq<Seq<char>> {
        texts(self.entries@)
    }
}

impl History {
    /// The store never holds more than `HISTORY_CAPACITY` messages.
    #[verifier::type_invariant]
    spec fn bounded(self) -> bool {
        self.entries@.len() <= HISTORY_CAPACITY
    }

    /// An empty store.
    pub fn new() -> (history: Self)
        ensures
            history@ == Seq::<Seq<char>>::empty(),
    {
        History { entries: VecDeque::new() }
    }

    /// The number of messages held.
    pub fn len(&self) -> (count: usize)
        ensures
            count == self@.len(),
            count <= HISTORY_CAPACITY,
    {
        proof {
            use_type_invariant(self);
        }
        self.entries.len()
    }

    /// Adds `message` at the end, then drops entries from the front until no
    /// more than `HISTORY_CAPACITY` are left.
    pub fn append(&mut self, message: Message)
        ensures
            final(self)@ == retained(old(self)@.push(message@)),
    {
        let ghost log = self@.push(message@);
        let mut entries: VecDeque<Message> = VecDeque::new();
        std::mem::swap(&mut entries, &mut self.entries);
        entries.push_back(message);
        while entries.len() > HISTORY_CAPACITY
            invariant
                entries@.len() <= log.len(),
                log.len() <= HISTORY_CAPACITY ==> entries@.len() == log.len(),
                log.len() > HISTORY_CAPACITY ==> entries@.len() >= HISTORY_CAPACITY,
                texts(entries@) == log.subrange(log.len() - entries@.len(), log.len() as int),
            decreases entries@.len(),
        {
            let ghost before = entries@;
            let _ = entries.pop_front();
            assert(texts(entries@) =~= texts(before).subrange(1, before.len() as int));
        }
        self.entries = entries;
    }

    /// A copy of the contents, oldest first.
    pub fn snapshot(&self) -> (copy: Vec<Message>)
        ensures
            texts(copy@) == self@,
            copy@.len() <= HISTORY_CAPACITY,
    {
        proof {
            use_type_invariant(self);
        }
        let mut copy: Vec<Message> = Vec::new();
        let mut i: usize = 0;
        while i < self.entries.len()
            invariant
                i <= self.entries@.len(),
                self.entries@.len() <= HISTORY_CAPACITY,
                copy@.len() == i,
                forall|j: int| 0 <= j < i ==> copy@[j]@ == self.entries@[j]@,
            decreases self.entries@.len() - i,
        {
            copy.push(self.entries[i].clone());
            i = i + 1;
        }
        copy
    }
}

} // verus!
