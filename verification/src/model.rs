//! The hub as its contracts see it: plain values, and the steps that the
//! hub's operations take on them.

use crate::history::retained;
use crate::history::HISTORY_CAPACITY;
use vstd::prelude::*;

verus! {

/// One registered queue as the contracts see it: its handle, and the texts
/// delivered to it since it was registered, oldest first.
pub struct Inbox {
    pub id: u64,
    pub delivered: Seq<Seq<char>>,
}

/// The hub as the contracts see it.
#[verifier::ext_equal]
pub struct HubState {
    /// The stored messages, oldest first.
    pub history: Seq<Seq<char>>,
    /// The registered queues, in the order of their registration.
    pub inboxes: Seq<Inbox>,
    /// The handle that the next queue will get.
    pub next_id: nat,
}

impl HubState {
    /// A hub that nothing has happened to.
    pub open spec fn fresh() -> HubState {
        HubState { history: Seq::empty(), inboxes: Seq::empty(), next_id: 0 }
    }

    /// The handles of the registered queues, in the order of registration.
    pub open spec fn ids(self) -> Seq<u64> {
        Seq::new(self.inboxes.len(), |i: int| self.inboxes[i].id)
    }

    /// Whether a queue with this handle is registered.
    pub open spec fn has(self, id: u64) -> bool {
        exists|i: int| 0 <= i < self.inboxes.len() && #[trigger] self.inboxes[i].id == id
    }

    /// Where in the registry the queue with this handle stands.
    pub open spec fn position(self, id: u64) -> int {
        choose|i: int| 0 <= i < self.inboxes.len() && #[trigger] self.inboxes[i].id == id
    }

    /// What has been delivered to the queue with this handle.
    pub open spec fn delivered(self, id: u64) -> Seq<Seq<char>> {
        self.inboxes[self.position(id)].delivered
    }

    /// The store is within its bound, no handle is registered twice, and
    /// every registered handle has been given out.
    pub open spec fn wf(self) -> bool {
        &&& self.history.len() <= HISTORY_CAPACITY
        &&& forall|i: int|
            0 <= i < self.inboxes.len() ==> (#[trigger] self.inboxes[i]).id < self.next_id
        &&& forall|i: int, j: int|
            0 <= i < j < self.inboxes.len() ==> (#[trigger] self.inboxes[i]).id != (
            #[trigger] self.inboxes[j]).id
    }

    /// Registers a new, empty queue under the next handle.
    pub open spec fn subscribe(self) -> HubState {
        HubState {
            history: self.history,
            inboxes: self.inboxes.push(
                Inbox { id: self.next_id as u64, delivered: Seq::empty() },
            ),
            next_id: self.next_id + 1,
        }
    }

    /// Stores `text` and delivers it to every registered queue but those in
    /// `refused`, whose readers are gone.
    pub open spec fn publish(self, text: Seq<char>, refused: Set<u64>) -> HubState {
        HubState {
            history: retained(self.history.push(text)),
            inboxes: Seq::new(
                self.inboxes.len(),
                |i: int|
                    if refused.contains(self.inboxes[i].id) {
                        self.inboxes[i]
                    } else {
                        Inbox {
                            id: self.inboxes[i].id,
                            delivered: self.inboxes[i].delivered.push(text),
                        }
                    },
            ),
            next_id: self.next_id,
        }
    }

    /// Takes the queue with this handle out of the registry, if it is there.
    pub open spec fn unsubscribe(self, id: u64) -> HubState {
        if self.has(id) {
            HubState {
                history: self.history,
                inboxes: self.inboxes.remove(self.position(id)),
                next_id: self.next_id,
            }
        } else {
            self
        }
    }
}

/// Those of `ids` that are in `chosen`, in the order of `ids`.
pub open spec fn picked(ids: Seq<u64>, chosen: Set<u64>) -> Seq<u64>
    decreases ids.len(),
{
    if ids.len() == 0 {
        Seq::empty()
    } else if chosen.contains(ids.last()) {
        picked(ids.drop_last(), chosen).push(ids.last())
    } else {
        picked(ids.drop_last(), chosen)
    }
}

/// In a valid hub a handle stands for the one place where it is registered.
pub proof fn lemma_position(state: HubState, i: int)
    requires
        state.wf(),
        0 <= i < state.inboxes.len(),
    ensures
        state.has(state.inboxes[i].id),
        state.position(state.inboxes[i].id) == i,
{
}

/// Publishing keeps a valid hub valid and registers nobody and removes
/// nobody; each queue gets the text at its end, or, if it refused, nothing.
pub proof fn lemma_publish(state: HubState, text: Seq<char>, refused: Set<u64>, id: u64)
    requires
        state.wf(),
    ensures
        state.publish(text, refused).wf(),
        state.publish(text, refused).ids() == state.ids(),
        state.publish(text, refused).has(id) == state.has(id),
        state.has(id) ==> state.publish(text, refused).delivered(id) == if refused.contains(id) {
            state.delivered(id)
        } else {
            state.delivered(id).push(text)
        },
{
    let after = state.publish(text, refused);
    if state.has(id) {
        lemma_position(after, state.position(id));
    } else if after.has(id) {
        assert(state.inboxes[after.position(id)].id == id);
    }
}

/// Subscribing keeps a valid hub valid; the new queue stands last, is empty,
/// and the queues that were there are as they were.
pub proof fn lemma_subscribe(state: HubState)
    requires
        state.wf(),
        state.next_id <= u64::MAX,
    ensures
        state.subscribe().wf(),
        state.subscribe().has(state.next_id as u64),
        !state.has(state.next_id as u64),
        state.subscribe().delivered(state.next_id as u64) == Seq::<Seq<char>>::empty(),
        forall|id: u64| state.has(id) ==> state.subscribe().has(id) && state.subscribe().delivered(
            id,
        ) == state.delivered(id),
{
    let joined = state.subscribe();
    lemma_position(joined, state.inboxes.len() as int);
    if state.has(state.next_id as u64) {
        assert(state.inboxes[state.position(state.next_id as u64)].id < state.next_id);
    }
    assert forall|id: u64| state.has(id) implies joined.has(id) && joined.delivered(id)
        == state.delivered(id) by {
        lemma_position(joined, state.position(id));
    }
}

/// Unsubscribing keeps a valid hub valid, removes the one queue, and leaves
/// every other queue as it was.
pub proof fn lemma_unsubscribe(state: HubState, gone: u64, id: u64)
    requires
        state.wf(),
    ensures
        state.unsubscribe(gone).wf(),
        !state.unsubscribe(gone).has(gone),
        id != gone ==> state.unsubscribe(gone).has(id) == state.has(id),
        id != gone && state.has(id) ==> state.unsubscribe(gone).delivered(id) == state.delivered(
            id,
        ),
{
    let after = state.unsubscribe(gone);
    if state.has(gone) {
        let g = state.position(gone);
        // Where the queue that stands at `at` afterwards stood before.
        let before = |at: int| if at < g { at } else { at + 1 };
        if after.has(gone) {
            assert(state.inboxes[before(after.position(gone))].id == gone);
        }
        if id != gone {
            if state.has(id) {
                let p = state.position(id);
                lemma_position(after, if p < g { p } else { p - 1 });
            } else if after.has(id) {
                assert(state.inboxes[before(after.position(id))].id == id);
            }
        }
    }
}

/// Two choices that agree on every one of `ids` pick the same of them.
pub proof fn lemma_picked_agree(ids: Seq<u64>, a: Set<u64>, b: Set<u64>)
    requires
        forall|i: int|
            0 <= i < ids.len() ==> (a.contains(#[trigger] ids[i]) <==> b.contains(ids[i])),
    ensures
        picked(ids, a) == picked(ids, b),
    decreases ids.len(),
{
    if ids.len() > 0 {
        lemma_picked_agree(ids.drop_last(), a, b);
    }
}

/// One more step of listing those that refused. Where `earlier` lists those
/// of the first `i` handles that refused, then after the next handle has
/// been asked, the list, with that handle behind it if it refused, lists
/// those of the first `i + 1`; and of the first `i` it holds what it held.
pub proof fn lemma_picked_step(ids: Seq<u64>, i: int, earlier: Seq<u64>, taken: bool)
    requires
        ids.no_duplicates(),
        0 <= i < ids.len(),
        earlier == picked(ids.take(i), earlier.to_set()),
        forall|k: int| 0 <= k < earlier.len() ==> ids.take(i).contains(#[trigger] earlier[k]),
    ensures
        ({
            let next = if taken {
                earlier
            } else {
                earlier.push(ids[i])
            };
            &&& next == picked(ids.take(i + 1), next.to_set())
            &&& forall|k: int| 0 <= k < next.len() ==> ids.take(i + 1).contains(#[trigger] next[k])
            &&& next.contains(ids[i]) == !taken
            &&& forall|j: int| 0 <= j < i ==> earlier.contains(ids[j]) == next.contains(ids[j])
        }),
{
    let next = if taken {
        earlier
    } else {
        earlier.push(ids[i])
    };
    let ahead = ids.take(i);
    assert forall|j: int| 0 <= j < i implies earlier.contains(ids[j]) == next.contains(
        ids[j],
    ) by {
        if earlier.contains(ids[j]) {
            let k = choose|k: int| 0 <= k < earlier.len() && earlier[k] == ids[j];
            assert(next[k] == ids[j]);
        }
    }
    lemma_picked_agree(ahead, earlier.to_set(), next.to_set());
    assert(ids.take(i + 1).drop_last() =~= ahead);
    if !taken {
        assert(next.last() == ids[i]);
    }
    assert forall|k: int| 0 <= k < next.len() implies ids.take(i + 1).contains(
        #[trigger] next[k],
    ) by {
        if k < earlier.len() {
            let j = choose|j: int| 0 <= j < ahead.len() && ahead[j] == earlier[k];
            assert(ids.take(i + 1)[j] == next[k]);
        } else {
            assert(ids.take(i + 1)[i] == next[k]);
        }
    }
}

} // verus!
