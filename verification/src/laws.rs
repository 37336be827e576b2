//! What holds of the hub over whole runs of calls.
//!
//! The hub is only ever changed through `&mut`, one call after the other, so
//! every use of it is a sequence of steps of `HubState`. The laws below are
//! stated over such sequences.

use crate::history::retained;
use crate::history::HISTORY_CAPACITY;
use crate::model::lemma_publish;
use crate::model::lemma_subscribe;
use crate::model::lemma_unsubscribe;
use crate::model::HubState;
use vstd::prelude::*;

verus! {

/// One call of `publish`: the text, and the queues that refused it.
pub struct Publication {
    pub text: Seq<char>,
    pub refused: Set<u64>,
}

/// The hub after the publications of `run`, in their order.
pub open spec fn publish_all(state: HubState, run: Seq<Publication>) -> HubState
    decreases run.len(),
{
    if run.len() == 0 {
        state
    } else {
        publish_all(state, run.drop_last()).publish(run.last().text, run.last().refused)
    }
}

/// The texts of a run, in its order.
pub open spec fn published(run: Seq<Publication>) -> Seq<Seq<char>> {
    Seq::new(run.len(), |i: int| run[i].text)
}

/// The publications of `run` that the queue `id` did not refuse, in the
/// order of `run`.
pub open spec fn taken_by(run: Seq<Publication>, id: u64) -> Seq<Publication>
    decreases run.len(),
{
    if run.len() == 0 {
        Seq::empty()
    } else if run.last().refused.contains(id) {
        taken_by(run.drop_last(), id)
    } else {
        taken_by(run.drop_last(), id).push(run.last())
    }
}

/// Whether the queue `id` refused nothing of `run`.
pub open spec fn kept_reading(run: Seq<Publication>, id: u64) -> bool {
    forall|i: int| 0 <= i < run.len() ==> !(#[trigger] run[i]).refused.contains(id)
}

/// A run of publications keeps a valid hub valid, and each registered queue
/// gets, behind what it had, the texts of the publications that it did not
/// refuse, in the order of the run.
pub proof fn lemma_publish_all(state: HubState, run: Seq<Publication>, id: u64)
    requires
        state.wf(),
    ensures
        publish_all(state, run).wf(),
        publish_all(state, run).ids() == state.ids(),
        publish_all(state, run).next_id == state.next_id,
        publish_all(state, run).has(id) == state.has(id),
        state.has(id) ==> publish_all(state, run).delivered(id) == state.delivered(id) + published(
            taken_by(run, id),
        ),
    decreases run.len(),
{
    if run.len() > 0 {
        let earlier = publish_all(state, run.drop_last());
        lemma_publish_all(state, run.drop_last(), id);
        lemma_publish(earlier, run.last().text, run.last().refused, id);
    }
}

/// A queue that refused nothing of a run took all of it.
pub proof fn lemma_taken_all(run: Seq<Publication>, id: u64)
    requires
        kept_reading(run, id),
    ensures
        taken_by(run, id) == run,
    decreases run.len(),
{
    if run.len() > 0 {
        lemma_taken_all(run.drop_last(), id);
    }
}

/// After any run of publications the store holds the last
/// `HISTORY_CAPACITY` texts of all that were ever stored, or all of them
/// while they are fewer, in the order of the calls. A hub that starts empty
/// holds the last `HISTORY_CAPACITY` of the run, or all of it.
pub proof fn law_history_is_latest(state: HubState, run: Seq<Publication>)
    requires
        state.wf(),
    ensures
        publish_all(state, run).history == retained(state.history + published(run)),
        publish_all(HubState::fresh(), run).history == retained(published(run)),
        publish_all(HubState::fresh(), run).history.len() == if run.len() <= HISTORY_CAPACITY {
            run.len()
        } else {
            HISTORY_CAPACITY as nat
        },
{
    lemma_history(state, run);
    lemma_history(HubState::fresh(), run);
}

/// What a run makes of the store depends on the store alone.
pub proof fn lemma_same_history(a: HubState, b: HubState, run: Seq<Publication>)
    requires
        a.history == b.history,
    ensures
        publish_all(a, run).history == publish_all(b, run).history,
    decreases run.len(),
{
    if run.len() > 0 {
        lemma_same_history(a, b, run.drop_last());
    }
}

proof fn lemma_history(state: HubState, run: Seq<Publication>)
    requires
        state.history.len() <= HISTORY_CAPACITY,
    ensures
        publish_all(state, run).history == retained(state.history + published(run)),
    decreases run.len(),
{
    if run.len() > 0 {
        lemma_history(state, run.drop_last());
    }
}

/// A new subscriber's backlog is the store as it was, and its queue then
/// gets exactly what is published from then on, in order, for as long as its
/// reader is there: nothing of the backlog comes again, and nothing that
/// follows is left out.
pub proof fn law_subscription_boundary(state: HubState, run: Seq<Publication>)
    requires
        state.wf(),
        state.next_id <= u64::MAX,
    ensures
        state.subscribe().wf(),
        state.subscribe().history == state.history,
        state.subscribe().has(state.next_id as u64),
        state.subscribe().delivered(state.next_id as u64) == Seq::<Seq<char>>::empty(),
        publish_all(state.subscribe(), run).delivered(state.next_id as u64) == published(
            taken_by(run, state.next_id as u64),
        ),
        kept_reading(run, state.next_id as u64) ==> publish_all(state.subscribe(), run).delivered(
            state.next_id as u64,
        ) == published(run),
{
    let id = state.next_id as u64;
    let joined = state.subscribe();
    lemma_subscribe(state);
    lemma_publish_all(joined, run, id);
    if kept_reading(run, id) {
        lemma_taken_all(run, id);
    }
}

/// Two subscribers that are registered over the same run of publications
/// get its texts in the same order. Each gets, behind what it had, what it
/// did not refuse; two that refused nothing get the same texts; and in any
/// case, what the one got of the publications that the other took is what
/// the other got of the publications that the one took.
pub proof fn law_same_order(state: HubState, run: Seq<Publication>, a: u64, b: u64)
    requires
        state.wf(),
        state.has(a),
        state.has(b),
    ensures
        publish_all(state, run).delivered(a) == state.delivered(a) + published(taken_by(run, a)),
        publish_all(state, run).delivered(b) == state.delivered(b) + published(taken_by(run, b)),
        kept_reading(run, a) && kept_reading(run, b) ==> published(taken_by(run, a)) == published(
            taken_by(run, b),
        ),
        taken_by(taken_by(run, a), b) == taken_by(taken_by(run, b), a),
{
    lemma_publish_all(state, run, a);
    lemma_publish_all(state, run, b);
    if kept_reading(run, a) && kept_reading(run, b) {
        lemma_taken_all(run, a);
        lemma_taken_all(run, b);
    }
    lemma_taken_commutes(run, a, b);
}

/// Leaving out what one queue refused and then what another refused comes
/// to the same in either order.
pub proof fn lemma_taken_commutes(run: Seq<Publication>, a: u64, b: u64)
    ensures
        taken_by(taken_by(run, a), b) == taken_by(taken_by(run, b), a),
    decreases run.len(),
{
    if run.len() > 0 {
        lemma_taken_commutes(run.drop_last(), a, b);
        let head_a = taken_by(run.drop_last(), a);
        let head_b = taken_by(run.drop_last(), b);
        if !run.last().refused.contains(a) {
            assert(head_a.push(run.last()).drop_last() =~= head_a);
        }
        if !run.last().refused.contains(b) {
            assert(head_b.push(run.last()).drop_last() =~= head_b);
        }
    }
}

/// Taking one subscriber out changes nothing for the others: not what they
/// have, not what they get from then on, and not the store.
pub proof fn law_unsubscribe_leaves_others(
    state: HubState,
    gone: u64,
    run: Seq<Publication>,
    id: u64,
)
    requires
        state.wf(),
        state.has(id),
        id != gone,
    ensures
        state.unsubscribe(gone).wf(),
        !state.unsubscribe(gone).has(gone),
        state.unsubscribe(gone).has(id),
        state.unsubscribe(gone).delivered(id) == state.delivered(id),
        publish_all(state.unsubscribe(gone), run).delivered(id) == publish_all(
            state,
            run,
        ).delivered(id),
        publish_all(state.unsubscribe(gone), run).history == publish_all(state, run).history,
{
    lemma_unsubscribe(state, gone, id);
    lemma_publish_all(state.unsubscribe(gone), run, id);
    lemma_publish_all(state, run, id);
    lemma_same_history(state.unsubscribe(gone), state, run);
}

/// One call on the hub.
pub enum Step {
    /// A call of `publish`.
    Publish(Publication),
    /// A call of `subscribe`.
    Subscribe,
    /// A call of `unsubscribe` with this handle.
    Unsubscribe(u64),
}

/// The hub after one call.
pub open spec fn step(state: HubState, call: Step) -> HubState {
    match call {
        Step::Publish(publication) => state.publish(publication.text, publication.refused),
        Step::Subscribe => state.subscribe(),
        Step::Unsubscribe(id) => state.unsubscribe(id),
    }
}

/// The hub after the calls of `calls`, in their order.
pub open spec fn run_all(state: HubState, calls: Seq<Step>) -> HubState
    decreases calls.len(),
{
    if calls.len() == 0 {
        state
    } else {
        step(run_all(state, calls.drop_last()), calls.last())
    }
}

/// The publications among `calls`, in their order.
pub open spec fn publications(calls: Seq<Step>) -> Seq<Publication>
    decreases calls.len(),
{
    if calls.len() == 0 {
        Seq::empty()
    } else {
        match calls.last() {
            Step::Publish(publication) => publications(calls.drop_last()).push(publication),
            _ => publications(calls.drop_last()),
        }
    }
}

/// How many of `calls` subscribe.
pub open spec fn subscriptions(calls: Seq<Step>) -> nat
    decreases calls.len(),
{
    if calls.len() == 0 {
        0
    } else {
        match calls.last() {
            Step::Subscribe => subscriptions(calls.drop_last()) + 1,
            _ => subscriptions(calls.drop_last()),
        }
    }
}

/// Whether none of `calls` unsubscribes the queue `id`.
pub open spec fn stays(calls: Seq<Step>, id: u64) -> bool {
    forall|i: int| 0 <= i < calls.len() ==> #[trigger] calls[i] != Step::Unsubscribe(id)
}

/// Whatever is called on the hub, and whoever else comes and goes, the
/// store ends as the last `HISTORY_CAPACITY` of all that was stored, and a
/// subscriber that stays gets, behind what it had, exactly the publications
/// that it did not refuse, in the order of the calls.
pub proof fn law_any_run(state: HubState, calls: Seq<Step>, id: u64)
    requires
        state.wf(),
        state.next_id + subscriptions(calls) <= u64::MAX,
    ensures
        run_all(state, calls).wf(),
        run_all(state, calls).next_id == state.next_id + subscriptions(calls),
        run_all(state, calls).history == retained(
            state.history + published(publications(calls)),
        ),
        state.has(id) && stays(calls, id) ==> run_all(state, calls).has(id) && run_all(
            state,
            calls,
        ).delivered(id) == state.delivered(id) + published(taken_by(publications(calls), id)),
    decreases calls.len(),
{
    if calls.len() > 0 {
        let head = calls.drop_last();
        let earlier = run_all(state, head);
        law_any_run(state, head, id);
        match calls.last() {
            Step::Publish(publication) => {
                lemma_publish(earlier, publication.text, publication.refused, id);
                assert(publications(head).push(publication).drop_last() =~= publications(
                    head,
                ));
            },
            Step::Subscribe => {
                lemma_subscribe(earlier);
            },
            Step::Unsubscribe(gone) => {
                lemma_unsubscribe(earlier, gone, id);
            },
        }
    }
}

/// Publications keep their order in the store, and none of the last
/// `HISTORY_CAPACITY` is lost: of two publications of a run that are both
/// among its last `HISTORY_CAPACITY`, both are in the store, as far from its
/// end as they are from the end of the run, the earlier one first. So
/// whatever way the calls of several sessions interleave, the store holds
/// them as they came, each session's in its own order.
pub proof fn law_publications_keep_their_order(
    state: HubState,
    run: Seq<Publication>,
    i: int,
    j: int,
)
    requires
        state.wf(),
        0 <= i < j < run.len(),
        run.len() - i <= HISTORY_CAPACITY,
    ensures
        ({
            let store = publish_all(state, run).history;
            let at_i = store.len() - (run.len() - i);
            let at_j = store.len() - (run.len() - j);
            &&& 0 <= at_i < at_j < store.len()
            &&& store[at_i] == run[i].text
            &&& store[at_j] == run[j].text
        }),
{
    law_history_is_latest(state, run);
}

/// A full store that takes one more message drops exactly its oldest.
pub proof fn law_full_store_drops_oldest(state: HubState, text: Seq<char>, refused: Set<u64>)
    requires
        state.history.len() == HISTORY_CAPACITY,
    ensures
        state.publish(text, refused).history == state.history.skip(1).push(text),
{
}

} // verus!
