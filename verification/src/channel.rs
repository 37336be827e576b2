//! The subscriber queues: unbounded channels of the `futures` crate, and what
//! the hub's contracts take on trust about them.

use futures::channel::mpsc::UnboundedReceiver;
use futures::channel::mpsc::UnboundedSender;
use vstd::prelude::*;

verus! {

/// The sending end of an unbounded channel of `futures`. Verus sees nothing
/// inside it.
#[verifier::external_type_specification]
#[verifier::external_body]
#[verifier::reject_recursive_types(T)]
pub struct ExUnboundedSender<T>(UnboundedSender<T>);

/// The receiving end of an unbounded channel of `futures`. Verus sees nothing
/// inside it.
#[verifier::external_type_specification]
#[verifier::external_body]
#[verifier::reject_recursive_types(T)]
pub struct ExUnboundedReceiver<T>(UnboundedReceiver<T>);

/// The texts that a channel has taken through this sending end since it was
/// made, oldest first. The channel is a queue: its receiving end yields them
/// in this order.
pub uninterp spec fn accepted(sender: UnboundedSender<String>) -> Seq<Seq<char>>;

/// Calls `futures::channel::mpsc::unbounded`. Taken on trust: the two ends
/// belong to one new channel, which has taken nothing yet.
#[verifier::external_body]
pub(crate) fn open_channel() -> (ends: (UnboundedSender<String>, UnboundedReceiver<String>))
    ensures
        accepted(ends.0) == Seq::<Seq<char>>::empty(),
{
    futures::channel::mpsc::unbounded()
}

/// Calls `UnboundedSender::unbounded_send`. Taken on trust: where the call
/// returns `Ok`, the channel has put `text` behind what it had taken before;
/// where it returns an error (the receiving end is closed or gone), the
/// channel has taken nothing. Which of the two happens is not for the sender
/// to know beforehand.
///
/// The sender is borrowed `&mut`, though the call needs less, so that
/// contracts can speak of the channel before and after.
///
/// The call panics only if the queue already holds half of `usize::MAX`
/// messages, more than can be allocated.
#[verifier::external_body]
pub(crate) fn offer(sender: &mut UnboundedSender<String>, text: String) -> (taken: bool)
    ensures
        taken ==> accepted(*final(sender)) == accepted(*old(sender)).push(text@),
        !taken ==> accepted(*final(sender)) == accepted(*old(sender)),
{
    sender.unbounded_send(text).is_ok()
}

} // verus!
