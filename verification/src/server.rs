//! The server's side of one connection: a session that subscribes to the hub
//! once, publishes what its client sends under the session's label, and
//! unsubscribes when the connection ends.

use crate::model::picked;
use crate::hub::Hub;
use crate::hub::Subscription;
use crate::message::texts;
use crate::message::Message;
use crate::Error;
use vstd::prelude::*;

verus! {

/// The decimal digit for `d`, where `d` is below ten.
pub open spec fn digit(d: nat) -> char {
    if d == 0 {
        '0'
    } else if d == 1 {
        '1'
    } else if d == 2 {
        '2'
    } else if d == 3 {
        '3'
    } else if d == 4 {
        '4'
    } else if d == 5 {
        '5'
    } else if d == 6 {
        '6'
    } else if d == 7 {
        '7'
    } else if d == 8 {
        '8'
    } else {
        '9'
    }
}

/// `n` in decimal, without leading zeros.
pub open spec fn decimal(n: nat) -> Seq<char>
    decreases n,
{
    if n < 10 {
        seq![digit(n)]
    } else {
        decimal(n / 10).push(digit(n % 10))
    }
}

/// The text that a session with the label `id` publishes for `text`: the
/// label in round brackets, a colon, a space, and `text`.
pub open spec fn labelled(id: u32, text: Seq<char>) -> Seq<char> {
    seq!['('] + decimal(id as nat) + seq![')', ':', ' '] + text
}

/// The digit for `d` as a text of one character.
fn digit_text(d: u32) -> (text: &'static str)
    requires
        d < 10,
    ensures
        text@ == seq![digit(d as nat)],
{
    proof {
        reveal_strlit("0");
        reveal_strlit("1");
        reveal_strlit("2");
        reveal_strlit("3");
        reveal_strlit("4");
        reveal_strlit("5");
        reveal_strlit("6");
        reveal_strlit("7");
        reveal_strlit("8");
        reveal_strlit("9");
    }
    match d {
        0 => "0",
        1 => "1",
        2 => "2",
        3 => "3",
        4 => "4",
        5 => "5",
        6 => "6",
        7 => "7",
        8 => "8",
        _ => "9",
    }
}

/// Puts `n` in decimal at the end of `out`.
fn push_decimal(out: &mut String, n: u32)
    ensures
        final(out)@ == old(out)@ + decimal(n as nat),
    decreases n,
{
    if n >= 10 {
        push_decimal(out, n / 10);
    }
    out.append(digit_text(n % 10));
}

/// Puts a session's label in front of a text.
pub fn label(id: u32, text: &str) -> (out: String)
    ensures
        out@ == labelled(id, text@),
{
    proof {
        reveal_strlit("(");
        reveal_strlit("): ");
    }
    let mut out = String::new();
    out.append("(");
    push_decimal(&mut out, id);
    out.append("): ");
    out.append(text);
    out
}

/// Where a session stands. A session only moves forward, and `Closed` is
/// final: a client that comes back gets a new session.
#[derive(Debug, Clone, Copy, PartialEq, Eq, Structural)]
pub enum Phase {
    /// Connected, not yet subscribed.
    Connecting,
    /// Subscribed; `inbox` is the handle of its queue in the hub.
    Subscribed { inbox: u64 },
    /// The connection is gone.
    Closed,
}

/// One connection's session with the hub.
pub struct ChatServer {
    id: u32,
    phase: Phase,
}

impl ChatServer {
    /// The label that this session publishes under.
    pub closed spec fn spec_id(&self) -> u32 {
        self.id
    }

    /// Where this session stands.
    pub closed spec fn spec_phase(&self) -> Phase {
        self.phase
    }

    /// A session for a new connection, labelled `id`.
    pub fn new(id: u32) -> (session: Self)
        ensures
            session.id() == id,
            session.phase() == Phase::Connecting,
    {
        ChatServer { id, phase: Phase::Connecting }
    }

    /// A session for another new connection, labelled `id`. It shares
    /// nothing with this one but the hub that both are used with.
    pub fn duplicate(&self, id: u32) -> (session: Self)
        ensures
            session.id() == id,
            session.phase() == Phase::Connecting,
    {
        ChatServer { id, phase: Phase::Connecting }
    }

    /// The label that this session publishes under.
    #[verifier::when_used_as_spec(spec_id)]
    pub fn id(&self) -> (id: u32)
        ensures
            id == self.spec_id(),
    {
        self.id
    }

    /// Where this session stands.
    #[verifier::when_used_as_spec(spec_phase)]
    pub fn phase(&self) -> (phase: Phase)
        ensures
            phase == self.spec_phase(),
    {
        self.phase
    }

    /// Subscribes this session to `hub`. Only a session that is still
    /// `Connecting` can, and only while the hub has a handle left to give;
    /// otherwise nothing changes and the call fails.
    ///
    /// The store's own bound is the only limit on the backlog:
    /// `backlog_limit` does not shorten it.
    pub fn messages(&mut self, hub: &mut Hub, backlog_limit: u32) -> (result: Result<
        Subscription,
        Error,
    >)
        ensures
            final(hub)@.wf(),
            final(self).id() == old(self).id(),
            result is Ok <==> old(self).phase() == Phase::Connecting && old(hub)@.next_id
                < u64::MAX,
            match result {
                Ok(subscription) => {
                    &&& final(hub)@ == old(hub)@.subscribe()
                    &&& subscription.id == old(hub)@.next_id
                    &&& texts(subscription.backlog@) == old(hub)@.history
                    &&& final(self).phase() == Phase::Subscribed { inbox: subscription.id }
                },
                Err(_) => {
                    &&& final(hub)@ == old(hub)@
                    &&& final(self).phase() == old(self).phase()
                },
            },
    {
        proof {
            use_type_invariant(&*hub);
            hub.lemma_valid();
        }
        let _ = backlog_limit;
        match self.phase {
            Phase::Connecting => {
                if hub.next_id() < u64::MAX {
                    let subscription = hub.subscribe();
                    self.phase = Phase::Subscribed { inbox: subscription.id };
                    Ok(subscription)
                } else {
                    Err(Error)
                }
            },
            _ => Err(Error),
        }
    }

    /// Publishes `message` under this session's label, unless the session is
    /// `Closed`: then nothing changes and the call fails. On success the
    /// handles of the queues that refused the message are returned, as
    /// `Hub::publish` returns them.
    pub fn send(&mut self, hub: &mut Hub, message: String) -> (result: Result<Vec<u64>, Error>)
        ensures
            final(hub)@.wf(),
            final(self).id() == old(self).id(),
            final(self).phase() == old(self).phase(),
            result is Ok <==> old(self).phase() != Phase::Closed,
            match result {
                Ok(refused) => {
                    &&& final(hub)@ == old(hub)@.publish(
                        labelled(old(self).id(), message@),
                        refused@.to_set(),
                    )
                    &&& refused@ == picked(old(hub)@.ids(), refused@.to_set())
                },
                Err(_) => final(hub)@ == old(hub)@,
            },
    {
        proof {
            use_type_invariant(&*hub);
            hub.lemma_valid();
        }
        match self.phase {
            Phase::Closed => Err(Error),
            _ => {
                let text = label(self.id, message.as_str());
                Ok(hub.publish(Message::new(text)))
            },
        }
    }

    /// Ends the session: its queue, if it has one, leaves the hub.
    pub fn close(&mut self, hub: &mut Hub)
        ensures
            final(hub)@.wf(),
            final(self).id() == old(self).id(),
            final(self).phase() == Phase::Closed,
            final(hub)@ == match old(self).phase() {
                Phase::Subscribed { inbox } => old(hub)@.unsubscribe(inbox),
                _ => old(hub)@,
            },
    {
        proof {
            use_type_invariant(&*hub);
            hub.lemma_valid();
        }
        match self.phase {
            Phase::Subscribed { inbox } => {
                let _ = hub.unsubscribe(inbox);
            },
            _ => {},
        }
        self.phase = Phase::Closed;
    }
}

} // verus!
