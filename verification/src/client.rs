//! The client's own view: the line being typed, and the messages to show,
//! newest first.

use crate::event::Event;
use crate::event::Key;
use crate::history::HISTORY_CAPACITY;
use crate::message::texts;
use crate::message::Message;
use std::collections::VecDeque;
use vstd::prelude::*;

verus! {

/// What is shown of a list of lines, newest first: all of it while it fits,
/// else its first `HISTORY_CAPACITY` lines.
pub open spec fn shown(lines: Seq<Seq<char>>) -> Seq<Seq<char>> {
    if lines.len() <= HISTORY_CAPACITY {
        lines
    } else {
        lines.take(HISTORY_CAPACITY as int)
    }
}

/// The texts of a run of strings, in the same order.
pub open spec fn lines(strings: Seq<String>) -> Seq<Seq<char>> {
    Seq::new(strings.len(), |i: int| strings[i]@)
}

/// The client as the contracts see it.
#[verifier::ext_equal]
pub struct AppView {
    /// The line being typed.
    pub input: Seq<char>,
    /// The messages to show, newest first.
    pub messages: Seq<Seq<char>>,
}

/// What the client has to do after a key press.
pub enum Action {
    /// Publish this text.
    Send(String),
    /// Leave.
    Quit,
    /// Nothing but go on.
    Continue,
}

/// The line being typed after `key` was pressed.
pub open spec fn typed(input: Seq<char>, key: Key) -> Seq<char> {
    match key {
        Key::Char(c) => if c == '\n' {
            Seq::empty()
        } else if c == 'q' {
            input
        } else {
            input.push(c)
        },
        Key::Backspace => if input.len() > 0 {
            input.drop_last()
        } else {
            input
        },
        Key::Other => input,
    }
}

/// Whether `action` is what follows from pressing `key` over the line
/// `input`: the return key sends the line, `q` leaves, and every other key
/// only edits.
pub open spec fn follows(action: Action, input: Seq<char>, key: Key) -> bool {
    match key {
        Key::Char(c) => if c == '\n' {
            action matches Action::Send(text) && text@ == input
        } else if c == 'q' {
            action is Quit
        } else {
            action is Continue
        },
        _ => action is Continue,
    }
}

/// What is shown once the messages of `live` have arrived, oldest first,
/// over what was shown as `display`.
pub open spec fn after_receiving(display: Seq<Seq<char>>, live: Seq<Seq<char>>) -> Seq<Seq<char>>
    decreases live.len(),
{
    if live.len() == 0 {
        display
    } else {
        shown(seq![live.last()] + after_receiving(display, live.drop_last()))
    }
}

/// A client that loads a backlog and then receives the messages that
/// follow shows the newest `HISTORY_CAPACITY` of them all, newest first: the
/// backlog and the messages after it merge into one view.
pub proof fn law_display_is_latest(backlog: Seq<Seq<char>>, live: Seq<Seq<char>>)
    ensures
        after_receiving(shown(backlog.reverse()), live) == shown((backlog + live).reverse()),
    decreases live.len(),
{
    if live.len() > 0 {
        law_display_is_latest(backlog, live.drop_last());
    }
}

/// Calls `String::push`: `c` is put at the end of `text`.
#[verifier::external_body]
fn push_char(text: &mut String, c: char)
    ensures
        final(text)@ == old(text)@.push(c),
{
    text.push(c)
}

/// Calls `String::pop`: the last character of `text` is taken off and
/// returned, or `None` where `text` is empty.
#[verifier::external_body]
fn pop_char(text: &mut String) -> (last: Option<char>)
    ensures
        match last {
            Some(c) => old(text)@.len() > 0 && c == old(text)@.last() && final(text)@ == old(
                text,
            )@.drop_last(),
            None => old(text)@.len() == 0 && final(text)@ == old(text)@,
        },
{
    text.pop()
}

/// The client's state.
pub struct App {
    input: String,
    messages: VecDeque<String>,
}

impl View for App {
    type V = AppView;

    closed spec fn view(&self) -> AppView {
        AppView { input: self.input@, messages: lines(self.messages@) }
    }
}

impl Default for App {
    /// Nothing typed, nothing to show.
    fn default() -> (app: App)
        ensures
            app@.input == Seq::<char>::empty(),
            app@.messages == Seq::<Seq<char>>::empty(),
    {
        App { input: String::new(), messages: VecDeque::new() }
    }
}

impl App {
    /// The line being typed.
    pub fn input(&self) -> (input: &String)
        ensures
            input@ == self@.input,
    {
        &self.input
    }

    /// A copy of the messages to show, newest first.
    pub fn messages(&self) -> (copy: Vec<String>)
        ensures
            lines(copy@) == self@.messages,
    {
        let mut copy: Vec<String> = Vec::new();
        let mut i: usize = 0;
        while i < self.messages.len()
            invariant
                i <= self.messages@.len(),
                copy@.len() == i,
                forall|j: int| 0 <= j < i ==> copy@[j]@ == self.messages@[j]@,
            decreases self.messages@.len() - i,
        {
            copy.push(self.messages[i].clone());
            i = i + 1;
        }
        copy
    }

    /// Replaces what is shown by the backlog of a new subscription. The
    /// backlog comes oldest first and is shown newest first.
    pub fn load(&mut self, initial: Vec<Message>)
        ensures
            final(self)@.input == old(self)@.input,
            final(self)@.messages == shown(texts(initial@).reverse()),
    {
        let mut messages: VecDeque<String> = VecDeque::new();
        let mut i: usize = 0;
        while i < initial.len()
            invariant
                i <= initial@.len(),
                lines(messages@) == texts(initial@.take(i as int)).reverse(),
            decreases initial@.len() - i,
        {
            let ghost before = messages@;
            messages.push_front(initial[i].content.clone());
            assert(lines(messages@) =~= texts(initial@.take(i + 1)).reverse()) by {
                let older = texts(initial@.take(i as int));
                assert(lines(before).len() == i);
                assert forall|j: int| 0 < j <= i implies lines(messages@)[j] == older[i - j] by {
                    assert(older.reverse()[j - 1] == older[i - j]);
                }
            }
            i = i + 1;
        }
        assert(initial@.take(i as int) =~= initial@);
        messages.truncate(HISTORY_CAPACITY);
        self.messages = messages;
    }

    /// Puts a message that just arrived in front of what is shown, and drops
    /// from the far end what no longer fits.
    pub fn receive(&mut self, item: Message)
        ensures
            final(self)@.input == old(self)@.input,
            final(self)@.messages == shown(seq![item@] + old(self)@.messages),
    {
        self.messages.push_front(item.content);
        self.messages.truncate(HISTORY_CAPACITY);
    }

    /// Takes one event from the terminal. The return key hands out the line
    /// typed so far, to be published, and starts a new one. `q` asks to
    /// leave. Any other character is added to the line, and backspace takes
    /// its last character off.
    pub fn handle(&mut self, event: Event<Key>) -> (action: Action)
        ensures
            final(self)@.messages == old(self)@.messages,
            match event {
                Event::Input(key) => {
                    &&& final(self)@.input == typed(old(self)@.input, key)
                    &&& follows(action, old(self)@.input, key)
                },
            },
    {
        match event {
            Event::Input(key) => match key {
                Key::Char(c) => {
                    if c == '\n' {
                        let mut text = String::new();
                        std::mem::swap(&mut text, &mut self.input);
                        Action::Send(text)
                    } else if c == 'q' {
                        Action::Quit
                    } else {
                        push_char(&mut self.input, c);
                        Action::Continue
                    }
                },
                Key::Backspace => {
                    let _ = pop_char(&mut self.input);
                    Action::Continue
                },
                Key::Other => Action::Continue,
            },
        }
    }
}

} // verus!
