//! The unit of conversation.

use vstd::prelude::*;

verus! {

/// One chat message. Its text is all there is to it: a sender's label, where
/// there is one, is part of the text.
#[derive(Debug)]
pub struct Message {
    pub content: String,
}

impl View for Message {
    type V = Seq<char>;

    open spec fn view(&self) -> Seq<char> {
        self.content@
    }
}

impl Clone for Message {
    fn clone(&self) -> (copy: Self)
        ensures
            copy@ == self@,
    {
        Message { content: self.content.clone() }
    }
}

impl Message {
    /// A message with the given text.
    pub fn new(content: String) -> (message: Self)
        ensures
            message@ == content@,
    {
        Message { content }
    }
}

/// The texts of a run of messages, in the same order.
pub open spec fn texts(messages: Seq<Message>) -> Seq<Seq<char>> {
    Seq::new(messages.len(), |i: int| messages[i]@)
}

} // verus!
