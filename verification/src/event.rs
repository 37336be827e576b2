//! What reaches a client from its user.

use vstd::prelude::*;

verus! {

/// Something that happened at the client's terminal.
pub enum Event<I> {
    /// The user gave some input.
    Input(I),
}

/// A key press, as far as the client tells keys apart.
#[derive(Debug, Clone, Copy, PartialEq, Eq, Structural)]
pub enum Key {
    /// A key that stands for a character; the return key is `'\n'`.
    Char(char),
    /// The key that deletes backwards.
    Backspace,
    /// Any other key.
    Other,
}

} // verus!
