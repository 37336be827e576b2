//! What the transport layers around the hub share with it.

use std::fmt::Debug;
use std::fmt::Display;
use vstd::prelude::*;
use vstd::string::to_string_from_display_ensures;

verus! {

/// A failure of a connection's transport, kept as the two texts that the
/// failure printed to: the one for people and the one for debugging.
#[derive(Clone)]
pub struct TransportError {
    display: String,
    debug: String,
}

/// Formats `item` with `{:?}`. Nothing is claimed of the text: it is
/// whatever the `Debug` impl of `T` writes.
#[verifier::external_body]
fn debug_text<T: Debug>(item: &T) -> String {
    format!("{:?}", item)
}

impl TransportError {
    /// The text for people, as a string.
    pub closed spec fn shown(&self) -> String {
        self.display
    }

    /// The text for debugging.
    pub closed spec fn detail(&self) -> Seq<char> {
        self.debug@
    }

    /// Keeps both printed forms of `item`: what `to_string` gives for it, and
    /// what `{:?}` gives.
    pub fn new<T: Display + Debug>(item: T) -> (error: Self)
        ensures
            to_string_from_display_ensures::<T>(&item, error.shown()),
    {
        let debug = debug_text(&item);
        TransportError { display: item.to_string(), debug }
    }

    /// The text for people.
    pub fn to_string(&self) -> (text: String)
        ensures
            text@ == self.shown()@,
    {
        self.display.clone()
    }

    /// The text for debugging.
    pub fn to_debug_string(&self) -> (text: String)
        ensures
            text@ == self.detail(),
    {
        self.debug.clone()
    }
}

} // verus!
