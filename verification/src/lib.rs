//! A chat relay's broadcast hub: a bounded history of recent messages, a
//! registry of subscriber queues, and the per-connection adapters on both
//! sides of it.
//!
//! - `message`, `history`: the messages and the bounded store of them.
//! - `channel`: the subscriber queues, which are channels of `futures`.
//! - `model`, `hub`: the hub as its contracts see it, and the hub itself.
//! - `laws`: what holds of the hub over whole runs of calls.
//! - `server`: a connection's session on the relay's side.
//! - `client`, `event`: a client's view of the conversation and its keys.
//! - `util`: the error that the transports report.

use vstd::prelude::*;

pub mod channel;
pub mod client;
pub mod event;
pub mod history;
pub mod hub;
pub mod laws;
pub mod message;
pub mod model;
pub mod server;
pub mod util;

verus! {

/// The one error of the chat interface: the operation was not carried out.
#[derive(Debug, Clone, Copy, PartialEq, Eq, Structural)]
pub struct Error;

} // verus!
