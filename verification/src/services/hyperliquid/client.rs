//! What the stream client reports to its owner.

use vstd::prelude::*;

verus! {

/// One event of the connection.
#[derive(Debug, Clone)]
pub enum ClientEvent {
    Message(String),
    Connected,
    Disconnected,
    Error(String),
}

} // verus!
