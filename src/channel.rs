use vstd::prelude::*;

use crate::error::Error;

verus! {

/// What one poll of a channel's inbound stream gave.
pub enum ChannelPoll<M> {
    /// Nothing is ready yet.
    Pending,
    /// An inbound message arrived.
    Ready(M),
    /// The stream ended cleanly.
    Closed,
    /// The stream failed with a transport error.
    Failed(Error),
}

} // verus!
