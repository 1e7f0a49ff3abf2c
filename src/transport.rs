use vstd::prelude::*;

verus! {

/// A marker for the sending side of a message transport layer.
///
/// An implementation accepts items of a destination peer, an encoded
/// message and an optional link to the transaction that sent it.
pub trait MessageSink {
}

/// A marker for the receiving side of a message transport layer.
///
/// An implementation yields pairs of a source peer and a decoded message
/// (or the error that decoding it gave).
pub trait MessageStream {
}

/// A marker for a full message transport layer: both a sink and a stream.
pub trait Transport: MessageSink + MessageStream {
}

} // verus!
