//! Errors of a connection.

use crate::handle::FromConnectionHandle;
use vstd::prelude::*;

verus! {

/// What can go wrong with a connection.
#[derive(Clone, Debug, PartialEq, Eq)]
pub enum Error {
    /// The socket to the peer could not be established. The text describes
    /// the fault.
    ConnectFailed(String),
    /// The transport failed underneath the codec. The text describes the
    /// fault.
    Io(String),
    /// The command queue is closed: the side that writes to the peer is gone.
    ActorSendError,
    /// A message arrived where the protocol expected another one. It carries
    /// the event that broke the expectation.
    UnexpectedConnectionMessage(Box<FromConnectionHandle>),
    /// The stream of events from the peer ended, or this subscriber fell
    /// behind and missed events.
    ActorUnavailable,
}

/// Why a subscriber of the event stream got no event.
#[derive(Copy, Clone, Debug, PartialEq, Eq)]
pub enum RecvError {
    /// The stream is closed: nothing publishes to it any more.
    Closed,
    /// The subscriber fell behind; the count is the number of events it
    /// missed.
    Lagged(u64),
}

/// Why no message could be decoded from the peer's byte stream.
#[derive(Copy, Clone, Debug, PartialEq, Eq)]
pub enum DecodeFailure {
    /// The bytes do not form a valid frame.
    Malformed,
    /// The frame starts with a magic number that names no known network.
    UnknownMagic,
    /// The stream ended, or failed, before the frame was complete.
    Truncated,
}

} // verus!
