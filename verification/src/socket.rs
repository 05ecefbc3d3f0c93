//! Peer-to-peer sockets: the ways a message can fail to be sent, and the
//! words each is reported in.

use vstd::prelude::*;

verus! {

/// The ways sending a message fails.
#[derive(Clone, Copy, Debug, PartialEq, Eq, Structural)]
pub enum SendFailure {
    /// The message is larger than the connection takes.
    MessageTooBig,
    /// The connection is in no state to send.
    InvalidState,
    /// There is no connection.
    NoConnection,
    /// The message was to go out without delay and could not.
    Dropped,
    /// Too much is queued on the connection already.
    QueueFull,
    /// Any other failure.
    Unknown,
}

impl SendFailure {
    /// The words in which this failure is reported.
    pub open spec fn spec_reason(self) -> Seq<char> {
        match self {
            SendFailure::MessageTooBig => "Message is too big"@,
            SendFailure::InvalidState => "Connection is not in a valid state to send messages"@,
            SendFailure::NoConnection => "No connection exists"@,
            SendFailure::Dropped => "NO_DELAY flag was set and the message was dropped because we were not ready to send it"@,
            SendFailure::QueueFull => "Too much data was in queue to be sent"@,
            SendFailure::Unknown => "An unknown error occurred while sending message"@,
        }
    }

    /// The words in which this failure is reported.
    pub fn reason(self) -> (reason: &'static str)
        ensures
            reason@ == self.spec_reason(),
    {
        match self {
            SendFailure::MessageTooBig => "Message is too big",
            SendFailure::InvalidState => "Connection is not in a valid state to send messages",
            SendFailure::NoConnection => "No connection exists",
            SendFailure::Dropped => "NO_DELAY flag was set and the message was dropped because we were not ready to send it",
            SendFailure::QueueFull => "Too much data was in queue to be sent",
            SendFailure::Unknown => "An unknown error occurred while sending message",
        }
    }
}

} // verus!
