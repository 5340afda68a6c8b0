//! How an answer of the messaging client counts for the polling loop.

use crate::error::NotifyError;
use vstd::prelude::*;

verus! {

/// What the messaging client answered to one send.
#[derive(Clone, Copy, Debug, PartialEq, Eq, Structural)]
pub enum SinkReply {
    /// The message was accepted.
    Ack,
    /// The client reported a failure.
    Error,
    /// The time allowed passed without an answer.
    Timeout,
}

/// What a reply comes to: delivered, or the reason why not.
pub open spec fn delivery_of(reply: SinkReply) -> Result<(), NotifyError> {
    match reply {
        SinkReply::Ack => Ok(()),
        SinkReply::Error => Err(NotifyError::DeliveryFailed),
        SinkReply::Timeout => Err(NotifyError::Timeout),
    }
}

/// Classifies the answer to one send. Only an acknowledgment is a delivery.
pub fn delivery_outcome(reply: SinkReply) -> (outcome: Result<(), NotifyError>)
    ensures
        outcome == delivery_of(reply),
{
    match reply {
        SinkReply::Ack => Ok(()),
        SinkReply::Error => Err(NotifyError::DeliveryFailed),
        SinkReply::Timeout => Err(NotifyError::Timeout),
    }
}

} // verus!
