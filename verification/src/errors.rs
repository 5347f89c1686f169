//! The error taxonomy of the bridge.
//!
//! Every failure of a call, a write, or a status delivery is recovered at the
//! boundary and returned as one of these typed values; nothing panics the
//! calling thread on a remote-side failure.

use vstd::prelude::*;

verus! {

/// One failure of the bridge, as seen by the immediate caller.
#[derive(Clone, Debug, PartialEq, Eq)]
pub enum BridgeError {
    /// No callback is bound to the role this operation needs. A poisoned
    /// registry lock degrades to this same value rather than propagating.
    NotRegistered,
    /// The request could not be encoded to the wire representation. The
    /// verified framing below is total, so it never produces this value;
    /// it completes the taxonomy a caller can branch on.
    SerializationError,
    /// The response string was not valid wire format.
    ParseError,
    /// The callback returned neither an immediate string nor a deferred
    /// value, or a deferred value settled with a non-string.
    InvalidResponseShape,
    /// A deferred value settled with an error; the field carries its text.
    BridgeRejected(String),
    /// The wire response explicitly carried an error field with this message.
    RemoteError(String),
    /// The invocation of the callback itself raised an error.
    CallFailed(String),
    /// The rendezvous was abandoned before a result arrived.
    ChannelClosed,
}

impl BridgeError {
    /// A human-readable description of the failure.
    pub fn message(&self) -> (r: String)
        ensures
            r@ == self.spec_message(),
    {
        match self {
            BridgeError::NotRegistered => String::from_str("bridge is not registered"),
            BridgeError::SerializationError => String::from_str("failed to serialize request"),
            BridgeError::ParseError => String::from_str("failed to parse wire response"),
            BridgeError::InvalidResponseShape => String::from_str(
                "bridge must return a string or a deferred value settling to a string",
            ),
            BridgeError::BridgeRejected(m) => String::from_str("bridge promise rejected: ").concat(
                m.as_str(),
            ),
            BridgeError::RemoteError(m) => m.clone(),
            BridgeError::CallFailed(m) => String::from_str("bridge call failed: ").concat(
                m.as_str(),
            ),
            BridgeError::ChannelClosed => String::from_str("bridge channel closed"),
        }
    }

    /// What `message` returns, stated over sequences of characters.
    pub open spec fn spec_message(&self) -> Seq<char> {
        match self {
            BridgeError::NotRegistered => "bridge is not registered"@,
            BridgeError::SerializationError => "failed to serialize request"@,
            BridgeError::ParseError => "failed to parse wire response"@,
            BridgeError::InvalidResponseShape => (
            "bridge must return a string or a deferred value settling to a string"@),
            BridgeError::BridgeRejected(m) => "bridge promise rejected: "@ + m@,
            BridgeError::RemoteError(m) => m@,
            BridgeError::CallFailed(m) => "bridge call failed: "@ + m@,
            BridgeError::ChannelClosed => "bridge channel closed"@,
        }
    }
}

} // verus!
