//! The error of the output streams.

use vstd::prelude::*;
use vstd::string::*;

verus! {

/// What can go wrong when an event is handed to an output stream.
#[derive(Clone, Debug)]
pub enum StreamError {
    /// The event could not be sent; the text says why.
    SendError(String),
}

impl StreamError {
    /// The reason that the error carries.
    pub open spec fn reason(self) -> Seq<char> {
        match self {
            StreamError::SendError(reason) => reason@,
        }
    }

    /// The text that the error shows: `Send error: ` and the reason.
    pub open spec fn text(self) -> Seq<char> {
        "Send error: "@ + self.reason()
    }

    /// The error of a payload that could not be rendered, with the
    /// serializer's own words.
    pub open spec fn serialization(cause: Seq<char>) -> Seq<char> {
        "Failed to serialize data: "@ + cause
    }

    /// The error of a payload that could not be rendered.
    pub fn failed_to_serialize(cause: &str) -> (r: StreamError)
        ensures
            r.reason() == Self::serialization(cause@),
    {
        let mut reason = String::from_str("Failed to serialize data: ");
        reason.append(cause);
        StreamError::SendError(reason)
    }

    /// The text that the error shows.
    pub fn message(&self) -> (r: String)
        ensures
            r@ == self.text(),
    {
        match self {
            StreamError::SendError(reason) => {
                let mut shown = String::from_str("Send error: ");
                shown.append(reason.as_str());
                shown
            },
        }
    }
}

} // verus!
