//! What every output stream offers: sending a labelled payload.

use crate::channel::Published;
use crate::envelope::{is_envelope_text, short_name, StreamEnvelope};
use crate::error::StreamError;
use vstd::prelude::*;

verus! {

/// What a stream did with an envelope.
#[derive(Clone, Debug)]
pub enum Sent {
    /// The stream writes to the standard output: this is the line to write.
    Line(String),
    /// The stream handed the wire text to its broadcast channel.
    Broadcast {
        /// The wire text that was handed to the channel.
        text: String,
        /// What the channel answered.
        published: Published,
    },
}

/// Whether `result` is the end of sending `data` under `label` on a stream
/// that prints (`prints`) or broadcasts.
///
/// Every send succeeds. A stream that prints hands back the wire text as
/// the line to write. A stream that broadcasts hands the wire text to its
/// channel and says what the channel answered; that nobody listens is no
/// error.
pub open spec fn is_sent(
    label: Seq<char>,
    data: Seq<char>,
    prints: bool,
    result: Result<Sent, StreamError>,
) -> bool {
    match result {
        Ok(Sent::Line(line)) => prints && is_envelope_text(label, data, line@),
        Ok(Sent::Broadcast { text, published }) => {
            &&& !prints
            &&& is_envelope_text(label, data, text@)
            &&& published matches Published::Delivered(receivers) ==> receivers >= 1
        },
        Err(_) => false,
    }
}

/// A stream that labelled payloads can be sent to.
pub trait DataStream {
    /// Whether the stream writes to the standard output rather than to a
    /// broadcast channel.
    spec fn prints(&self) -> bool;

    /// Sends `data`, a payload as JSON text, under the given label.
    fn send(&self, data_type: &str, data: &str) -> (r: Result<Sent, StreamError>)
        ensures
            is_sent(data_type@, data@, self.prints(), r),
    ;

    /// Sends `data` under the name of its type, taken from the type's path.
    fn send_auto(&self, type_path: &str, data: &str) -> (r: Result<Sent, StreamError>)
        ensures
            is_sent(short_name(type_path@), data@, self.prints(), r),
    ;

    /// Sends an envelope as it is.
    fn send_envelope(&self, envelope: &StreamEnvelope) -> (r: Result<Sent, StreamError>)
        ensures
            is_sent(envelope.data_type@, envelope.data@, self.prints(), r),
    ;
}

} // verus!
