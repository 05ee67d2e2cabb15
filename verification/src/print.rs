//! The stream that writes each envelope as one line of text.

use crate::envelope::{short_type_name, StreamEnvelope};
use crate::error::StreamError;
use crate::stream::{DataStream, Sent};
use vstd::prelude::*;

verus! {

/// The stream to the standard output. It renders; the line is written by
/// whoever owns the output.
#[derive(Clone, Copy, Debug)]
pub struct PrintStream;

impl DataStream for PrintStream {
    open spec fn prints(&self) -> bool {
        true
    }

    fn send(&self, data_type: &str, data: &str) -> (r: Result<Sent, StreamError>) {
        let envelope = StreamEnvelope::new(data_type, data.to_owned());
        self.send_envelope(&envelope)
    }

    fn send_auto(&self, type_path: &str, data: &str) -> (r: Result<Sent, StreamError>) {
        let label = short_type_name(type_path);
        self.send(label.as_str(), data)
    }

    fn send_envelope(&self, envelope: &StreamEnvelope) -> (r: Result<Sent, StreamError>) {
        match envelope.to_json() {
            Ok(line) => Ok(Sent::Line(line)),
            Err(error) => Err(error),
        }
    }
}

} // verus!
