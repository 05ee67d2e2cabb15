//! The output stream of the process: one of the three kinds, picked when
//! the process starts.

use crate::channel::{is_capacity, DEFAULT_CAPACITY};
use crate::envelope::StreamEnvelope;
use crate::error::StreamError;
use crate::print::PrintStream;
use crate::sse::SseServer;
use crate::stream::{DataStream, Sent};
use crate::websocket::WebSocketServer;
use vstd::prelude::*;

verus! {

/// An output stream of any kind.
pub enum StreamOutput {
    /// Lines on the standard output.
    Print(PrintStream),
    /// Text messages to the clients of a WebSocket server.
    WebSocket(WebSocketServer),
    /// Server-sent events to the clients of an HTTP server.
    Sse(SseServer),
}

impl StreamOutput {
    /// The capacity of the stream's channel, where it has one.
    pub open spec fn channel_capacity(self) -> Option<usize> {
        match self {
            StreamOutput::Print(_) => None,
            StreamOutput::WebSocket(server) => Some(server.channel_capacity()),
            StreamOutput::Sse(server) => Some(server.channel_capacity()),
        }
    }

    /// The stream to the standard output.
    pub fn print() -> (r: StreamOutput)
        ensures
            r is Print,
    {
        StreamOutput::Print(PrintStream)
    }

    /// The stream to WebSocket clients, with a channel of the default capacity.
    pub fn websocket() -> (r: StreamOutput)
        ensures
            r is WebSocket,
            r.channel_capacity() == Some(DEFAULT_CAPACITY),
    {
        StreamOutput::WebSocket(WebSocketServer::with_default_capacity())
    }

    /// The stream to WebSocket clients, with a channel of the given capacity.
    pub fn websocket_with_capacity(capacity: usize) -> (r: StreamOutput)
        requires
            is_capacity(capacity),
        ensures
            r is WebSocket,
            r.channel_capacity() == Some(capacity),
    {
        StreamOutput::WebSocket(WebSocketServer::new(capacity))
    }

    /// The stream of server-sent events, with a channel of the default capacity.
    pub fn sse() -> (r: StreamOutput)
        ensures
            r is Sse,
            r.channel_capacity() == Some(DEFAULT_CAPACITY),
    {
        StreamOutput::Sse(SseServer::with_default_capacity())
    }

    /// The stream of server-sent events, with a channel of the given capacity.
    pub fn sse_with_capacity(capacity: usize) -> (r: StreamOutput)
        requires
            is_capacity(capacity),
        ensures
            r is Sse,
            r.channel_capacity() == Some(capacity),
    {
        StreamOutput::Sse(SseServer::new(capacity))
    }

    /// Whether the stream needs a listening socket before it can serve.
    pub fn needs_listener(&self) -> (r: bool)
        ensures
            r == !(self is Print),
    {
        match self {
            StreamOutput::Print(_) => false,
            _ => true,
        }
    }
}

impl DataStream for StreamOutput {
    open spec fn prints(&self) -> bool {
        self is Print
    }

    fn send(&self, data_type: &str, data: &str) -> (r: Result<Sent, StreamError>) {
        match self {
            StreamOutput::Print(stream) => stream.send(data_type, data),
            StreamOutput::WebSocket(stream) => stream.send(data_type, data),
            StreamOutput::Sse(stream) => stream.send(data_type, data),
        }
    }

    fn send_auto(&self, type_path: &str, data: &str) -> (r: Result<Sent, StreamError>) {
        match self {
            StreamOutput::Print(stream) => stream.send_auto(type_path, data),
            StreamOutput::WebSocket(stream) => stream.send_auto(type_path, data),
            StreamOutput::Sse(stream) => stream.send_auto(type_path, data),
        }
    }

    fn send_envelope(&self, envelope: &StreamEnvelope) -> (r: Result<Sent, StreamError>) {
        match self {
            StreamOutput::Print(stream) => stream.send_envelope(envelope),
            StreamOutput::WebSocket(stream) => stream.send_envelope(envelope),
            StreamOutput::Sse(stream) => stream.send_envelope(envelope),
        }
    }
}

} // verus!
