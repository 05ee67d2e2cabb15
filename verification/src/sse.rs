//! The stream that serves each envelope to every connected client as a
//! server-sent event.

use crate::channel::{is_capacity, Broadcaster, Delivery, Subscription, DEFAULT_CAPACITY};
use crate::envelope::{short_type_name, StreamEnvelope};
use crate::error::StreamError;
use crate::stream::{DataStream, Sent};
use vstd::prelude::*;
use vstd::string::*;

verus! {

/// The text of one server-sent event: `data: `, the message and an empty line.
pub open spec fn event_text(message: Seq<char>) -> Seq<char> {
    "data: "@ + message + "\n\n"@
}

/// Whether an event stream is served under `path`.
pub open spec fn is_events_path(path: Seq<char>) -> bool {
    path == "/events"@ || path == "/"@
}

/// Frames a message as one server-sent event.
pub fn sse_event(message: &str) -> (r: String)
    ensures
        r@ == event_text(message@),
{
    let mut text = String::from_str("data: ");
    text.append(message);
    text.append("\n\n");
    text
}

/// What the stream of one client carries for a delivery of the channel: the
/// event of a message, and nothing for a lag, which is passed over.
pub fn sse_frame(delivery: &Delivery) -> (r: Option<String>)
    ensures
        match *delivery {
            Delivery::Message(message) => r matches Some(text) && text@ == event_text(message@),
            _ => r is None,
        },
{
    match delivery {
        Delivery::Message(message) => Some(sse_event(message.as_str())),
        _ => None,
    }
}

/// One header of a response.
#[derive(Clone, Copy, Debug)]
pub struct Header {
    pub name: &'static str,
    pub value: &'static str,
}

/// How a request is answered.
#[derive(Clone, Debug)]
pub struct SseResponse {
    /// The status code.
    pub status: u16,
    /// The headers, in order.
    pub headers: Vec<Header>,
    /// Whether the body is the open-ended stream of events; it is empty
    /// otherwise.
    pub streams: bool,
}

/// Whether `headers` are those of an event stream: the content type of
/// event streams, no caching, a connection that is kept open, and access
/// from any origin.
pub open spec fn are_stream_headers(headers: Seq<Header>) -> bool {
    &&& headers.len() == 4
    &&& headers[0].name@ == "Content-Type"@ && headers[0].value@ == "text/event-stream"@
    &&& headers[1].name@ == "Cache-Control"@ && headers[1].value@ == "no-cache"@
    &&& headers[2].name@ == "Connection"@ && headers[2].value@ == "keep-alive"@
    &&& headers[3].name@ == "Access-Control-Allow-Origin"@ && headers[3].value@ == "*"@
}

/// Tells whether an event stream is served under `path`.
pub fn serves(path: &str) -> (r: bool)
    ensures
        r == is_events_path(path@),
{
    let asked = path.to_owned();
    let events = String::from_str("/events");
    let root = String::from_str("/");
    asked.eq(&events) || asked.eq(&root)
}

/// Answers a request for `path`: the event stream under `/events` and `/`,
/// and 404 with an empty body anywhere else.
pub fn respond(path: &str) -> (r: SseResponse)
    ensures
        r.streams == is_events_path(path@),
        r.streams ==> r.status == 200 && are_stream_headers(r.headers@),
        !r.streams ==> r.status == 404 && r.headers@.len() == 0,
{
    if serves(path) {
        let mut headers: Vec<Header> = Vec::new();
        headers.push(Header { name: "Content-Type", value: "text/event-stream" });
        headers.push(Header { name: "Cache-Control", value: "no-cache" });
        headers.push(Header { name: "Connection", value: "keep-alive" });
        headers.push(Header { name: "Access-Control-Allow-Origin", value: "*" });
        SseResponse { status: 200, headers, streams: true }
    } else {
        SseResponse { status: 404, headers: Vec::new(), streams: false }
    }
}

/// The sending side of the event-stream server: the channel that every
/// connection of the server subscribes to.
pub struct SseServer {
    channel: Broadcaster,
}

impl SseServer {
    /// The capacity of the server's channel.
    pub closed spec fn channel_capacity(self) -> usize {
        self.channel.opened_with()
    }

    /// The sender of the server's channel.
    pub closed spec fn broadcast_sender(self) -> tokio::sync::broadcast::Sender<String> {
        self.channel.handle()
    }

    /// A server whose channel has the given capacity.
    pub fn new(channel_capacity: usize) -> (r: SseServer)
        requires
            is_capacity(channel_capacity),
        ensures
            r.channel_capacity() == channel_capacity,
    {
        SseServer { channel: Broadcaster::new(channel_capacity) }
    }

    /// A server whose channel has the default capacity.
    pub fn with_default_capacity() -> (r: SseServer)
        ensures
            r.channel_capacity() == DEFAULT_CAPACITY,
    {
        SseServer::new(DEFAULT_CAPACITY)
    }

    /// The capacity of the server's channel.
    pub fn capacity(&self) -> (r: usize)
        ensures
            r == self.channel_capacity(),
    {
        self.channel.capacity()
    }

    /// A handle on the sending side of the server's channel, for whoever
    /// publishes or subscribes from outside.
    pub fn get_broadcast_sender(&self) -> (r: tokio::sync::broadcast::Sender<String>)
        ensures
            r == self.broadcast_sender(),
    {
        self.channel.sender()
    }

    /// The receive handle for a new connection.
    pub fn subscribe(&self) -> (r: Subscription) {
        self.channel.subscribe()
    }
}

impl DataStream for SseServer {
    open spec fn prints(&self) -> bool {
        false
    }

    fn send(&self, data_type: &str, data: &str) -> (r: Result<Sent, StreamError>) {
        let envelope = StreamEnvelope::new(data_type, data.to_owned());
        self.send_envelope(&envelope)
    }

    fn send_auto(&self, type_path: &str, data: &str) -> (r: Result<Sent, StreamError>) {
        let label = short_type_name(type_path);
        self.send(label.as_str(), data)
    }

    fn send_envelope(&self, envelope: &StreamEnvelope) -> (r: Result<Sent, StreamError>) {
        match envelope.to_json() {
            Ok(text) => {
                let published = self.channel.send(text.clone());
                Ok(Sent::Broadcast { text, published })
            },
            Err(error) => Err(error),
        }
    }
}

} // verus!
