//! The stream that pushes each envelope to every connected WebSocket
//! client, as one text message per envelope.

use crate::channel::{is_capacity, Broadcaster, Subscription, DEFAULT_CAPACITY};
use crate::envelope::{short_type_name, StreamEnvelope};
use crate::error::StreamError;
use crate::stream::{DataStream, Sent};
use vstd::prelude::*;

verus! {

/// The sending side of the WebSocket server: the channel that every
/// connection of the server subscribes to.
pub struct WebSocketServer {
    channel: Broadcaster,
}

impl WebSocketServer {
    /// The capacity of the server's channel.
    pub closed spec fn channel_capacity(self) -> usize {
        self.channel.opened_with()
    }

    /// The sender of the server's channel.
    pub closed spec fn broadcast_sender(self) -> tokio::sync::broadcast::Sender<String> {
        self.channel.handle()
    }

    /// A server whose channel has the given capacity.
    pub fn new(channel_capacity: usize) -> (r: WebSocketServer)
        requires
            is_capacity(channel_capacity),
        ensures
            r.channel_capacity() == channel_capacity,
    {
        WebSocketServer { channel: Broadcaster::new(channel_capacity) }
    }

    /// A server whose channel has the default capacity.
    pub fn with_default_capacity() -> (r: WebSocketServer)
        ensures
            r.channel_capacity() == DEFAULT_CAPACITY,
    {
        WebSocketServer::new(DEFAULT_CAPACITY)
    }

    /// The capacity of the server's channel.
    pub fn capacity(&self) -> (r: usize)
        ensures
            r == self.channel_capacity(),
    {
        self.channel.capacity()
    }

    /// A handle on the sending side of the server's channel, for whoever
    /// publishes or subscribes from outside.
    pub fn get_broadcast_sender(&self) -> (r: tokio::sync::broadcast::Sender<String>)
        ensures
            r == self.broadcast_sender(),
    {
        self.channel.sender()
    }

    /// The receive handle for a new connection.
    pub fn subscribe(&self) -> (r: Subscription) {
        self.channel.subscribe()
    }
}

impl DataStream for WebSocketServer {
    open spec fn prints(&self) -> bool {
        false
    }

    fn send(&self, data_type: &str, data: &str) -> (r: Result<Sent, StreamError>) {
        let envelope = StreamEnvelope::new(data_type, data.to_owned());
        self.send_envelope(&envelope)
    }

    fn send_auto(&self, type_path: &str, data: &str) -> (r: Result<Sent, StreamError>) {
        let label = short_type_name(type_path);
        self.send(label.as_str(), data)
    }

    fn send_envelope(&self, envelope: &StreamEnvelope) -> (r: Result<Sent, StreamError>) {
        match envelope.to_json() {
            Ok(text) => {
                let published = self.channel.send(text.clone());
                Ok(Sent::Broadcast { text, published })
            },
            Err(error) => Err(error),
        }
    }
}

} // verus!
