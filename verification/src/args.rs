//! The configuration that the process is started with.

use vstd::prelude::*;
use vstd::string::*;

verus! {

/// The kind of output stream.
#[derive(Clone, Copy, Debug, PartialEq, Eq, Structural)]
pub enum StreamType {
    /// A WebSocket server; the default.
    Websocket,
    /// A server of server-sent events.
    Sse,
    /// The standard output.
    Print,
}

impl Default for StreamType {
    fn default() -> (r: StreamType)
        ensures
            r == StreamType::Websocket,
    {
        StreamType::Websocket
    }
}

/// The arguments of the process.
#[derive(Clone, Debug)]
pub struct Args {
    /// The WebSocket URL of the flashblocks upstream.
    pub url: String,
    /// The kind of output stream.
    pub stream: StreamType,
    /// The address that the output server binds to; unused where the output
    /// is printed.
    pub addr: String,
}

impl Default for Args {
    /// The arguments where none are given.
    fn default() -> (r: Args)
        ensures
            r.url@ == "wss://sepolia.flashblocks.base.org/ws"@,
            r.stream == StreamType::Websocket,
            r.addr@ == "localhost:9001"@,
    {
        Args {
            url: String::from_str("wss://sepolia.flashblocks.base.org/ws"),
            stream: StreamType::Websocket,
            addr: String::from_str("localhost:9001"),
        }
    }
}

} // verus!
