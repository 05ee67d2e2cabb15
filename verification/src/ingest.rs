//! The decisions of the ingestion loop: what to do with each frame that
//! the upstream sends, and with each flashblock that a frame holds.
//!
//! The loop itself, which waits for frames, inflates and parses them, is
//! not here.

use crate::flashblocks::Flashblock;
use crate::protocols::{is_run_of, process_all_protocols, registered, HandlerOutput};
use vstd::prelude::*;

verus! {

/// The kinds of frame that the upstream sends, and the failure to read one.
#[derive(Clone, Copy, Debug, PartialEq, Eq, Structural)]
pub enum UpstreamFrame {
    /// A text frame: a flashblock as JSON.
    Text,
    /// A binary frame: a flashblock as compressed JSON.
    Binary,
    /// A ping, a pong or a raw frame.
    Control,
    /// The close frame.
    Close,
    /// Reading from the upstream failed.
    ReadError,
}

/// What the loop does with a frame.
#[derive(Clone, Copy, Debug, PartialEq, Eq, Structural)]
pub enum FrameStep {
    /// Parse the text of the frame as a flashblock.
    Parse,
    /// Inflate the frame, then parse the text as a flashblock.
    InflateAndParse,
    /// Pass the frame over and wait for the next.
    Skip,
    /// Leave the loop.
    Stop,
}

/// What the loop does with a frame: it stops where shutdown was asked for,
/// where the upstream closed and where reading failed; it parses what may
/// hold a flashblock; it passes over the rest.
pub open spec fn frame_step(shutdown: bool, frame: UpstreamFrame) -> FrameStep {
    if shutdown {
        FrameStep::Stop
    } else {
        match frame {
            UpstreamFrame::Text => FrameStep::Parse,
            UpstreamFrame::Binary => FrameStep::InflateAndParse,
            UpstreamFrame::Control => FrameStep::Skip,
            UpstreamFrame::Close => FrameStep::Stop,
            UpstreamFrame::ReadError => FrameStep::Stop,
        }
    }
}

/// Decides what the loop does with a frame. The shutdown flag is looked at
/// once for each frame, before the frame is.
pub fn on_frame(shutdown: bool, frame: UpstreamFrame) -> (r: FrameStep)
    ensures
        r == frame_step(shutdown, frame),
{
    if shutdown {
        return FrameStep::Stop;
    }
    match frame {
        UpstreamFrame::Text => FrameStep::Parse,
        UpstreamFrame::Binary => FrameStep::InflateAndParse,
        UpstreamFrame::Control => FrameStep::Skip,
        UpstreamFrame::Close => FrameStep::Stop,
        UpstreamFrame::ReadError => FrameStep::Stop,
    }
}

/// What a text that was taken for a flashblock turned out to be.
#[derive(Clone, Debug)]
pub enum Parsed {
    /// A flashblock.
    Flashblock(Flashblock),
    /// Not a flashblock: the text is dropped.
    Malformed,
}

/// What is to be done with a message of the upstream.
#[derive(Clone, Copy, Debug, PartialEq, Eq, Structural)]
pub enum Dispatch {
    /// The message is no flashblock: it is dropped.
    Drop,
    /// The flashblock does not tell its block number: it is passed over.
    Ignore,
    /// The flashblock is run through every registered handler, under this
    /// block number.
    Run { block_number: u64 },
}

/// What is to be done with a message: only a flashblock that tells its
/// block number is run through the handlers.
pub open spec fn dispatch_of(message: Parsed) -> Dispatch {
    match message {
        Parsed::Flashblock(fb) => match fb.metadata {
            Some(metadata) => Dispatch::Run { block_number: metadata.block_number },
            None => Dispatch::Ignore,
        },
        Parsed::Malformed => Dispatch::Drop,
    }
}

/// Decides what is to be done with a message of the upstream. No message
/// ends the loop.
pub fn plan(message: &Parsed) -> (r: Dispatch)
    ensures
        r == dispatch_of(*message),
{
    match message {
        Parsed::Flashblock(fb) => match fb.block_number() {
            Some(block_number) => Dispatch::Run { block_number },
            None => Dispatch::Ignore,
        },
        Parsed::Malformed => Dispatch::Drop,
    }
}

/// Handles one message of the upstream: a flashblock that tells its block
/// number is run through every registered handler; one that does not, and a
/// message that is no flashblock, yield nothing. No message ends the loop.
pub fn handle_message(message: &Parsed) -> (r: Option<Vec<HandlerOutput>>)
    ensures
        match *message {
            Parsed::Flashblock(fb) => match fb.metadata {
                Some(metadata) => r matches Some(outputs) && is_run_of(
                    outputs@,
                    registered(),
                    fb,
                    metadata.block_number,
                ),
                None => r is None,
            },
            Parsed::Malformed => r is None,
        },
{
    match message {
        Parsed::Flashblock(fb) => match plan(message) {
            Dispatch::Run { block_number } => Some(process_all_protocols(fb, block_number)),
            _ => None,
        },
        Parsed::Malformed => None,
    }
}

} // verus!
