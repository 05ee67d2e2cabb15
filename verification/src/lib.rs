//! Event extraction and fan-out rules for a stream of flashblocks.
//!
//! The crate decodes protocol events out of the receipt logs that a flashblock
//! carries, prefilters receipts through their log bloom, groups what was
//! decoded per protocol, and frames each event for the consumers of a
//! broadcast channel.

pub mod aave;
pub mod abi;
pub mod args;
pub mod bloom;
pub mod chainlink;
pub mod channel;
pub mod connection;
pub mod envelope;
pub mod error;
pub mod events;
pub mod flashblocks;
pub mod ingest;
pub mod log;
pub mod morpho;
pub mod output;
pub mod primitives;
pub mod print;
pub mod protocols;
pub mod registry;
pub mod signature;
pub mod sse;
pub mod stream;
pub mod univ3;
pub mod utils;
pub mod websocket;
