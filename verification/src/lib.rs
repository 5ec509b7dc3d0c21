//! Client of a time-series database: peer selection, connection reuse,
//! request envelopes and the streaming insert session.
//!
//! The library holds what the client decides. Which peer a call goes to is
//! settled in [`load_balance`] and [`client`]; which channel serves a peer in
//! [`channel_pool`]; what is sent and how the answer is read in [`database`];
//! in which order the messages of a stream reach the wire, and what the
//! stream comes to, in [`stream_insert`]; what a failure means in [`error`].
//! It neither waits nor touches the network: whoever runs it sets up the
//! channels, makes the calls and hands the outcomes back.
//!
//! A few things are taken from other crates as they are, on the word of
//! their documentation: the random draw of `rand`, the lock of `parking_lot`
//! that guards the peers, the status of `tonic`, and the decoding of UTF-8 by
//! the standard library. Each stands behind one small function that says what
//! is assumed of it.

pub mod api;
pub mod channel_manager;
pub mod channel_pool;
pub mod client;
pub mod database;
pub mod error;
pub mod helpers;
pub mod load_balance;
pub mod stream_insert;

pub use channel_manager::{ChannelConfig, ChannelManager, ClientTlsOption};
pub use channel_pool::ChannelPool;
pub use client::{Client, ClientBuilder, Compression, CompressionEncoding, DatabaseClient};
pub use database::{
    Database, UnaryCall, DEFAULT_CATALOG_NAME, DEFAULT_SCHEMA_NAME,
    DEFAULT_STREAMING_INSERTER_BUFFER_SIZE,
};
pub use error::{Error, ErrorKind, Result};
pub use stream_insert::{Forward, Offer, SessionState, StreamInsertor, TaskOutcome};
