//! Client-side session logic for the Archipelago multiworld protocol.
//!
//! The library decides and computes; it reads and writes no socket. Its
//! caller hands it what the transport delivered and sends what it returns.
//!
//! - [`client`] holds the session: the handshake, the buffer of messages
//!   that arrived, the selective waits for replies, and the two halves that
//!   a session parts into.
//! - [`protocol`] holds the messages, the catalogue of names with its
//!   indexes from id to name, and the notifications whose fragments are
//!   resolved to names.
//! - [`json`] is the boundary to `serde_json`: the calls whose contracts are
//!   taken on trust.
//! - [`decimal`] writes and reads integers as decimal text.

pub mod client;
pub mod decimal;
pub mod json;
pub mod protocol;
