//! Circuit construction and onion-service connection logic for an
//! onion-routing client.
//!
//! The crate holds the decisions of the client: how a relay fingerprint
//! becomes an identity, how relays are filtered out of a directory snapshot,
//! how a circuit grows hop by hop, which links are reused, which server names
//! a TLS overlay may trust, and when a response has been read to its end.
//! Sockets, handshakes and timers are left to the caller, which reports their
//! outcomes back as plain values.

pub mod error;
pub mod text;
pub mod identity;
pub mod flags;
pub mod directory;
pub mod selector;
pub mod params;
pub mod channel;
pub mod circuit;
pub mod connector;
pub mod client;
