//! A real-time broadcast hub.
//!
//! Clients hold a connection each, send text messages, and get every
//! message that any client sends, tagged with the identity of its sender.
//!
//! - [`identity`]: the allocator of connection identities.
//! - [`registry`]: which identity is reached through which endpoint, and the
//!   disconnect operation.
//! - [`envelope`] and [`enrich`]: reading a message, stamping it with its
//!   sender, writing it back.
//! - [`broadcast`]: one payload to every registered endpoint.
//! - [`session`]: the states that a connection runs through.
//! - [`json`] and [`channel`]: the calls into `serde_json` and `tokio`.

pub mod broadcast;
pub mod channel;
pub mod enrich;
pub mod envelope;
pub mod identity;
pub mod json;
pub mod payload;
pub mod registry;
pub mod session;
