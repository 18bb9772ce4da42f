//! Discovery and control of local-network smart plugs, switches and bulbs
//! that speak a length-framed, XOR-obfuscated JSON protocol: UDP broadcast
//! to find them, TCP to command them.
//!
//! Sockets are not part of this crate: a caller supplies a `Transport` that
//! carries one request and brings back the reply text, and feeds discovery
//! the datagrams it receives.

/// The wire codec and the reader that collects a framed reply.
pub mod protocol;
/// Reading JSON text and quoting strings for it.
pub mod json;
/// The system-information record and how a reply is read into it.
pub mod models;
/// The commands and their JSON text.
pub mod requests;
/// Switching and dimming, written once over a transport and a cache.
pub mod capabilities;
/// Device families and how a model string is resolved to one.
pub mod devices;
/// Broadcast cycles and the addresses a session has listed.
pub mod discovery;
/// Errors.
pub mod error;
/// The caller's directory of models and the records it shows.
pub mod state;
/// Events and short records for discovery listeners.
pub mod messages;
/// The operations a user interface invokes.
pub mod commands;
/// Choosing the local address to discover from.
pub mod netif;
