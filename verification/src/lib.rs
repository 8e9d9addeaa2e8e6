//! Client-side coordinator for a federated real-time messaging protocol.
//!
//! The crate keeps a local, incrementally updated view of the protocol
//! state — an ordered room list and one timeline per room — and serves
//! synchronous snapshots and subscription messages to a consumer. The
//! protocol engine, the credential store and the consumer channels are
//! external collaborators; this library holds the state machines and the
//! diff application that keep the local view consistent.

pub mod api;
pub mod diffs;
pub mod errors;
pub mod logger;
pub mod rooms;
pub mod session;
pub mod status;
pub mod streams;
pub mod sync_service;
pub mod text;
pub mod timelines;
pub mod user_search;
