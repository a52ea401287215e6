//! Core library of a forum platform backend.
//!
//! The heart of the library is the real-time comment relay: a room
//! registry that tracks which live connections watch which discussion
//! thread, a per-connection session state machine (protocol handling,
//! heartbeat, presence snapshots), and a coarse-grained event bus that
//! fans domain events out to subscribers.  All decision logic is
//! verified; transports, persistence and clocks live outside and hand
//! the library plain values.

pub mod error;
pub mod event;
pub mod event_session;
pub mod helpers;
pub mod ids;
pub mod info;
pub mod models;
pub mod mutation;
pub mod packet;
pub mod query;
pub mod registry;
pub mod session;
