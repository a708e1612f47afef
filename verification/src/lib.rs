//! Core of a multi-party chat broadcaster: a fan-out broadcast channel with
//! per-subscriber cursors, a registry of joined display names, and the
//! per-connection session protocol that ties the two together.

pub mod channel;
pub mod codec;
pub mod message;
pub mod registry;
pub mod session;
pub mod state;
