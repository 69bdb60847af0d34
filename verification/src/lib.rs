//! A small bearer-token service core: tokens are opaque strings bound to a
//! user identifier, optionally expiring at an absolute Unix time, persisted
//! in a key-value store with native per-key time-to-live.

pub mod config;
pub mod error;
pub mod laws;
pub mod lifecycle;
pub mod store;
pub mod token;
