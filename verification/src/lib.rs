//! Verified core of a LAN media-device scanner.
//!
//! The library models one discovery session: a state machine that starts and
//! stops scanning, a registry of devices merged from resolved advertisements,
//! a per-session deduplication set, and a cancellable countdown. The network
//! backend, the async runtime and the host notification channel live outside
//! the library and hand it plain values.

pub mod addr;
pub mod classify;
pub mod dedup;
pub mod laws;
pub mod models;
pub mod registry;
pub mod session;
pub mod text;
