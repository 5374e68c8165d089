//! Gateway core for a narrowband wireless lighting-control link.
//!
//! The crate tracks the last-known configuration of each addressable light,
//! merges partial updates from clients, rescales validated values into the
//! wire protocol's native ranges, encodes the exact radio frames, and models
//! the single-owner dispatch queue that serializes every transmission.

pub mod protocol;
pub mod translate;
pub mod nanlite;
pub mod store;
pub mod dispatcher;
pub mod config;
pub mod gateway;
pub mod controls;
pub mod color;
