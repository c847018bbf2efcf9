//! Verified core of a save-synchronization SDK: boundary-safe message
//! envelopes, an in-memory archive packer/unpacker with path hardening,
//! a persisted notification-dedup cache, endpoint configuration, and the
//! decision logic of every networked operation.

pub mod archive;
pub mod args;
pub mod cache;
pub mod config;
pub mod envelope;
pub mod install;
pub mod json;
pub mod notify;
pub mod ops;
pub mod paths;
mod strutil;
