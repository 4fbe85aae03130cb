//! A message-deduplication gatekeeper for group chat streams.
//!
//! Every incoming text message is fingerprinted by channel and content; a
//! repeat of content already seen in the same channel is flagged for
//! deletion.  Administrators may permanently allow or forbid a given text,
//! and may seed the store from a bulk archive of historical messages.

pub mod engine;
pub mod fingerprint;
pub mod import;
pub mod laws;
pub mod store;
pub mod text;
