//! Account and session directory for a marketplace.
//!
//! The directory holds seller and buyer accounts and hands out sessions that
//! expire a fixed time after they were created or last read. A session that
//! has expired is gone for every read, and stays in the store only until the
//! next sweep removes it. Requests reach the directory as values
//! of [`protocol::CustomerDbRequest`], and each one is served by exactly one
//! operation of the account directory or of the session store.
//!
//! - [`model`]: the records, and what they are as mathematical values.
//! - [`table`]: the concurrent map that holds the records. Its operations are
//!   stated, not proved; everything else is verified against them.
//! - [`ids`], [`clock`]: where ids and the time come from.
//! - [`accounts`], [`sessions`]: the two stores.
//! - [`protocol`], [`service`]: requests, responses and their dispatch.
//! - [`keywords`]: search keywords as a client sends them.
//! - [`laws`]: what holds across several operations.

pub mod model;
pub mod table;
pub mod ids;
pub mod clock;
pub mod accounts;
pub mod sessions;
pub mod protocol;
pub mod service;
pub mod keywords;
pub mod laws;
