//! Keyed JSON documents over a SQLite table: the fixed key namespace, the
//! statements that seed, read and replace a document, and how every failure
//! is classified.

pub mod error;
pub mod json;
pub mod keys;
pub mod load;
pub mod service;
pub mod store;
pub mod table;
