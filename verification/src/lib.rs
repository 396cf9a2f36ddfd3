//! Retrieval of group-chat messages from a content-addressed, append-only
//! record store, organized by day-bucketed time indices.
//!
//! The store itself (fetching records by hash, fetching link edges, the
//! cross-module call gateway) is a host concern: this crate works on an
//! already-fetched, immutable snapshot of the relevant records and links,
//! and every step of the retrieval — bucket-key derivation, link filtering,
//! record decoding, read-receipt aggregation, reply resolution, and result
//! assembly — is verified against a functional specification.

pub mod types;
pub mod time;
pub mod digits;
pub mod store;
pub mod output;
pub mod utils;
pub mod bucket;
pub mod retrieve;
pub mod laws;
