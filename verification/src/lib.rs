//! Verified core of a form-template migration tool.
//!
//! The library rewrites a small set of embedded byte substrings (a backlink
//! URL and a trial identifier) inside raw serialized BSON records, so that
//! records copied from a source environment reference a destination
//! environment instead.  It provides:
//!
//! - a byte patcher that performs exact, fixed-length substring replacement
//!   over a byte buffer (`patch`);
//! - endpoint configuration and the derived backlink URL and asset path
//!   (`config`);
//! - a record transformer that applies the URL patch and then the identifier
//!   patch and re-validates the result as a well-formed BSON document
//!   (`transform`), over a trusted boundary around the BSON codec (`codec`);
//! - the migration state machine that sequences snapshots, fetch, transform,
//!   a human confirmation checkpoint, the destination write and the asset sync
//!   (`orchestrator`).
//!
//! All store and console I/O is left to the embedding program; the library
//! only decides and computes, and every decision is verified.

pub mod codec;
pub mod config;
pub mod orchestrator;
pub mod patch;
pub mod transform;
