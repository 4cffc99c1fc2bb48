//! Zero-copy handoff of columnar array values between two runtimes.
//!
//! A producer wraps an array (a buffer descriptor plus a schema descriptor)
//! into a pair of opaque, name-tagged capsules; a consumer validates the
//! tags and the structure and reclaims the array without copying the
//! underlying memory. The capsule lifecycle guarantees that the buffer is
//! released exactly once, whether the capsules are imported or abandoned.

pub mod buffer;
pub mod capsule;
pub mod cast;
pub mod handle;
pub mod schema;
