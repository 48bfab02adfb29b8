//! Resumable, integrity-checked file downloading: the decisions of a
//! streamed HTTP transfer, digest verification of the result, and
//! human-readable formatting of sizes and durations.

pub mod checksum;
pub mod format;
pub mod probe;
pub mod transfer;
