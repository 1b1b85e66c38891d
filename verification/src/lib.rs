//! Simple and twisted tabulation hashing for 32-bit and 64-bit integer keys.
//!
//! Each hash function owns a fixed table of random integers, one column per
//! byte of the key and one row per possible byte value. Hashing a key looks
//! up one table cell per byte and XOR-folds the cells together; the twisted
//! variants additionally derive the last lookup index from the running hash
//! and discard the transient low half of a double-width accumulator.
//!
//! A table can be drawn at random, supplied by the caller, or rebuilt from a
//! nested-vector interchange form, so that a hash function can be saved and
//! later reconstructed to reproduce the same hash values.

pub mod chunks;
pub mod codec;
pub mod entropy;
pub mod simple32;
pub mod simple64;
pub mod twisted32;
pub mod twisted64;

pub use chunks::byte_chunks_32;
pub use chunks::byte_chunks_64;
pub use chunks::chunks_of_32;
pub use chunks::chunks_of_64;
pub use codec::TableError;
pub use codec::well_shaped;
pub use simple32::Tab32Simple;
pub use simple64::Tab64Simple;
pub use twisted32::Tab32Twisted;
pub use twisted64::Tab64Twisted;
