//! Verified core of a block-proposer indexer.
//!
//! The library holds the logic of the indexing pipeline: decoding the
//! decimal height strings of the upstream wire format, deriving the
//! checkpoint from the store contents, planning bounded batches, the
//! atomic batch insert with its row-count guard, the bounded startup
//! retry, and the non-overlapping periodic driver.  All network and
//! store I/O stays outside the library and hands in plain values.

pub mod errors;
pub mod decode;
pub mod records;
pub mod checkpoint;
pub mod store;
pub mod indexer;
pub mod startup;
pub mod driver;
pub mod statement;
